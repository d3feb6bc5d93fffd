use cpu::{Memory, CPU};

#[test]
fn write_then_read_one_cell() {
    let mut cpu = CPU::new();
    cpu.mem_write(0x1234, 0xAB);
    assert_eq!(cpu.mem_read(0x1234), 0xAB);
    assert_eq!(cpu.mem_read(0x1233), 0);
    assert_eq!(cpu.mem_read(0x1235), 0);
    cpu.mem_write(0xFFFE, 0x01);
    assert_eq!(cpu.mem_read(0xFFFE), 0x01);
    cpu.mem_write(0x0000, 0x02);
    assert_eq!(cpu.mem_read(0x0000), 0x02);
}

#[test]
fn sixteen_bit_access_is_little_endian() {
    let mut cpu = CPU::new();
    cpu.mem_write_u16(0x0100, 0xABCD);
    assert_eq!(cpu.mem_read(0x0100), 0xCD);
    assert_eq!(cpu.mem_read(0x0101), 0xAB);
    assert_eq!(cpu.mem_read_u16(0x0100), 0xABCD);
    cpu.mem_write(0x0200, 0x34);
    cpu.mem_write(0x0201, 0x12);
    assert_eq!(cpu.mem_read_u16(0x0200), 0x1234);
    cpu.mem_write_u16(0xFFFD, 0x00FF);
    assert_eq!(cpu.mem_read(0xFFFD), 0xFF);
    assert_eq!(cpu.mem_read(0xFFFE), 0x00);
    assert_eq!(cpu.mem_read_u16(0xFFFD), 0x00FF);
}

#[test]
fn load_copies_the_program_and_sets_the_reset_vector() {
    let mut cpu = CPU::new();
    cpu.mem_write(0x7FFF, 0x11);
    cpu.mem_write(0x8003, 0x22);
    cpu.load(vec![0xA9, 0x05, 0x00]);
    assert_eq!(cpu.mem_read(0x8000), 0xA9);
    assert_eq!(cpu.mem_read(0x8001), 0x05);
    assert_eq!(cpu.mem_read(0x8002), 0x00);
    assert_eq!(cpu.mem_read(0x7FFF), 0x11);
    assert_eq!(cpu.mem_read(0x8003), 0x22);
    assert_eq!(cpu.mem_read_u16(0xFFFC), 0x8000);
    assert_eq!(cpu.mem_read(0xFFFC), 0x00);
    assert_eq!(cpu.mem_read(0xFFFD), 0x80);
    assert_eq!(cpu.program_counter, 0);
}

#[test]
fn load_of_an_empty_program_sets_only_the_reset_vector() {
    let mut cpu = CPU::new();
    cpu.mem_write(0x8000, 0x5A);
    cpu.load(Vec::new());
    assert_eq!(cpu.mem_read(0x8000), 0x5A);
    assert_eq!(cpu.mem_read_u16(0xFFFC), 0x8000);
}

#[test]
fn longest_program_fills_memory_to_its_end() {
    let mut cpu = CPU::new();
    let program = vec![0x77u8; 0x7FFF];
    cpu.load(program);
    assert_eq!(cpu.mem_read(0x8000), 0x77);
    assert_eq!(cpu.mem_read(0xFFFB), 0x77);
    assert_eq!(cpu.mem_read(0xFFFE), 0x77);
    // the reset vector is written after the copy
    assert_eq!(cpu.mem_read_u16(0xFFFC), 0x8000);
}

#[test]
fn memory_on_its_own() {
    let mut memory = Memory::new();
    assert_eq!(memory.read(0x0000), 0);
    assert_eq!(memory.read(0xFFFE), 0);
    memory.write(0x0042, 0x99);
    assert_eq!(memory.read(0x0042), 0x99);
    memory.write_u16(0x0050, 0xBEEF);
    assert_eq!(memory.read(0x0050), 0xEF);
    assert_eq!(memory.read(0x0051), 0xBE);
    assert_eq!(memory.read_u16(0x0050), 0xBEEF);
    memory.load(0x0600, &vec![1, 2, 3]);
    assert_eq!(memory.read(0x05FF), 0);
    assert_eq!(memory.read(0x0600), 1);
    assert_eq!(memory.read(0x0601), 2);
    assert_eq!(memory.read(0x0602), 3);
    assert_eq!(memory.read(0x0603), 0);
    memory.load(0xFFFC, &vec![7, 8, 9]);
    assert_eq!(memory.read(0xFFFC), 7);
    assert_eq!(memory.read(0xFFFE), 9);
}
