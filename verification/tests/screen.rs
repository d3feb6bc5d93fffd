use cpu::screen::{color, key_code, next_frame, press_key, read_screen_state, redraw, Key};
use cpu::{CpuError, CPU};

#[test]
fn colours_of_the_palette() {
    assert_eq!(color(0), (0, 0, 0));
    assert_eq!(color(1), (255, 255, 255));
    assert_eq!(color(2), (128, 128, 128));
    assert_eq!(color(9), (128, 128, 128));
    assert_eq!(color(3), (255, 0, 0));
    assert_eq!(color(10), (255, 0, 0));
    assert_eq!(color(4), (0, 255, 0));
    assert_eq!(color(11), (0, 255, 0));
    assert_eq!(color(5), (0, 0, 255));
    assert_eq!(color(12), (0, 0, 255));
    assert_eq!(color(6), (255, 0, 255));
    assert_eq!(color(13), (255, 0, 255));
    assert_eq!(color(7), (255, 255, 0));
    assert_eq!(color(14), (255, 255, 0));
    assert_eq!(color(8), (0, 255, 255));
    assert_eq!(color(15), (0, 255, 255));
    assert_eq!(color(200), (0, 255, 255));
}

#[test]
fn blank_screen_needs_no_update() {
    let cpu = CPU::new();
    let mut frame = [0u8; 4096];
    assert_eq!(read_screen_state(&cpu, &mut frame), Some(false));
    assert_eq!(frame, [0u8; 4096]);
}

#[test]
fn changed_pixel_is_painted() {
    let mut cpu = CPU::new();
    cpu.mem_write(0x0200, 1);
    cpu.mem_write(0x0205, 3);
    let mut frame = [0u8; 4096];
    assert_eq!(read_screen_state(&cpu, &mut frame), Some(true));
    assert_eq!(&frame[0..4], &[255, 255, 255, 0]);
    // the pixel after a painted one is compared after its red byte took the
    // blue part of its neighbour, and is painted back to what the memory has
    assert_eq!(&frame[4..8], &[0, 0, 0, 0]);
    assert_eq!(&frame[8..12], &[0, 0, 0, 0]);
    assert_eq!(&frame[20..24], &[255, 0, 0, 0]);
    assert_eq!(&frame[24..28], &[0, 0, 0, 0]);
    // a second pass finds nothing to do
    let painted = frame;
    assert_eq!(read_screen_state(&cpu, &mut frame), Some(false));
    assert_eq!(frame, painted);
}

#[test]
fn fourth_byte_of_each_pixel_is_kept() {
    let mut cpu = CPU::new();
    for p in 0..1023u16 {
        cpu.mem_write(0x0200 + p, (p % 16) as u8);
    }
    let mut frame = [0x5Au8; 4096];
    frame[4092] = 0;
    frame[4093] = 0;
    frame[4094] = 0;
    assert_eq!(read_screen_state(&cpu, &mut frame), Some(true));
    for p in 0..1024usize {
        let byte = if p < 1023 { (p % 16) as u8 } else { 0 };
        let (r, g, b) = color(byte);
        assert_eq!(frame[4 * p], r);
        assert_eq!(frame[4 * p + 1], g);
        assert_eq!(frame[4 * p + 2], b);
        assert_eq!(frame[4 * p + 3], 0x5A);
    }
}

#[test]
fn painting_the_last_pixel_overruns() {
    let mut cpu = CPU::new();
    cpu.mem_write(0x05FF, 1);
    cpu.mem_write(0x0200, 3);
    let mut frame = [0u8; 4096];
    assert_eq!(read_screen_state(&cpu, &mut frame), None);
    assert_eq!(&frame[0..4], &[255, 0, 0, 0]);
    assert_eq!(&frame[4092..4096], &[0, 0, 0, 0]);
}

#[test]
fn painting_the_pixel_before_the_last_can_overrun() {
    let mut cpu = CPU::new();
    // blue is 255 for pixel 1022 and lands on the red byte of the last pixel
    cpu.mem_write(0x05FE, 5);
    let mut frame = [0u8; 4096];
    assert_eq!(read_screen_state(&cpu, &mut frame), None);
    assert_eq!(&frame[4088..4092], &[0, 0, 255, 0]);
    assert_eq!(&frame[4092..4096], &[255, 0, 0, 0]);
    // with a red pixel before the last, whose blue is 0, nothing overruns
    let mut cpu = CPU::new();
    cpu.mem_write(0x05FE, 3);
    let mut frame = [0u8; 4096];
    assert_eq!(read_screen_state(&cpu, &mut frame), Some(true));
    assert_eq!(&frame[4088..4092], &[255, 0, 0, 0]);
    assert_eq!(&frame[4092..4096], &[0, 0, 0, 0]);
}

#[test]
fn keys_have_the_codes_of_their_letters() {
    assert_eq!(key_code(&Key::W), 0x77);
    assert_eq!(key_code(&Key::A), 0x61);
    assert_eq!(key_code(&Key::S), 0x73);
    assert_eq!(key_code(&Key::D), 0x64);
    assert_eq!(key_code(&Key::W), b'w');
    assert_eq!(key_code(&Key::A), b'a');
    assert_eq!(key_code(&Key::S), b's');
    assert_eq!(key_code(&Key::D), b'd');
}

#[test]
fn pressed_key_goes_to_the_key_cell() {
    let mut cpu = CPU::new();
    press_key(&mut cpu, &Key::S);
    assert_eq!(cpu.mem_read(0x00FF), 0x73);
    assert_eq!(cpu.mem_read(0x00FE), 0);
    press_key(&mut cpu, &Key::D);
    assert_eq!(cpu.mem_read(0x00FF), 0x64);
}

#[test]
fn frame_runs_the_program_and_reads_the_screen() {
    let mut cpu = CPU::new();
    // LDA #$01 ; STA $0200 ; LDA $FE ; STA $0201 ; BRK
    cpu.load(vec![0xA9, 0x01, 0x8D, 0x00, 0x02, 0xA5, 0xFE, 0x8D, 0x01, 0x02, 0x00]);
    cpu.reset();
    let mut frame = [0u8; 4096];
    assert_eq!(redraw(&mut cpu, 3, &mut frame), Ok(Some(true)));
    assert_eq!(cpu.mem_read(0x00FE), 3);
    assert_eq!(cpu.mem_read(0x0200), 1);
    assert_eq!(cpu.mem_read(0x0201), 0);
    assert_eq!(&frame[0..8], &[255, 255, 255, 0, 0, 0, 0, 0]);
    // the next frame sees the random byte of the one before
    cpu.reset();
    assert_eq!(redraw(&mut cpu, 9, &mut frame), Ok(Some(true)));
    assert_eq!(cpu.mem_read(0x00FE), 9);
    assert_eq!(cpu.mem_read(0x0201), 3);
    assert_eq!(&frame[0..8], &[255, 255, 255, 0, 255, 0, 0, 0]);
    cpu.reset();
    cpu.mem_write(0x00FE, 3);
    assert_eq!(redraw(&mut cpu, 3, &mut frame), Ok(Some(false)));
}

#[test]
fn frame_stops_at_a_fatal_error() {
    let mut cpu = CPU::new();
    cpu.load(vec![0xA9, 0x01, 0x8D, 0x00, 0x02, 0x20, 0x06, 0x06]);
    cpu.reset();
    let mut frame = [0u8; 4096];
    assert_eq!(redraw(&mut cpu, 3, &mut frame), Err(CpuError::UnrecognizedOpcode(0x20)));
    assert_eq!(cpu.mem_read(0x00FE), 0);
    assert_eq!(cpu.mem_read(0x0200), 1);
    assert_eq!(cpu.program_counter, 0x8005);
    assert_eq!(frame, [0u8; 4096]);
}

#[test]
fn frame_draws_its_random_byte_from_one_to_fifteen() {
    let mut cpu = CPU::new();
    // LDA $FE ; STA $0200 ; BRK
    cpu.load(vec![0xA5, 0xFE, 0x8D, 0x00, 0x02, 0x00]);
    let mut frame = [0u8; 4096];
    let mut seen = [false; 256];
    for _ in 0..400 {
        cpu.reset();
        cpu.mem_write(0x00FE, 0);
        match next_frame(&mut cpu, &mut frame) {
            Ok(Some(_)) => {}
            other => panic!("a frame of this program is shown: {:?}", other),
        }
        let random = cpu.mem_read(0x00FE);
        assert!((1..16).contains(&random));
        seen[random as usize] = true;
        // the program saw the cell as it was before this frame's byte came
        assert_eq!(cpu.mem_read(0x0200), 0);
        let (r, g, b) = color(0);
        assert_eq!(&frame[0..3], &[r, g, b]);
    }
    // more than one byte of the range comes
    assert!(seen.iter().filter(|s| **s).count() > 1);
}

#[test]
fn frame_with_a_drawn_byte_stops_at_a_fatal_error() {
    let mut cpu = CPU::new();
    cpu.load(vec![0xE8, 0xEA]);
    cpu.reset();
    let mut frame = [7u8; 4096];
    assert_eq!(next_frame(&mut cpu, &mut frame), Err(CpuError::UnrecognizedOpcode(0xEA)));
    assert_eq!(cpu.mem_read(0x00FE), 0);
    assert_eq!(cpu.register_x, 1);
    assert_eq!(cpu.program_counter, 0x8001);
    assert_eq!(frame, [7u8; 4096]);
}
