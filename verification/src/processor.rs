//! The processor: register file, status flags and memory, with the
//! operations that the engine is built from.

use vstd::prelude::*;
use crate::error::CpuError;
use crate::flags::{
    flag_is_set, flag_mask, lemma_set_and_unset, lemma_zero_and_negative, mask_of,
    with_zero_and_negative, Flag,
};
use crate::machine;
use crate::machine::{CpuState, PROGRAM_ORIGIN, RESET_VECTOR};
use crate::memory::{in_range, read_u16, write_u16, Memory, MEMORY_SIZE};
use crate::opcode::{lookup, AddressingMode, OpCode, BRK};

verus! {

/// One emulated processor with the memory that it owns.
pub struct CPU {
    pub register_a: u8,
    pub register_x: u8,
    pub status: u8,
    pub register_y: u8,
    pub program_counter: u16,
    pub memory: Memory,
}

impl View for CPU {
    type V = CpuState;

    open spec fn view(&self) -> CpuState {
        CpuState {
            a: self.register_a,
            x: self.register_x,
            y: self.register_y,
            status: self.status,
            pc: self.program_counter,
            mem: self.memory@,
        }
    }
}

impl CPU {
    /// A processor with every register and every memory cell at zero.
    pub fn new() -> (cpu: CPU)
        ensures
            cpu@ == (CpuState {
                a: 0,
                x: 0,
                y: 0,
                status: 0,
                pc: 0,
                mem: Seq::new(MEMORY_SIZE as nat, |i: int| 0u8),
            }),
    {
        CPU {
            register_a: 0,
            register_x: 0,
            register_y: 0,
            status: 0,
            program_counter: 0,
            memory: Memory::new(),
        }
    }

    /// The status byte masked to one flag: zero when the flag is clear, the
    /// flag's bit when it is set.
    pub fn get_flag(&self, flag: &Flag) -> (bits: u8)
        ensures
            bits == self.status & flag_mask(*flag),
            bits != 0 <==> flag_is_set(self.status, *flag),
            bits == 0 || bits == flag_mask(*flag),
    {
        proof {
            let status = self.status;
            let mask = flag_mask(*flag);
            assert(status & mask == 0 || status & mask == mask) by (bit_vector)
                requires
                    mask == 0x80u8 || mask == 0x40u8 || mask == 0x08u8 || mask == 0x04u8 || mask
                        == 0x02u8 || mask == 0x01u8,
            ;
        }
        self.status & mask_of(flag)
    }

    /// Sets one flag and leaves the other bits of the status byte.
    pub fn set_flag(&mut self, flag: &Flag)
        ensures
            final(self)@ == (CpuState {
                status: old(self).status | flag_mask(*flag),
                ..old(self)@
            }),
            flag_is_set(final(self).status, *flag),
            forall|other: Flag|
                other != *flag ==> (#[trigger] flag_is_set(final(self).status, other)
                    <==> flag_is_set(old(self).status, other)),
    {
        proof {
            lemma_set_and_unset(self.status, *flag);
        }
        self.status = self.status | mask_of(flag);
    }

    /// Clears one flag and leaves the other bits of the status byte.
    pub fn unset_flag(&mut self, flag: &Flag)
        ensures
            final(self)@ == (CpuState {
                status: old(self).status & !flag_mask(*flag),
                ..old(self)@
            }),
            !flag_is_set(final(self).status, *flag),
            forall|other: Flag|
                other != *flag ==> (#[trigger] flag_is_set(final(self).status, other)
                    <==> flag_is_set(old(self).status, other)),
    {
        proof {
            lemma_set_and_unset(self.status, *flag);
        }
        self.status = self.status & !mask_of(flag);
    }

    /// Reads the memory cell at `addr`.
    pub fn mem_read(&self, addr: u16) -> (data: u8)
        requires
            in_range(addr as int),
        ensures
            data == self@.mem[addr as int],
    {
        self.memory.read(addr)
    }

    /// Stores `data` in the memory cell at `addr`.
    pub fn mem_write(&mut self, addr: u16, data: u8)
        requires
            in_range(addr as int),
        ensures
            final(self)@ == (CpuState {
                mem: old(self)@.mem.update(addr as int, data),
                ..old(self)@
            }),
    {
        self.memory.write(addr, data);
    }

    /// Reads the little-endian 16-bit value at `pos` and `pos + 1`.
    pub fn mem_read_u16(&self, pos: u16) -> (data: u16)
        requires
            in_range(pos + 1),
        ensures
            data == read_u16(self@.mem, pos as int),
    {
        self.memory.read_u16(pos)
    }

    /// Stores a 16-bit value, low byte first, at `pos` and `pos + 1`.
    pub fn mem_write_u16(&mut self, pos: u16, data: u16)
        requires
            in_range(pos + 1),
        ensures
            final(self)@ == (CpuState {
                mem: write_u16(old(self)@.mem, pos as int, data),
                ..old(self)@
            }),
    {
        self.memory.write_u16(pos, data);
    }

    /// Recomputes Zero and Negative from a result value: Zero is set exactly
    /// when the value is zero, Negative exactly when its bit 7 is set. No other
    /// bit of the status byte changes.
    pub fn update_zero_and_negative_flags(&mut self, value: u8)
        ensures
            final(self)@ == (CpuState {
                status: with_zero_and_negative(old(self).status, value),
                ..old(self)@
            }),
            flag_is_set(final(self).status, Flag::Zero) <==> value == 0,
            flag_is_set(final(self).status, Flag::Negative) <==> value & 0b1000_0000 != 0,
            flag_is_set(final(self).status, Flag::Negative) <==> value >= 0x80,
            final(self).status & 0b0111_1101 == old(self).status & 0b0111_1101,
    {
        let ghost before = self.status;
        if value == 0 {
            self.set_flag(&Flag::Zero);
        } else {
            self.unset_flag(&Flag::Zero);
        }
        if value & 0b1000_0000 != 0 {
            self.set_flag(&Flag::Negative);
        } else {
            self.unset_flag(&Flag::Negative);
        }
        proof {
            let after = self.status;
            assert(after == with_zero_and_negative(before, value)) by (bit_vector)
                requires
                    after == if value & 0b1000_0000u8 != 0 {
                        (if value == 0 {
                            before | 0b0000_0010u8
                        } else {
                            before & !0b0000_0010u8
                        }) | 0b1000_0000u8
                    } else {
                        (if value == 0 {
                            before | 0b0000_0010u8
                        } else {
                            before & !0b0000_0010u8
                        }) & !0b1000_0000u8
                    },
            ;
            lemma_zero_and_negative(before, value);
        }
    }

    /// Resolves the operand address for `mode`. The program counter stands at
    /// the first operand byte and is not moved.
    pub fn get_operand_address(&self, mode: &AddressingMode) -> (resolved: Result<u16, CpuError>)
        ensures
            resolved == machine::operand_address(self@, *mode),
    {
        let pc = self.program_counter;
        match mode {
            AddressingMode::Immediate => Ok(pc),
            AddressingMode::NoneAddressing => Err(CpuError::InvalidAddressingMode),
            AddressingMode::Absolute => {
                if pc >= 0xFFFE {
                    return Err(CpuError::AddressOutOfRange);
                }
                Ok(self.mem_read_u16(pc))
            },
            AddressingMode::Absolute_X => {
                if pc >= 0xFFFE {
                    return Err(CpuError::AddressOutOfRange);
                }
                let base = self.mem_read_u16(pc);
                Ok(base.wrapping_add(self.register_x as u16))
            },
            AddressingMode::Absolute_Y => {
                if pc >= 0xFFFE {
                    return Err(CpuError::AddressOutOfRange);
                }
                let base = self.mem_read_u16(pc);
                Ok(base.wrapping_add(self.register_y as u16))
            },
            AddressingMode::ZeroPage => {
                if pc >= 0xFFFF {
                    return Err(CpuError::AddressOutOfRange);
                }
                Ok(self.mem_read(pc) as u16)
            },
            AddressingMode::ZeroPage_X => {
                if pc >= 0xFFFF {
                    return Err(CpuError::AddressOutOfRange);
                }
                let pos = self.mem_read(pc);
                Ok(pos.wrapping_add(self.register_x) as u16)
            },
            AddressingMode::ZeroPage_Y => {
                if pc >= 0xFFFF {
                    return Err(CpuError::AddressOutOfRange);
                }
                let pos = self.mem_read(pc);
                Ok(pos.wrapping_add(self.register_y) as u16)
            },
            AddressingMode::Indirect_X => {
                if pc >= 0xFFFF {
                    return Err(CpuError::AddressOutOfRange);
                }
                let base = self.mem_read(pc);
                let ptr: u8 = base.wrapping_add(self.register_x);
                Ok(self.read_zero_page_u16(ptr))
            },
            AddressingMode::Indirect_Y => {
                if pc >= 0xFFFF {
                    return Err(CpuError::AddressOutOfRange);
                }
                let base = self.mem_read(pc);
                let deref_base = self.read_zero_page_u16(base);
                Ok(deref_base.wrapping_add(self.register_y as u16))
            },
        }
    }

    /// Reads a little-endian 16-bit value from the zero page: the low byte at
    /// `ptr`, the high byte at the cell after it, 0xFF being followed by 0.
    fn read_zero_page_u16(&self, ptr: u8) -> (data: u16)
        ensures
            data == machine::read_zero_page_u16(self@.mem, ptr as int),
    {
        let lo = self.mem_read(ptr as u16);
        let hi = self.mem_read(ptr.wrapping_add(1) as u16);
        assert(((hi as u16) << 8) | (lo as u16) == (lo + 256 * hi) as u16) by (bit_vector);
        (hi as u16) << 8 | (lo as u16)
    }

    /// Load-accumulator: reads the byte at the operand address into the
    /// accumulator and recomputes Zero and Negative from it. On an error the
    /// processor is left as it was.
    pub fn lda(&mut self, mode: &AddressingMode) -> (done: Result<(), CpuError>)
        ensures
            match machine::load_accumulator(old(self)@, *mode) {
                Ok(after) => done is Ok && final(self)@ == after,
                Err(e) => done == Err::<(), CpuError>(e) && final(self)@ == old(self)@,
            },
            done is Ok ==> {
                &&& flag_is_set(final(self).status, Flag::Zero) <==> final(self).register_a == 0
                &&& flag_is_set(final(self).status, Flag::Negative) <==> final(self).register_a
                    >= 0x80
                &&& final(self).status & 0b0111_1101 == old(self).status & 0b0111_1101
            },
    {
        let addr = match self.get_operand_address(mode) {
            Ok(addr) => addr,
            Err(e) => {
                return Err(e);
            },
        };
        if addr >= 0xFFFF {
            return Err(CpuError::AddressOutOfRange);
        }
        self.register_a = self.mem_read(addr);
        self.update_zero_and_negative_flags(self.register_a);
        Ok(())
    }

    /// Store-accumulator: writes the accumulator to the cell at the operand
    /// address; no flag changes. On an error the processor is left as it was.
    pub fn sta(&mut self, mode: &AddressingMode) -> (done: Result<(), CpuError>)
        ensures
            match machine::store_accumulator(old(self)@, *mode) {
                Ok(after) => done is Ok && final(self)@ == after,
                Err(e) => done == Err::<(), CpuError>(e) && final(self)@ == old(self)@,
            },
    {
        let addr = match self.get_operand_address(mode) {
            Ok(addr) => addr,
            Err(e) => {
                return Err(e);
            },
        };
        if addr >= 0xFFFF {
            return Err(CpuError::AddressOutOfRange);
        }
        self.mem_write(addr, self.register_a);
        Ok(())
    }

    /// Transfer-accumulator-to-X: copies the accumulator into X and recomputes
    /// Zero and Negative from it.
    pub fn tax(&mut self)
        ensures
            final(self)@ == machine::transfer_a_to_x(old(self)@),
            flag_is_set(final(self).status, Flag::Zero) <==> final(self).register_x == 0,
            flag_is_set(final(self).status, Flag::Negative) <==> final(self).register_x >= 0x80,
            final(self).status & 0b0111_1101 == old(self).status & 0b0111_1101,
    {
        self.register_x = self.register_a;
        self.update_zero_and_negative_flags(self.register_x);
    }

    /// Increment-X: adds one to X, 0xFF going to 0, and recomputes Zero and
    /// Negative from it.
    pub fn inx(&mut self)
        ensures
            final(self)@ == machine::increment_x(old(self)@),
            flag_is_set(final(self).status, Flag::Zero) <==> final(self).register_x == 0,
            flag_is_set(final(self).status, Flag::Negative) <==> final(self).register_x >= 0x80,
            final(self).status & 0b0111_1101 == old(self).status & 0b0111_1101,
    {
        self.register_x = self.register_x.wrapping_add(1);
        self.update_zero_and_negative_flags(self.register_x)
    }

    /// Zeroes the accumulator, X and the status byte and loads the program
    /// counter from the reset vector. Y and the memory are left as they are.
    pub fn reset(&mut self)
        ensures
            final(self)@ == machine::reset(old(self)@),
    {
        self.register_a = 0;
        self.register_x = 0;
        self.status = 0;

        self.program_counter = self.mem_read_u16(RESET_VECTOR);
    }

    /// Copies a program image to the program origin and points the reset
    /// vector at the origin.
    pub fn load(&mut self, program: Vec<u8>)
        requires
            PROGRAM_ORIGIN + program.len() <= MEMORY_SIZE,
        ensures
            final(self)@ == machine::load(old(self)@, program@),
    {
        self.memory.load(PROGRAM_ORIGIN, &program);
        self.mem_write_u16(RESET_VECTOR, PROGRAM_ORIGIN);
    }

    /// Loads a program, resets, and runs until the program halts or fails.
    pub fn load_and_run(&mut self, program: Vec<u8>) -> (done: Result<(), CpuError>)
        requires
            PROGRAM_ORIGIN + program.len() <= MEMORY_SIZE,
        ensures
            final(self)@ == machine::run(machine::reset(machine::load(old(self)@, program@))).state,
            done == machine::run(machine::reset(machine::load(old(self)@, program@))).result,
    {
        self.load(program);
        self.reset();
        self.run()
    }

    /// Carries out the instruction that `opcode` describes, the program
    /// counter standing just past the opcode byte. Returns whether the
    /// instruction halts the engine. On an error the processor is left as it
    /// was.
    pub fn execute(&mut self, opcode: &OpCode) -> (halted: Result<bool, CpuError>)
        requires
            opcode.size >= 1,
        ensures
            match machine::execute(old(self)@, *opcode) {
                Ok(executed) => halted == Ok::<bool, CpuError>(executed.halted) && final(self)@
                    == executed.state,
                Err(e) => halted == Err::<bool, CpuError>(e) && final(self)@ == old(self)@,
            },
    {
        if opcode.hex == BRK {
            return Ok(true);
        }
        let operand_pc = self.program_counter;
        if opcode.size - 1 > (0xFFFF - operand_pc) as usize {
            return Err(CpuError::AddressOutOfRange);
        }
        let handled = match opcode.hex {
            0xA9 | 0xA5 | 0xB5 | 0xAD | 0xBD | 0xB9 | 0xA1 | 0xB1 => self.lda(
                &opcode.addressing_mode,
            ),
            0x85 | 0x95 | 0x8D | 0x9D | 0x99 | 0x81 | 0x91 => self.sta(&opcode.addressing_mode),
            0xAA => {
                self.tax();
                Ok(())
            },
            0xE8 => {
                self.inx();
                Ok(())
            },
            _ => Err(CpuError::UnimplementedInstruction(opcode.hex)),
        };
        match handled {
            Ok(()) => {
                if operand_pc == self.program_counter {
                    self.program_counter = operand_pc + (opcode.size - 1) as u16;
                }
                Ok(false)
            },
            Err(e) => Err(e),
        }
    }

    /// One turn of the engine: fetches the opcode byte at the program counter,
    /// looks up its descriptor and, unless it is break, steps past it and
    /// carries the instruction out. Returns whether the engine halts. On an
    /// error the processor is left as it was, the program counter at the
    /// offending opcode.
    pub fn step(&mut self) -> (halted: Result<bool, CpuError>)
        ensures
            match machine::step(old(self)@) {
                Ok(executed) => halted == Ok::<bool, CpuError>(executed.halted) && final(self)@
                    == executed.state,
                Err(e) => halted == Err::<bool, CpuError>(e) && final(self)@ == old(self)@,
            },
    {
        let fetched_at = self.program_counter;
        if fetched_at >= 0xFFFF {
            return Err(CpuError::AddressOutOfRange);
        }
        let code = self.mem_read(fetched_at);
        let opcode = match lookup(code) {
            Ok(opcode) => opcode,
            Err(e) => {
                return Err(e);
            },
        };
        if code == BRK {
            return Ok(true);
        }
        self.program_counter = fetched_at + 1;
        match self.execute(&opcode) {
            Ok(halted) => Ok(halted),
            Err(e) => {
                self.program_counter = fetched_at;
                Err(e)
            },
        }
    }

    /// Runs the engine until a break is fetched, which is `Ok`, or an
    /// instruction fails. The processor is then as the last successful step
    /// left it.
    pub fn run(&mut self) -> (done: Result<(), CpuError>)
        ensures
            final(self)@ == machine::run(old(self)@).state,
            done == machine::run(old(self)@).result,
    {
        loop
            invariant
                machine::run(self@) == machine::run(old(self)@),
            decreases 0x10000 - self.program_counter,
        {
            proof {
                machine::lemma_step_advances(self@);
            }
            match self.step() {
                Ok(halted) => {
                    if halted {
                        return Ok(());
                    }
                },
                Err(e) => {
                    return Err(e);
                },
            }
        }
    }
}

} // verus!
