//! The mathematical model of the machine: its state as plain values, and what
//! memory access, operand resolution and each instruction do to it.

use vstd::prelude::*;
use crate::error::CpuError;
use crate::flags::with_zero_and_negative;
use crate::memory::{in_range, load_program, read_u16, write_u16};
use crate::opcode::{descriptor, AddressingMode, OpCode, BRK};

verus! {

/// Where a program image is loaded.
pub const PROGRAM_ORIGIN: u16 = 0x8000;

/// Where the two bytes of the reset vector lie.
pub const RESET_VECTOR: u16 = 0xFFFC;

/// The state of a machine: registers, status byte, program counter, memory.
pub ghost struct CpuState {
    pub a: u8,
    pub x: u8,
    pub y: u8,
    pub status: u8,
    pub pc: u16,
    pub mem: Seq<u8>,
}

/// The little-endian 16-bit value whose low byte lies at the zero-page cell
/// `ptr` and whose high byte lies at the next zero-page cell, the page taken
/// as a ring.
pub open spec fn read_zero_page_u16(mem: Seq<u8>, ptr: int) -> u16 {
    (mem[ptr] + 256 * mem[(ptr + 1) % 0x100]) as u16
}

/// The effective operand address for `mode`, the program counter standing at
/// the first operand byte.
pub open spec fn operand_address(s: CpuState, mode: AddressingMode) -> Result<u16, CpuError> {
    match mode {
        AddressingMode::Immediate => Ok(s.pc),
        AddressingMode::NoneAddressing => Err(CpuError::InvalidAddressingMode),
        AddressingMode::Absolute | AddressingMode::Absolute_X | AddressingMode::Absolute_Y => {
            if in_range(s.pc + 1) {
                let base = read_u16(s.mem, s.pc as int);
                Ok(
                    match mode {
                        AddressingMode::Absolute_X => ((base + s.x) % 0x10000) as u16,
                        AddressingMode::Absolute_Y => ((base + s.y) % 0x10000) as u16,
                        _ => base,
                    },
                )
            } else {
                Err(CpuError::AddressOutOfRange)
            }
        },
        _ => {
            if in_range(s.pc as int) {
                let operand = s.mem[s.pc as int];
                Ok(
                    match mode {
                        AddressingMode::ZeroPage_X => ((operand + s.x) % 0x100) as u16,
                        AddressingMode::ZeroPage_Y => ((operand + s.y) % 0x100) as u16,
                        AddressingMode::Indirect_X => read_zero_page_u16(
                            s.mem,
                            (operand + s.x) % 0x100,
                        ),
                        AddressingMode::Indirect_Y => ((read_zero_page_u16(s.mem, operand as int)
                            + s.y) % 0x10000) as u16,
                        _ => operand as u16,
                    },
                )
            } else {
                Err(CpuError::AddressOutOfRange)
            }
        },
    }
}

/// Whether `code` is one of the load-accumulator instructions.
pub open spec fn is_load_accumulator(code: u8) -> bool {
    code == 0xA9 || code == 0xA5 || code == 0xB5 || code == 0xAD || code == 0xBD || code == 0xB9
        || code == 0xA1 || code == 0xB1
}

/// Whether `code` is one of the store-accumulator instructions.
pub open spec fn is_store_accumulator(code: u8) -> bool {
    code == 0x85 || code == 0x95 || code == 0x8D || code == 0x9D || code == 0x99 || code == 0x81
        || code == 0x91
}

/// Load-accumulator: the byte at the operand address goes to the accumulator,
/// and Zero and Negative follow it.
pub open spec fn load_accumulator(s: CpuState, mode: AddressingMode) -> Result<CpuState, CpuError> {
    match operand_address(s, mode) {
        Ok(addr) => if in_range(addr as int) {
            let value = s.mem[addr as int];
            Ok(CpuState { a: value, status: with_zero_and_negative(s.status, value), ..s })
        } else {
            Err(CpuError::AddressOutOfRange)
        },
        Err(e) => Err(e),
    }
}

/// Store-accumulator: the accumulator goes to the cell at the operand address.
pub open spec fn store_accumulator(s: CpuState, mode: AddressingMode) -> Result<CpuState, CpuError> {
    match operand_address(s, mode) {
        Ok(addr) => if in_range(addr as int) {
            Ok(CpuState { mem: s.mem.update(addr as int, s.a), ..s })
        } else {
            Err(CpuError::AddressOutOfRange)
        },
        Err(e) => Err(e),
    }
}

/// Transfer-accumulator-to-X: X takes the accumulator's value, and Zero and
/// Negative follow it.
pub open spec fn transfer_a_to_x(s: CpuState) -> CpuState {
    CpuState { x: s.a, status: with_zero_and_negative(s.status, s.a), ..s }
}

/// Increment-X: X goes up by one, 0xFF to 0, and Zero and Negative follow it.
pub open spec fn increment_x(s: CpuState) -> CpuState {
    let x = if s.x == 0xFF {
        0u8
    } else {
        (s.x + 1) as u8
    };
    CpuState { x, status: with_zero_and_negative(s.status, x), ..s }
}

/// What the handler wired to an opcode does, the program counter left where
/// it stands; an opcode with no handler is `UnimplementedInstruction`.
pub open spec fn handle(s: CpuState, opcode: OpCode) -> Result<CpuState, CpuError> {
    if is_load_accumulator(opcode.hex) {
        load_accumulator(s, opcode.addressing_mode)
    } else if is_store_accumulator(opcode.hex) {
        store_accumulator(s, opcode.addressing_mode)
    } else if opcode.hex == 0xAA {
        Ok(transfer_a_to_x(s))
    } else if opcode.hex == 0xE8 {
        Ok(increment_x(s))
    } else {
        Err(CpuError::UnimplementedInstruction(opcode.hex))
    }
}

/// What carrying out one instruction leaves: the new state, and whether the
/// engine halts there.
pub ghost struct Executed {
    pub state: CpuState,
    pub halted: bool,
}

/// Carrying out the instruction that `opcode` describes, the program counter
/// standing just past the opcode byte. Break halts and changes nothing. Any
/// other instruction runs its handler and then moves the program counter past
/// the operand bytes; one whose operand bytes would end beyond the address
/// space is `AddressOutOfRange`.
pub open spec fn execute(s: CpuState, opcode: OpCode) -> Result<Executed, CpuError> {
    if opcode.hex == BRK {
        Ok(Executed { state: s, halted: true })
    } else if s.pc + opcode.size - 1 > 0xFFFF {
        Err(CpuError::AddressOutOfRange)
    } else {
        match handle(s, opcode) {
            Ok(after) => Ok(
                Executed {
                    state: CpuState { pc: (after.pc + opcode.size - 1) as u16, ..after },
                    halted: false,
                },
            ),
            Err(e) => Err(e),
        }
    }
}

/// One turn of the engine: fetch the opcode byte at the program counter, find
/// its descriptor, and unless it is break step past it and carry it out.
pub open spec fn step(s: CpuState) -> Result<Executed, CpuError> {
    if !in_range(s.pc as int) {
        Err(CpuError::AddressOutOfRange)
    } else {
        match descriptor(s.mem[s.pc as int]) {
            None => Err(CpuError::UnrecognizedOpcode(s.mem[s.pc as int])),
            Some(opcode) => if opcode.hex == BRK {
                Ok(Executed { state: s, halted: true })
            } else {
                execute(CpuState { pc: (s.pc + 1) as u16, ..s }, opcode)
            },
        }
    }
}

/// Where a run ends: the state it leaves, and the error that stopped it if
/// it did not end on a break.
pub ghost struct Ran {
    pub state: CpuState,
    pub result: Result<(), CpuError>,
}

/// Running from `s`: step after step until a break is fetched or a step
/// fails; the failing step leaves the state as it found it.
pub open spec fn run(s: CpuState) -> Ran
    decreases 0x10000 - s.pc,
    via run_advances
{
    match step(s) {
        Err(e) => Ran { state: s, result: Err(e) },
        Ok(executed) => if executed.halted {
            Ran { state: executed.state, result: Ok(()) }
        } else {
            run(executed.state)
        },
    }
}

#[via_fn]
proof fn run_advances(s: CpuState) {
    lemma_step_advances(s);
}

/// A step that neither halts nor fails moves the program counter forward, by
/// the size of the instruction that it carried out.
pub proof fn lemma_step_advances(s: CpuState)
    ensures
        match step(s) {
            Ok(executed) => !executed.halted ==> {
                &&& descriptor(s.mem[s.pc as int]) is Some
                &&& executed.state.pc == s.pc + descriptor(s.mem[s.pc as int])->0.size
                &&& executed.state.pc > s.pc
            },
            Err(_) => true,
        },
{
}

/// The state after a reset: accumulator, X and status at zero, the program
/// counter taken from the reset vector; Y and the memory stay.
pub open spec fn reset(s: CpuState) -> CpuState {
    CpuState { a: 0, x: 0, status: 0, pc: read_u16(s.mem, RESET_VECTOR as int), ..s }
}

/// The state after a program image has been loaded at the origin and the
/// origin written to the reset vector.
pub open spec fn load(s: CpuState, program: Seq<u8>) -> CpuState {
    CpuState {
        mem: write_u16(
            load_program(s.mem, PROGRAM_ORIGIN as int, program),
            RESET_VECTOR as int,
            PROGRAM_ORIGIN,
        ),
        ..s
    }
}

/// Zero-page-indexed resolution stays in the zero page: whatever the index
/// register holds, the sum of operand byte and index is taken modulo 0x100,
/// so the address is below 0x0100. It fails only where the operand byte lies
/// past the last memory cell.
pub proof fn lemma_zero_page_indexed_stays_in_page(s: CpuState, mode: AddressingMode)
    requires
        mode == AddressingMode::ZeroPage_X || mode == AddressingMode::ZeroPage_Y,
    ensures
        match operand_address(s, mode) {
            Ok(addr) => {
                &&& addr < 0x0100
                &&& addr == (s.mem[s.pc as int] + (if mode == AddressingMode::ZeroPage_X {
                    s.x
                } else {
                    s.y
                })) % 0x100
            },
            Err(e) => e == CpuError::AddressOutOfRange && !in_range(s.pc as int),
        },
{
}

/// Absolute-indexed resolution wraps at 0x10000: the address is the sum of
/// the two-byte base and the index register modulo 0x10000, so a sum that
/// reaches 0x10000 starts again at 0. It fails only where an operand byte
/// lies past the last memory cell.
pub proof fn lemma_absolute_indexed_wraps(s: CpuState, mode: AddressingMode)
    requires
        mode == AddressingMode::Absolute_X || mode == AddressingMode::Absolute_Y,
    ensures
        match operand_address(s, mode) {
            Ok(addr) => {
                let base = read_u16(s.mem, s.pc as int);
                let index = if mode == AddressingMode::Absolute_X {
                    s.x
                } else {
                    s.y
                };
                &&& addr == (base + index) % 0x10000
                &&& base + index < 0x10000 ==> addr == base + index
                &&& base + index >= 0x10000 ==> addr == base + index - 0x10000
            },
            Err(e) => e == CpuError::AddressOutOfRange && !in_range(s.pc + 1),
        },
{
}

/// A byte that the opcode table does not hold is never skipped: the step that
/// fetches it fails with `UnrecognizedOpcode`, and so does a run that starts
/// there, the machine left as it was, its program counter still at that byte.
pub proof fn lemma_unrecognized_opcode_is_fatal(s: CpuState)
    requires
        in_range(s.pc as int),
        descriptor(s.mem[s.pc as int]) is None,
    ensures
        step(s) == Err::<Executed, CpuError>(CpuError::UnrecognizedOpcode(s.mem[s.pc as int])),
        run(s) == (Ran {
            state: s,
            result: Err(CpuError::UnrecognizedOpcode(s.mem[s.pc as int])),
        }),
{
}

/// A reset followed by a run that finds a break at the address in the reset
/// vector halts at once: accumulator, X and status are zero, the program
/// counter is the value read from the reset vector, and Y and the memory are
/// what they were before the reset.
pub proof fn lemma_reset_then_run_on_break(s: CpuState)
    requires
        in_range(read_u16(s.mem, RESET_VECTOR as int) as int),
        s.mem[read_u16(s.mem, RESET_VECTOR as int) as int] == BRK,
    ensures
        run(reset(s)).result == Ok::<(), CpuError>(()),
        run(reset(s)).state == reset(s),
        run(reset(s)).state.a == 0,
        run(reset(s)).state.x == 0,
        run(reset(s)).state.status == 0,
        run(reset(s)).state.pc == read_u16(s.mem, RESET_VECTOR as int),
        run(reset(s)).state.y == s.y,
        run(reset(s)).state.mem == s.mem,
{
}

/// A run ends on a break or on a failing step: when it is `Ok`, the byte at
/// the program counter it leaves is the break code; when it is an error, the
/// step from the state it leaves fails with that error.
pub proof fn lemma_run_ends(s: CpuState)
    ensures
        match run(s).result {
            Ok(_) => in_range(run(s).state.pc as int) && run(s).state.mem[run(s).state.pc as int]
                == BRK,
            Err(e) => step(run(s).state) == Err::<Executed, CpuError>(e),
        },
    decreases 0x10000 - s.pc,
{
    lemma_step_advances(s);
    match step(s) {
        Ok(executed) => {
            if !executed.halted {
                lemma_run_ends(executed.state);
            }
        },
        Err(_) => {},
    }
}

} // verus!
