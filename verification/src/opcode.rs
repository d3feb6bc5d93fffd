//! The opcode table: one descriptor per instruction code.

use vstd::prelude::*;
use crate::error::CpuError;

verus! {

/// How the bytes after an opcode name the operand.
#[derive(Clone, Copy, Debug, PartialEq, Eq, Structural)]
#[allow(non_camel_case_types)]
pub enum AddressingMode {
    Immediate,
    ZeroPage,
    ZeroPage_X,
    ZeroPage_Y,
    Absolute,
    Absolute_X,
    Absolute_Y,
    Indirect_X,
    Indirect_Y,
    /// The instruction takes no operand.
    NoneAddressing,
}

/// The descriptor of one instruction code.
#[derive(Clone, Copy, Debug)]
pub struct OpCode {
    /// The instruction code.
    pub hex: u8,
    /// The mnemonic.
    pub name: &'static str,
    /// The size of the encoded instruction in bytes, opcode byte included.
    pub size: usize,
    /// The nominal cycle cost; nothing in the engine depends on it.
    pub cycles: usize,
    /// How the operand is addressed.
    pub addressing_mode: AddressingMode,
}

impl OpCode {
    pub fn new(
        hex: u8,
        name: &'static str,
        bytes: usize,
        cycles: usize,
        addressing_mode: AddressingMode,
    ) -> (opcode: OpCode)
        ensures
            opcode == (OpCode { hex, name, size: bytes, cycles, addressing_mode }),
    {
        OpCode { hex, name, size: bytes, cycles, addressing_mode }
    }
}

/// The code of the break instruction, which halts the engine.
pub const BRK: u8 = 0x00;

/// The number of operand bytes that an addressing mode reads after the opcode.
pub open spec fn operand_bytes(mode: AddressingMode) -> int {
    match mode {
        AddressingMode::Immediate => 1,
        AddressingMode::ZeroPage => 1,
        AddressingMode::ZeroPage_X => 1,
        AddressingMode::ZeroPage_Y => 1,
        AddressingMode::Absolute => 2,
        AddressingMode::Absolute_X => 2,
        AddressingMode::Absolute_Y => 2,
        AddressingMode::Indirect_X => 1,
        AddressingMode::Indirect_Y => 1,
        AddressingMode::NoneAddressing => 0,
    }
}

/// The registered descriptors, in the order in which the table lists them.
pub open spec fn op_code_table() -> Seq<OpCode> {
    seq![
        OpCode { hex: 0xA9, name: "LDA", size: 2, cycles: 2, addressing_mode: AddressingMode::Immediate },
        OpCode { hex: 0xA5, name: "LDA", size: 2, cycles: 2, addressing_mode: AddressingMode::ZeroPage },
        OpCode { hex: 0xB5, name: "LDA", size: 2, cycles: 2, addressing_mode: AddressingMode::ZeroPage_X },
        OpCode { hex: 0xAD, name: "LDA", size: 3, cycles: 2, addressing_mode: AddressingMode::Absolute },
        OpCode { hex: 0xBD, name: "LDA", size: 3, cycles: 2, addressing_mode: AddressingMode::Absolute_X },
        OpCode { hex: 0xB9, name: "LDA", size: 3, cycles: 2, addressing_mode: AddressingMode::Absolute_Y },
        OpCode { hex: 0xA1, name: "LDA", size: 2, cycles: 2, addressing_mode: AddressingMode::Indirect_X },
        OpCode { hex: 0xB1, name: "LDA", size: 2, cycles: 2, addressing_mode: AddressingMode::Indirect_Y },
        OpCode { hex: 0xAA, name: "TAX", size: 1, cycles: 2, addressing_mode: AddressingMode::NoneAddressing },
        OpCode { hex: 0xE8, name: "INX", size: 1, cycles: 2, addressing_mode: AddressingMode::NoneAddressing },
        OpCode { hex: 0x00, name: "BRK", size: 1, cycles: 7, addressing_mode: AddressingMode::Absolute },
        OpCode { hex: 0x85, name: "STA", size: 2, cycles: 3, addressing_mode: AddressingMode::ZeroPage },
        OpCode { hex: 0x95, name: "STA", size: 2, cycles: 4, addressing_mode: AddressingMode::ZeroPage_X },
        OpCode { hex: 0x8D, name: "STA", size: 3, cycles: 4, addressing_mode: AddressingMode::Absolute },
        OpCode { hex: 0x9D, name: "STA", size: 3, cycles: 5, addressing_mode: AddressingMode::Absolute_X },
        OpCode { hex: 0x99, name: "STA", size: 3, cycles: 5, addressing_mode: AddressingMode::Absolute_Y },
        OpCode { hex: 0x81, name: "STA", size: 2, cycles: 5, addressing_mode: AddressingMode::Indirect_X },
        OpCode { hex: 0x91, name: "STA", size: 2, cycles: 5, addressing_mode: AddressingMode::Indirect_Y },
    ]
}

/// The opcode table as a mapping: the descriptor registered for a code, if
/// there is one.
pub open spec fn descriptor(code: u8) -> Option<OpCode> {
    match code {
        0xA9u8 => Some(OpCode { hex: 0xA9, name: "LDA", size: 2, cycles: 2, addressing_mode: AddressingMode::Immediate }),
        0xA5u8 => Some(OpCode { hex: 0xA5, name: "LDA", size: 2, cycles: 2, addressing_mode: AddressingMode::ZeroPage }),
        0xB5u8 => Some(OpCode { hex: 0xB5, name: "LDA", size: 2, cycles: 2, addressing_mode: AddressingMode::ZeroPage_X }),
        0xADu8 => Some(OpCode { hex: 0xAD, name: "LDA", size: 3, cycles: 2, addressing_mode: AddressingMode::Absolute }),
        0xBDu8 => Some(OpCode { hex: 0xBD, name: "LDA", size: 3, cycles: 2, addressing_mode: AddressingMode::Absolute_X }),
        0xB9u8 => Some(OpCode { hex: 0xB9, name: "LDA", size: 3, cycles: 2, addressing_mode: AddressingMode::Absolute_Y }),
        0xA1u8 => Some(OpCode { hex: 0xA1, name: "LDA", size: 2, cycles: 2, addressing_mode: AddressingMode::Indirect_X }),
        0xB1u8 => Some(OpCode { hex: 0xB1, name: "LDA", size: 2, cycles: 2, addressing_mode: AddressingMode::Indirect_Y }),
        0xAAu8 => Some(OpCode { hex: 0xAA, name: "TAX", size: 1, cycles: 2, addressing_mode: AddressingMode::NoneAddressing }),
        0xE8u8 => Some(OpCode { hex: 0xE8, name: "INX", size: 1, cycles: 2, addressing_mode: AddressingMode::NoneAddressing }),
        0x00u8 => Some(OpCode { hex: 0x00, name: "BRK", size: 1, cycles: 7, addressing_mode: AddressingMode::Absolute }),
        0x85u8 => Some(OpCode { hex: 0x85, name: "STA", size: 2, cycles: 3, addressing_mode: AddressingMode::ZeroPage }),
        0x95u8 => Some(OpCode { hex: 0x95, name: "STA", size: 2, cycles: 4, addressing_mode: AddressingMode::ZeroPage_X }),
        0x8Du8 => Some(OpCode { hex: 0x8D, name: "STA", size: 3, cycles: 4, addressing_mode: AddressingMode::Absolute }),
        0x9Du8 => Some(OpCode { hex: 0x9D, name: "STA", size: 3, cycles: 5, addressing_mode: AddressingMode::Absolute_X }),
        0x99u8 => Some(OpCode { hex: 0x99, name: "STA", size: 3, cycles: 5, addressing_mode: AddressingMode::Absolute_Y }),
        0x81u8 => Some(OpCode { hex: 0x81, name: "STA", size: 2, cycles: 5, addressing_mode: AddressingMode::Indirect_X }),
        0x91u8 => Some(OpCode { hex: 0x91, name: "STA", size: 2, cycles: 5, addressing_mode: AddressingMode::Indirect_Y }),
        _ => None,
    }
}

/// Builds the full list of descriptors.
pub fn op_codes() -> (table: Vec<OpCode>)
    ensures
        table@ == op_code_table(),
{
    let mut table: Vec<OpCode> = Vec::new();
    table.push(OpCode::new(0xA9, "LDA", 2, 2, AddressingMode::Immediate));
    table.push(OpCode::new(0xA5, "LDA", 2, 2, AddressingMode::ZeroPage));
    table.push(OpCode::new(0xB5, "LDA", 2, 2, AddressingMode::ZeroPage_X));
    table.push(OpCode::new(0xAD, "LDA", 3, 2, AddressingMode::Absolute));
    table.push(OpCode::new(0xBD, "LDA", 3, 2, AddressingMode::Absolute_X));
    table.push(OpCode::new(0xB9, "LDA", 3, 2, AddressingMode::Absolute_Y));
    table.push(OpCode::new(0xA1, "LDA", 2, 2, AddressingMode::Indirect_X));
    table.push(OpCode::new(0xB1, "LDA", 2, 2, AddressingMode::Indirect_Y));
    table.push(OpCode::new(0xAA, "TAX", 1, 2, AddressingMode::NoneAddressing));
    table.push(OpCode::new(0xE8, "INX", 1, 2, AddressingMode::NoneAddressing));
    table.push(OpCode::new(0x00, "BRK", 1, 7, AddressingMode::Absolute));
    table.push(OpCode::new(0x85, "STA", 2, 3, AddressingMode::ZeroPage));
    table.push(OpCode::new(0x95, "STA", 2, 4, AddressingMode::ZeroPage_X));
    table.push(OpCode::new(0x8D, "STA", 3, 4, AddressingMode::Absolute));
    table.push(OpCode::new(0x9D, "STA", 3, 5, AddressingMode::Absolute_X));
    table.push(OpCode::new(0x99, "STA", 3, 5, AddressingMode::Absolute_Y));
    table.push(OpCode::new(0x81, "STA", 2, 5, AddressingMode::Indirect_X));
    table.push(OpCode::new(0x91, "STA", 2, 5, AddressingMode::Indirect_Y));
    assert(table@ =~= op_code_table());
    table
}

/// Finds the descriptor of an instruction code. A code that the table does
/// not hold is the fatal `UnrecognizedOpcode`.
pub fn lookup(code: u8) -> (found: Result<OpCode, CpuError>)
    ensures
        found == match descriptor(code) {
            Some(opcode) => Ok::<OpCode, CpuError>(opcode),
            None => Err(CpuError::UnrecognizedOpcode(code)),
        },
{
    match code {
        0xA9 => Ok(OpCode::new(0xA9, "LDA", 2, 2, AddressingMode::Immediate)),
        0xA5 => Ok(OpCode::new(0xA5, "LDA", 2, 2, AddressingMode::ZeroPage)),
        0xB5 => Ok(OpCode::new(0xB5, "LDA", 2, 2, AddressingMode::ZeroPage_X)),
        0xAD => Ok(OpCode::new(0xAD, "LDA", 3, 2, AddressingMode::Absolute)),
        0xBD => Ok(OpCode::new(0xBD, "LDA", 3, 2, AddressingMode::Absolute_X)),
        0xB9 => Ok(OpCode::new(0xB9, "LDA", 3, 2, AddressingMode::Absolute_Y)),
        0xA1 => Ok(OpCode::new(0xA1, "LDA", 2, 2, AddressingMode::Indirect_X)),
        0xB1 => Ok(OpCode::new(0xB1, "LDA", 2, 2, AddressingMode::Indirect_Y)),
        0xAA => Ok(OpCode::new(0xAA, "TAX", 1, 2, AddressingMode::NoneAddressing)),
        0xE8 => Ok(OpCode::new(0xE8, "INX", 1, 2, AddressingMode::NoneAddressing)),
        0x00 => Ok(OpCode::new(0x00, "BRK", 1, 7, AddressingMode::Absolute)),
        0x85 => Ok(OpCode::new(0x85, "STA", 2, 3, AddressingMode::ZeroPage)),
        0x95 => Ok(OpCode::new(0x95, "STA", 2, 4, AddressingMode::ZeroPage_X)),
        0x8D => Ok(OpCode::new(0x8D, "STA", 3, 4, AddressingMode::Absolute)),
        0x9D => Ok(OpCode::new(0x9D, "STA", 3, 5, AddressingMode::Absolute_X)),
        0x99 => Ok(OpCode::new(0x99, "STA", 3, 5, AddressingMode::Absolute_Y)),
        0x81 => Ok(OpCode::new(0x81, "STA", 2, 5, AddressingMode::Indirect_X)),
        0x91 => Ok(OpCode::new(0x91, "STA", 2, 5, AddressingMode::Indirect_Y)),
        _ => Err(CpuError::UnrecognizedOpcode(code)),
    }
}

/// The table and the mapping hold the same descriptors: each entry of the
/// table is what its code maps to, each descriptor of the mapping is an entry
/// of the table filed under its own code, and no code is listed twice.
pub proof fn lemma_table_is_mapping()
    ensures
        forall|i: int|
            0 <= i < op_code_table().len() ==> descriptor(#[trigger] op_code_table()[i].hex)
                == Some(op_code_table()[i]),
        forall|code: u8|
            #[trigger] descriptor(code) is Some ==> descriptor(code)->0.hex == code
                && op_code_table().contains(descriptor(code)->0),
        forall|i: int, j: int|
            0 <= i < j < op_code_table().len() ==> op_code_table()[i].hex
                != op_code_table()[j].hex,
{
    let table = op_code_table();
    assert forall|code: u8| #[trigger] descriptor(code) is Some implies descriptor(code)->0.hex
        == code && table.contains(descriptor(code)->0) by {
        let found = descriptor(code)->0;
        let i = choose|i: int| 0 <= i < table.len() && table[i].hex == code;
        assert(exists|i: int| 0 <= i < table.len() && table[i].hex == code) by {
            lemma_code_is_listed(code);
        }
        assert(table[i] == found);
    }
}

/// A code that the mapping holds stands in the table.
proof fn lemma_code_is_listed(code: u8)
    requires
        descriptor(code) is Some,
    ensures
        exists|i: int| 0 <= i < op_code_table().len() && op_code_table()[i].hex == code,
{
    let table = op_code_table();
    let i: int = if code == 0xA9 {
        0
    } else if code == 0xA5 {
        1
    } else if code == 0xB5 {
        2
    } else if code == 0xAD {
        3
    } else if code == 0xBD {
        4
    } else if code == 0xB9 {
        5
    } else if code == 0xA1 {
        6
    } else if code == 0xB1 {
        7
    } else if code == 0xAA {
        8
    } else if code == 0xE8 {
        9
    } else if code == 0x00 {
        10
    } else if code == 0x85 {
        11
    } else if code == 0x95 {
        12
    } else if code == 0x8D {
        13
    } else if code == 0x9D {
        14
    } else if code == 0x99 {
        15
    } else if code == 0x81 {
        16
    } else {
        17
    };
    assert(0 <= i < table.len() && table[i].hex == code);
}

/// Every registered instruction but break is as long as its opcode byte and
/// the operand bytes of its addressing mode; break is one byte long.
pub proof fn lemma_size_follows_mode(code: u8)
    requires
        descriptor(code) is Some,
    ensures
        code != BRK ==> descriptor(code)->0.size == 1 + operand_bytes(
            descriptor(code)->0.addressing_mode,
        ),
        code == BRK ==> descriptor(code)->0.size == 1,
        1 <= descriptor(code)->0.size <= 3,
{
}

} // verus!
