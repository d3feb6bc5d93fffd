//! The fatal conditions that stop the machine.

use vstd::prelude::*;

verus! {

/// Why the machine refused to go on. None of these is recoverable: the
/// instruction that raised it has had no effect on the machine.
#[derive(Clone, Copy, Debug, PartialEq, Eq, Structural)]
pub enum CpuError {
    /// The byte fetched as an opcode has no entry in the opcode table.
    UnrecognizedOpcode(u8),
    /// The opcode has a descriptor but no handler is wired to it.
    UnimplementedInstruction(u8),
    /// An operand address was asked for under the no-operand mode.
    InvalidAddressingMode,
    /// An access fell on an address past the last memory cell.
    AddressOutOfRange,
}

} // verus!
