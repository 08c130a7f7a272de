use vstd::prelude::*;

verus! {

/// The ways a run of the virtual machine can fail. Every one of these is
/// fatal: the machine stops at the instruction that raised it, and the cursor
/// still points at that instruction.
#[derive(Clone, Copy, Debug, PartialEq, Eq, Structural)]
pub enum VmError {
    /// An operand word above 32775, which encodes neither a literal nor a
    /// register.
    InvalidWord,
    /// An opcode word above 21.
    UnknownOpcode,
    /// An operand slot that requires a register reference held a literal.
    ExpectedRegister,
    /// A jump or call destination at or above 32768.
    BadJumpTarget,
    /// A memory access outside the 15-bit address space.
    AddressOutOfRange,
    /// A modulo instruction with divisor zero.
    DivisionByZero,
    /// An output value above 127, outside the ASCII range.
    InvalidCharacter,
    /// A pop instruction with an empty stack.
    StackUnderflow,
    /// End of input while an input instruction was waiting for a byte.
    /// The library itself pauses instead of failing when the buffer runs dry;
    /// this variant is for a host that has no further input to offer.
    InputExhausted,
}

} // verus!
