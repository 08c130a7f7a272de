use vstd::prelude::*;

use crate::values::{Register, Value};

verus! {

/// A decoded instruction: an opcode together with its already-decoded
/// operands. Slots of type `Register` had to decode as register references;
/// slots of type `Value` may hold a literal or a register reference.
#[derive(Clone, Copy, Debug, PartialEq, Eq, Structural)]
pub enum Operation {
    Halt,
    SetRegister(Register, Value),
    Push(Value),
    Pop(Register),
    Equal(Register, Value, Value),
    GreaterThan(Register, Value, Value),
    Jump(Value),
    JumpTrue(Value, Value),
    JumpFalse(Value, Value),
    Add(Register, Value, Value),
    Multiply(Register, Value, Value),
    Modulo(Register, Value, Value),
    And(Register, Value, Value),
    Or(Register, Value, Value),
    Not(Register, Value),
    ReadMem(Register, Value),
    WriteMem(Value, Value),
    Call(Value),
    Return,
    Out(Value),
    Input(Register),
    Noop,
}

impl Operation {
    /// An instruction is well formed when every operand it carries is; the
    /// decoder only ever produces well formed instructions.
    pub open spec fn wf(self) -> bool {
        match self {
            Operation::Halt => true,
            Operation::SetRegister(r, v) => r.wf() && v.wf(),
            Operation::Push(v) => v.wf(),
            Operation::Pop(r) => r.wf(),
            Operation::Equal(r, a, b) => r.wf() && a.wf() && b.wf(),
            Operation::GreaterThan(r, a, b) => r.wf() && a.wf() && b.wf(),
            Operation::Jump(v) => v.wf(),
            Operation::JumpTrue(a, b) => a.wf() && b.wf(),
            Operation::JumpFalse(a, b) => a.wf() && b.wf(),
            Operation::Add(r, a, b) => r.wf() && a.wf() && b.wf(),
            Operation::Multiply(r, a, b) => r.wf() && a.wf() && b.wf(),
            Operation::Modulo(r, a, b) => r.wf() && a.wf() && b.wf(),
            Operation::And(r, a, b) => r.wf() && a.wf() && b.wf(),
            Operation::Or(r, a, b) => r.wf() && a.wf() && b.wf(),
            Operation::Not(r, v) => r.wf() && v.wf(),
            Operation::ReadMem(r, v) => r.wf() && v.wf(),
            Operation::WriteMem(a, b) => a.wf() && b.wf(),
            Operation::Call(v) => v.wf(),
            Operation::Return => true,
            Operation::Out(v) => v.wf(),
            Operation::Input(r) => r.wf(),
            Operation::Noop => true,
        }
    }
}

} // verus!
