use vstd::prelude::*;

use crate::errors::VmError;
use crate::operations::Operation;
use crate::values::{Register, Value};

verus! {

/// The mathematical state of the machine: the address space, the register
/// file, the operand stack, the instruction cursor, the input bytes not yet
/// delivered, and the output bytes emitted so far.
#[verifier::ext_equal]
pub ghost struct VmState {
    pub mem: Seq<u16>,
    pub regs: Seq<u16>,
    pub stack: Seq<u16>,
    pub cursor: nat,
    pub input: Seq<u8>,
    pub output: Seq<u8>,
}

impl VmState {
    /// The address space holds exactly 32768 words and there are exactly
    /// eight registers.
    pub open spec fn wf(self) -> bool {
        self.mem.len() == 32768 && self.regs.len() == 8
    }
}

/// What one step of the machine reports: the program goes on, it came to a
/// normal stop, or it is waiting for the host to supply more input.
#[derive(Clone, Copy, Debug, PartialEq, Eq, Structural)]
pub enum StepOutcome {
    Continue,
    Halted,
    NeedInput,
}

/// The number an operand stands for: a literal is itself, a register
/// reference is the current contents of that register.
pub open spec fn resolve(s: VmState, v: Value) -> u16 {
    match v {
        Value::Literal(n) => n,
        Value::Register(r) => if r.0 < 8 && s.regs.len() == 8 {
            s.regs[r.0 as int]
        } else {
            0
        },
    }
}

/// Addition modulo 32768.
pub open spec fn add_mod(a: u16, b: u16) -> u16 {
    ((a + b) % 32768) as u16
}

/// Multiplication modulo 32768.
pub open spec fn mul_mod(a: u16, b: u16) -> u16 {
    ((a * b) % 32768) as u16
}

/// Remainder, reduced modulo 32768 like every stored arithmetic result.
pub open spec fn rem_mod(a: u16, b: u16) -> u16
    recommends
        b != 0,
{
    if b == 0 {
        0
    } else {
        ((a % b) % 32768) as u16
    }
}

/// Bitwise and, reduced modulo 32768 like every stored arithmetic result.
pub open spec fn and_mod(a: u16, b: u16) -> u16 {
    ((a & b) % 32768) as u16
}

/// Bitwise or, reduced modulo 32768 like every stored arithmetic result.
pub open spec fn or_mod(a: u16, b: u16) -> u16 {
    ((a | b) % 32768) as u16
}

/// Bitwise complement restricted to the low 15 bits: the stored word has its
/// high bit forced to zero.
pub open spec fn not_mod(a: u16) -> u16 {
    ((!a) % 32768) as u16
}

/// The word at an address, or an error outside the 15-bit address space.
pub open spec fn word_at(mem: Seq<u16>, a: nat) -> Result<u16, VmError> {
    if a < 32768 && mem.len() == 32768 {
        Ok(mem[a as int])
    } else {
        Err(VmError::AddressOutOfRange)
    }
}

/// The decoded value of the operand word at an address.
pub open spec fn value_at(mem: Seq<u16>, a: nat) -> Result<Value, VmError> {
    match word_at(mem, a) {
        Ok(w) => Value::decode_spec(w),
        Err(e) => Err(e),
    }
}

/// The operand word at an address, which must decode as a register
/// reference; a literal there is a decode error.
pub open spec fn register_at(mem: Seq<u16>, a: nat) -> Result<Register, VmError> {
    match value_at(mem, a) {
        Ok(Value::Register(r)) => Ok(r),
        Ok(Value::Literal(_)) => Err(VmError::ExpectedRegister),
        Err(e) => Err(e),
    }
}

/// The operands of an instruction whose single operand is a register slot.
pub open spec fn shape_r(mem: Seq<u16>, c: nat) -> Result<Register, VmError> {
    register_at(mem, c + 1)
}

/// The operands of an instruction whose single operand is a value slot.
pub open spec fn shape_v(mem: Seq<u16>, c: nat) -> Result<Value, VmError> {
    value_at(mem, c + 1)
}

/// The operands of an instruction with a register slot then a value slot,
/// decoded left to right so the leftmost bad operand decides the error.
pub open spec fn shape_rv(mem: Seq<u16>, c: nat) -> Result<(Register, Value), VmError> {
    match register_at(mem, c + 1) {
        Ok(r) => match value_at(mem, c + 2) {
            Ok(v) => Ok((r, v)),
            Err(e) => Err(e),
        },
        Err(e) => Err(e),
    }
}

/// The operands of an instruction with two value slots, decoded left to
/// right.
pub open spec fn shape_vv(mem: Seq<u16>, c: nat) -> Result<(Value, Value), VmError> {
    match value_at(mem, c + 1) {
        Ok(a) => match value_at(mem, c + 2) {
            Ok(b) => Ok((a, b)),
            Err(e) => Err(e),
        },
        Err(e) => Err(e),
    }
}

/// The operands of an instruction with a register slot then two value slots,
/// decoded left to right.
pub open spec fn shape_rvv(mem: Seq<u16>, c: nat) -> Result<(Register, Value, Value), VmError> {
    match register_at(mem, c + 1) {
        Ok(r) => match value_at(mem, c + 2) {
            Ok(a) => match value_at(mem, c + 3) {
                Ok(b) => Ok((r, a, b)),
                Err(e) => Err(e),
            },
            Err(e) => Err(e),
        },
        Err(e) => Err(e),
    }
}

/// Decode the instruction whose opcode word sits at cursor `c`: the typed
/// instruction together with the address one past its last operand, where
/// straight-line execution resumes.
pub open spec fn decode_spec(mem: Seq<u16>, c: nat) -> Result<(Operation, nat), VmError> {
    match word_at(mem, c) {
        Err(e) => Err(e),
        Ok(opcode) => if opcode == 0 {
            Ok((Operation::Halt, c + 1))
        } else if opcode == 1 {
            match shape_rv(mem, c) {
                Ok((r, v)) => Ok((Operation::SetRegister(r, v), c + 3)),
                Err(e) => Err(e),
            }
        } else if opcode == 2 {
            match shape_v(mem, c) {
                Ok(v) => Ok((Operation::Push(v), c + 2)),
                Err(e) => Err(e),
            }
        } else if opcode == 3 {
            match shape_r(mem, c) {
                Ok(r) => Ok((Operation::Pop(r), c + 2)),
                Err(e) => Err(e),
            }
        } else if opcode == 4 {
            match shape_rvv(mem, c) {
                Ok((r, a, b)) => Ok((Operation::Equal(r, a, b), c + 4)),
                Err(e) => Err(e),
            }
        } else if opcode == 5 {
            match shape_rvv(mem, c) {
                Ok((r, a, b)) => Ok((Operation::GreaterThan(r, a, b), c + 4)),
                Err(e) => Err(e),
            }
        } else if opcode == 6 {
            match shape_v(mem, c) {
                Ok(v) => Ok((Operation::Jump(v), c + 2)),
                Err(e) => Err(e),
            }
        } else if opcode == 7 {
            match shape_vv(mem, c) {
                Ok((a, b)) => Ok((Operation::JumpTrue(a, b), c + 3)),
                Err(e) => Err(e),
            }
        } else if opcode == 8 {
            match shape_vv(mem, c) {
                Ok((a, b)) => Ok((Operation::JumpFalse(a, b), c + 3)),
                Err(e) => Err(e),
            }
        } else if opcode == 9 {
            match shape_rvv(mem, c) {
                Ok((r, a, b)) => Ok((Operation::Add(r, a, b), c + 4)),
                Err(e) => Err(e),
            }
        } else if opcode == 10 {
            match shape_rvv(mem, c) {
                Ok((r, a, b)) => Ok((Operation::Multiply(r, a, b), c + 4)),
                Err(e) => Err(e),
            }
        } else if opcode == 11 {
            match shape_rvv(mem, c) {
                Ok((r, a, b)) => Ok((Operation::Modulo(r, a, b), c + 4)),
                Err(e) => Err(e),
            }
        } else if opcode == 12 {
            match shape_rvv(mem, c) {
                Ok((r, a, b)) => Ok((Operation::And(r, a, b), c + 4)),
                Err(e) => Err(e),
            }
        } else if opcode == 13 {
            match shape_rvv(mem, c) {
                Ok((r, a, b)) => Ok((Operation::Or(r, a, b), c + 4)),
                Err(e) => Err(e),
            }
        } else if opcode == 14 {
            match shape_rv(mem, c) {
                Ok((r, v)) => Ok((Operation::Not(r, v), c + 3)),
                Err(e) => Err(e),
            }
        } else if opcode == 15 {
            match shape_rv(mem, c) {
                Ok((r, v)) => Ok((Operation::ReadMem(r, v), c + 3)),
                Err(e) => Err(e),
            }
        } else if opcode == 16 {
            match shape_vv(mem, c) {
                Ok((a, b)) => Ok((Operation::WriteMem(a, b), c + 3)),
                Err(e) => Err(e),
            }
        } else if opcode == 17 {
            match shape_v(mem, c) {
                Ok(v) => Ok((Operation::Call(v), c + 2)),
                Err(e) => Err(e),
            }
        } else if opcode == 18 {
            Ok((Operation::Return, c + 1))
        } else if opcode == 19 {
            match shape_v(mem, c) {
                Ok(v) => Ok((Operation::Out(v), c + 2)),
                Err(e) => Err(e),
            }
        } else if opcode == 20 {
            match shape_r(mem, c) {
                Ok(r) => Ok((Operation::Input(r), c + 2)),
                Err(e) => Err(e),
            }
        } else if opcode == 21 {
            Ok((Operation::Noop, c + 1))
        } else {
            Err(VmError::UnknownOpcode)
        },
    }
}

/// The effect of one decoded instruction on the machine state. `next` is the
/// address one past the instruction's last operand, where straight-line
/// execution resumes.
pub open spec fn exec_op_spec(s: VmState, op: Operation, next: nat) -> Result<
    (VmState, StepOutcome),
    VmError,
> {
    match op {
        Operation::Halt => Ok((s, StepOutcome::Halted)),
        Operation::SetRegister(r, v) => Ok(
            (
                VmState { regs: s.regs.update(r.0 as int, resolve(s, v)), cursor: next, ..s },
                StepOutcome::Continue,
            ),
        ),
        Operation::Push(v) => Ok(
            (
                VmState { stack: s.stack.push(resolve(s, v)), cursor: next, ..s },
                StepOutcome::Continue,
            ),
        ),
        Operation::Pop(r) => if s.stack.len() == 0 {
            Err(VmError::StackUnderflow)
        } else {
            Ok(
                (
                    VmState {
                        regs: s.regs.update(r.0 as int, s.stack.last()),
                        stack: s.stack.drop_last(),
                        cursor: next,
                        ..s
                    },
                    StepOutcome::Continue,
                ),
            )
        },
        Operation::Equal(r, a, b) => {
            let val: u16 = if resolve(s, a) == resolve(s, b) {
                1
            } else {
                0
            };
            Ok(
                (
                    VmState { regs: s.regs.update(r.0 as int, val), cursor: next, ..s },
                    StepOutcome::Continue,
                ),
            )
        },
        Operation::GreaterThan(r, a, b) => {
            let val: u16 = if resolve(s, a) > resolve(s, b) {
                1
            } else {
                0
            };
            Ok(
                (
                    VmState { regs: s.regs.update(r.0 as int, val), cursor: next, ..s },
                    StepOutcome::Continue,
                ),
            )
        },
        Operation::Jump(v) => {
            let t = resolve(s, v);
            if t < 32768 {
                Ok((VmState { cursor: t as nat, ..s }, StepOutcome::Continue))
            } else {
                Err(VmError::BadJumpTarget)
            }
        },
        Operation::JumpTrue(a, b) => if resolve(s, a) != 0 {
            Ok((VmState { cursor: resolve(s, b) as nat, ..s }, StepOutcome::Continue))
        } else {
            Ok((VmState { cursor: next, ..s }, StepOutcome::Continue))
        },
        Operation::JumpFalse(a, b) => if resolve(s, a) == 0 {
            Ok((VmState { cursor: resolve(s, b) as nat, ..s }, StepOutcome::Continue))
        } else {
            Ok((VmState { cursor: next, ..s }, StepOutcome::Continue))
        },
        Operation::Add(r, a, b) => Ok(
            (
                VmState {
                    regs: s.regs.update(r.0 as int, add_mod(resolve(s, a), resolve(s, b))),
                    cursor: next,
                    ..s
                },
                StepOutcome::Continue,
            ),
        ),
        Operation::Multiply(r, a, b) => Ok(
            (
                VmState {
                    regs: s.regs.update(r.0 as int, mul_mod(resolve(s, a), resolve(s, b))),
                    cursor: next,
                    ..s
                },
                StepOutcome::Continue,
            ),
        ),
        Operation::Modulo(r, a, b) => if resolve(s, b) == 0 {
            Err(VmError::DivisionByZero)
        } else {
            Ok(
                (
                    VmState {
                        regs: s.regs.update(r.0 as int, rem_mod(resolve(s, a), resolve(s, b))),
                        cursor: next,
                        ..s
                    },
                    StepOutcome::Continue,
                ),
            )
        },
        Operation::And(r, a, b) => Ok(
            (
                VmState {
                    regs: s.regs.update(r.0 as int, and_mod(resolve(s, a), resolve(s, b))),
                    cursor: next,
                    ..s
                },
                StepOutcome::Continue,
            ),
        ),
        Operation::Or(r, a, b) => Ok(
            (
                VmState {
                    regs: s.regs.update(r.0 as int, or_mod(resolve(s, a), resolve(s, b))),
                    cursor: next,
                    ..s
                },
                StepOutcome::Continue,
            ),
        ),
        Operation::Not(r, v) => Ok(
            (
                VmState {
                    regs: s.regs.update(r.0 as int, not_mod(resolve(s, v))),
                    cursor: next,
                    ..s
                },
                StepOutcome::Continue,
            ),
        ),
        Operation::ReadMem(r, v) => {
            let addr = resolve(s, v);
            match word_at(s.mem, addr as nat) {
                Ok(w) => Ok(
                    (
                        VmState { regs: s.regs.update(r.0 as int, w), cursor: next, ..s },
                        StepOutcome::Continue,
                    ),
                ),
                Err(e) => Err(e),
            }
        },
        Operation::WriteMem(a, b) => {
            let addr = resolve(s, a);
            if addr < 32768 {
                Ok(
                    (
                        VmState {
                            mem: s.mem.update(addr as int, resolve(s, b)),
                            cursor: next,
                            ..s
                        },
                        StepOutcome::Continue,
                    ),
                )
            } else {
                Err(VmError::AddressOutOfRange)
            }
        },
        Operation::Call(v) => {
            let t = resolve(s, v);
            if t < 32768 {
                Ok(
                    (
                        VmState { stack: s.stack.push(next as u16), cursor: t as nat, ..s },
                        StepOutcome::Continue,
                    ),
                )
            } else {
                Err(VmError::BadJumpTarget)
            }
        },
        Operation::Return => if s.stack.len() == 0 {
            Ok((s, StepOutcome::Halted))
        } else {
            Ok(
                (
                    VmState { stack: s.stack.drop_last(), cursor: s.stack.last() as nat, ..s },
                    StepOutcome::Continue,
                ),
            )
        },
        Operation::Out(v) => {
            let ch = resolve(s, v);
            if ch > 127 {
                Err(VmError::InvalidCharacter)
            } else {
                Ok(
                    (
                        VmState { output: s.output.push(ch as u8), cursor: next, ..s },
                        StepOutcome::Continue,
                    ),
                )
            }
        },
        Operation::Input(r) => if s.input.len() == 0 {
            Ok((s, StepOutcome::NeedInput))
        } else {
            Ok(
                (
                    VmState {
                        regs: s.regs.update(r.0 as int, s.input[0] as u16),
                        input: s.input.skip(1),
                        cursor: next,
                        ..s
                    },
                    StepOutcome::Continue,
                ),
            )
        },
        Operation::Noop => Ok((VmState { cursor: next, ..s }, StepOutcome::Continue)),
    }
}

/// The address space after loading a program image: consecutive little-endian
/// byte pairs become the words at addresses 0, 1, 2, ...; an odd trailing
/// byte is discarded and every word past the image is zero.
pub open spec fn load_image(bytes: Seq<u8>) -> Seq<u16> {
    Seq::new(
        32768,
        |k: int|
            if 2 * k + 1 < bytes.len() {
                (bytes[2 * k] + 256 * bytes[2 * k + 1]) as u16
            } else {
                0u16
            },
    )
}

/// The machine as it boots: the image loaded at address 0, every register
/// zero, the stack and both byte streams empty, and the cursor at address 0.
pub open spec fn boot_state(bytes: Seq<u8>) -> VmState {
    VmState {
        mem: load_image(bytes),
        regs: Seq::new(8, |i: int| 0u16),
        stack: Seq::<u16>::empty(),
        cursor: 0,
        input: Seq::<u8>::empty(),
        output: Seq::<u8>::empty(),
    }
}

/// One whole fetch-decode-execute step from state `s`.
pub open spec fn step_spec(s: VmState) -> Result<(VmState, StepOutcome), VmError> {
    match decode_spec(s.mem, s.cursor) {
        Ok(p) => exec_op_spec(s, p.0, p.1),
        Err(e) => Err(e),
    }
}

/// How the executable step relates to the specification step: on success the
/// machine moved to exactly the predicted state and reported the predicted
/// outcome; on an error it reported that error and did not move at all, so
/// the cursor still names the failing instruction.
pub open spec fn step_result(
    pre: VmState,
    post: VmState,
    r: Result<StepOutcome, VmError>,
    sr: Result<(VmState, StepOutcome), VmError>,
) -> bool {
    match sr {
        Ok(p) => r == Ok::<StepOutcome, VmError>(p.1) && post == p.0,
        Err(e) => r == Err::<StepOutcome, VmError>(e) && post == pre,
    }
}

/// Up to `n` steps from state `s`: the result is `(t, Continue)` when the
/// machine is still running in state `t` after `n` steps, and otherwise the
/// stop or error the machine ran into within those steps.
pub open spec fn run_n(s: VmState, n: nat) -> Result<(VmState, StepOutcome), VmError>
    decreases n,
{
    if n == 0 {
        Ok((s, StepOutcome::Continue))
    } else {
        match step_spec(s) {
            Ok(p) => if p.1 is Continue {
                run_n(p.0, (n - 1) as nat)
            } else {
                Ok(p)
            },
            Err(e) => Err(e),
        }
    }
}

/// Appending one more step to a run that is still going: `n` steps lead to
/// the running state `t`, so `n + 1` steps give exactly what one step from
/// `t` gives.
pub proof fn lemma_run_n_step(s: VmState, t: VmState, n: nat)
    requires
        run_n(s, n) == Ok::<(VmState, StepOutcome), VmError>((t, StepOutcome::Continue)),
    ensures
        run_n(s, n + 1) == step_spec(t),
    decreases n,
{
    if n == 0 {
        assert(s == t);
        match step_spec(t) {
            Ok(p) => {
                if p.1 is Continue {
                    assert(run_n(s, 1) == run_n(p.0, 0));
                } else {
                    assert(run_n(s, 1) == Ok::<(VmState, StepOutcome), VmError>(p));
                }
            },
            Err(e) => {},
        }
    } else {
        match step_spec(s) {
            Ok(p) => {
                assert(p.1 is Continue);
                lemma_run_n_step(p.0, t, (n - 1) as nat);
            },
            Err(e) => {},
        }
    }
}

/// Every instruction the decoder yields is well formed, the cursor it
/// decoded from lay inside the address space, and the resume address sits
/// between one and four words past the opcode.
pub proof fn lemma_decode_wf(mem: Seq<u16>, c: nat)
    ensures
        decode_spec(mem, c) matches Ok(p) ==> p.0.wf() && c < 32768 && c + 1 <= p.1 <= c + 4,
{
    match decode_spec(mem, c) {
        Ok(p) => {
            assert(value_at(mem, c + 1) matches Ok(v) ==> v.wf());
            assert(value_at(mem, c + 2) matches Ok(v) ==> v.wf());
            assert(value_at(mem, c + 3) matches Ok(v) ==> v.wf());
        },
        Err(e) => {},
    }
}

} // verus!
