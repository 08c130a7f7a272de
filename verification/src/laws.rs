use vstd::prelude::*;

use crate::errors::VmError;
use crate::model::{
    decode_spec, exec_op_spec, lemma_decode_wf, not_mod, resolve, step_spec, StepOutcome, VmState,
};
use crate::operations::Operation;
use crate::values::{Register, Value};

verus! {

/// Taking the 15-bit complement twice gives the original back, for every
/// value the machine can store.
pub proof fn lemma_not_involutive(x: u16)
    requires
        x <= 32767,
    ensures
        not_mod(not_mod(x)) == x,
{
    assert((!x) == 65535 - x) by (bit_vector);
    assert(not_mod(x) == 32767 - x);
    assert((!((32767 - x) as u16)) == 65535 - (32767 - x)) by (bit_vector)
        requires
            x <= 32767,
    ;
}

/// A `not` instruction followed by a `not` of the same register restores the
/// value the first one read, for every source value in the 15-bit range: the
/// 15-bit complement is its own inverse.
pub proof fn lemma_not_not_identity(
    s: VmState,
    s1: VmState,
    s2: VmState,
    reg: Register,
    v: Value,
)
    requires
        s.wf(),
        resolve(s, v) <= 32767,
        decode_spec(s.mem, s.cursor) matches Ok(p) && p.0 == Operation::Not(reg, v),
        step_spec(s) == Ok::<(VmState, StepOutcome), VmError>((s1, StepOutcome::Continue)),
        decode_spec(s1.mem, s1.cursor) matches Ok(q) && q.0 == Operation::Not(
            reg,
            Value::Register(reg),
        ),
        step_spec(s1) == Ok::<(VmState, StepOutcome), VmError>((s2, StepOutcome::Continue)),
    ensures
        s2.regs[reg.0 as int] == resolve(s, v),
{
    lemma_decode_wf(s.mem, s.cursor);
    lemma_not_involutive(resolve(s, v));
}

/// After an `add` instruction, the target register holds the sum of the two
/// resolved operands modulo 32768.
pub proof fn lemma_add_law(s: VmState, s2: VmState, reg: Register, a: Value, b: Value)
    requires
        s.wf(),
        decode_spec(s.mem, s.cursor) matches Ok(p) && p.0 == Operation::Add(reg, a, b),
        step_spec(s) matches Ok(q) && q.0 == s2,
    ensures
        s2.regs[reg.0 as int] == (resolve(s, a) + resolve(s, b)) % 32768,
{
    lemma_decode_wf(s.mem, s.cursor);
}

/// After a `mult` instruction, the target register holds the product of the
/// two resolved operands modulo 32768.
pub proof fn lemma_mult_law(s: VmState, s2: VmState, reg: Register, a: Value, b: Value)
    requires
        s.wf(),
        decode_spec(s.mem, s.cursor) matches Ok(p) && p.0 == Operation::Multiply(reg, a, b),
        step_spec(s) matches Ok(q) && q.0 == s2,
    ensures
        s2.regs[reg.0 as int] == (resolve(s, a) * resolve(s, b)) % 32768,
{
    lemma_decode_wf(s.mem, s.cursor);
}

/// After an `and` instruction, the target register holds the bitwise and of
/// the two resolved operands, stored modulo 32768 like every arithmetic
/// result.
pub proof fn lemma_and_law(s: VmState, s2: VmState, reg: Register, a: Value, b: Value)
    requires
        s.wf(),
        decode_spec(s.mem, s.cursor) matches Ok(p) && p.0 == Operation::And(reg, a, b),
        step_spec(s) matches Ok(q) && q.0 == s2,
    ensures
        s2.regs[reg.0 as int] == (resolve(s, a) & resolve(s, b)) % 32768,
{
    lemma_decode_wf(s.mem, s.cursor);
}

/// After an `or` instruction, the target register holds the bitwise or of
/// the two resolved operands, stored modulo 32768 like every arithmetic
/// result.
pub proof fn lemma_or_law(s: VmState, s2: VmState, reg: Register, a: Value, b: Value)
    requires
        s.wf(),
        decode_spec(s.mem, s.cursor) matches Ok(p) && p.0 == Operation::Or(reg, a, b),
        step_spec(s) matches Ok(q) && q.0 == s2,
    ensures
        s2.regs[reg.0 as int] == (resolve(s, a) | resolve(s, b)) % 32768,
{
    lemma_decode_wf(s.mem, s.cursor);
}

/// A `push` immediately followed by a `pop` leaves the popped register
/// holding exactly the pushed value and the stack exactly as it was.
pub proof fn lemma_push_pop(
    s: VmState,
    s1: VmState,
    s2: VmState,
    x: Value,
    reg: Register,
)
    requires
        s.wf(),
        decode_spec(s.mem, s.cursor) matches Ok(p) && p.0 == Operation::Push(x),
        step_spec(s) == Ok::<(VmState, StepOutcome), VmError>((s1, StepOutcome::Continue)),
        decode_spec(s1.mem, s1.cursor) matches Ok(q) && q.0 == Operation::Pop(reg),
        step_spec(s1) == Ok::<(VmState, StepOutcome), VmError>((s2, StepOutcome::Continue)),
    ensures
        s2.regs[reg.0 as int] == resolve(s, x),
        s2.stack == s.stack,
{
    lemma_decode_wf(s.mem, s.cursor);
    lemma_decode_wf(s1.mem, s1.cursor);
    assert(s1.stack.drop_last() =~= s.stack);
}

/// A `call` followed by a `ret` executed while the stack is exactly as the
/// call left it brings the cursor to the word immediately after the call
/// instruction and restores the stack to what it was before the call.
pub proof fn lemma_call_ret(
    s: VmState,
    s1: VmState,
    t: VmState,
    t2: VmState,
    v: Value,
)
    requires
        s.wf(),
        decode_spec(s.mem, s.cursor) matches Ok(p) && p.0 == Operation::Call(v),
        step_spec(s) == Ok::<(VmState, StepOutcome), VmError>((s1, StepOutcome::Continue)),
        t.stack == s1.stack,
        decode_spec(t.mem, t.cursor) matches Ok(q) && q.0 == Operation::Return,
        step_spec(t) == Ok::<(VmState, StepOutcome), VmError>((t2, StepOutcome::Continue)),
    ensures
        t2.cursor == s.cursor + 2,
        t2.stack == s.stack,
{
    lemma_decode_wf(s.mem, s.cursor);
    assert(t.stack.drop_last() =~= s.stack);
}

/// One step never stores an out-of-range word: starting from a state whose
/// registers and stack all hold 15-bit values, every register and stack word
/// after the step is again below 32768, and every memory word the step wrote
/// is below 32768 (words it did not touch keep their old contents). Two
/// inputs are excluded because the machine genuinely leaves the range there:
/// a `call` whose resume address is past the end of the address space, and a
/// `rmem` that loads a raw word at or above 32768 (such as a
/// register-reference operand read back out of the program image).
pub proof fn lemma_step_preserves_word_bounds(s: VmState)
    requires
        s.wf(),
        forall|i: int| 0 <= i < 8 ==> s.regs[i] < 32768,
        forall|i: int| 0 <= i < s.stack.len() ==> s.stack[i] < 32768,
        decode_spec(s.mem, s.cursor) matches Ok(p) ==> (match p.0 {
            Operation::Call(_) => p.1 < 32768,
            Operation::ReadMem(_, v) => resolve(s, v) >= 32768 || s.mem[resolve(s, v) as int]
                < 32768,
            _ => true,
        }),
    ensures
        step_spec(s) matches Ok(p) ==> ({
            let s2 = p.0;
            (forall|i: int| 0 <= i < 8 ==> s2.regs[i] < 32768) && (forall|i: int|
                0 <= i < s2.stack.len() ==> s2.stack[i] < 32768) && (forall|a: int|
                0 <= a < 32768 ==> s2.mem[a] == s.mem[a] || s2.mem[a] < 32768)
        }),
{
    lemma_decode_wf(s.mem, s.cursor);
    assert forall|v: Value| v.wf() implies resolve(s, v) < 32768 by {
        match v {
            Value::Literal(n) => {},
            Value::Register(r) => {},
        }
    }
    match decode_spec(s.mem, s.cursor) {
        Ok(p) => {
            match exec_op_spec(s, p.0, p.1) {
                Ok(q) => {
                    match p.0 {
                        Operation::Pop(reg) => {
                            assert(s.stack.len() > 0);
                            assert(s.stack.last() < 32768);
                        },
                        _ => {},
                    }
                },
                Err(_) => {},
            }
        },
        Err(_) => {},
    }
}

} // verus!
