use vstd::prelude::*;

use crate::errors::VmError;
use crate::memory::Memory;
use crate::model::{
    add_mod, boot_state, decode_spec, exec_op_spec, lemma_decode_wf, lemma_run_n_step, mul_mod,
    register_at, rem_mod, resolve, run_n, step_result, step_spec, value_at, StepOutcome, VmState,
};
use crate::operations::Operation;
use crate::values::{Register, Value};

verus! {

/// The bytes typed ahead of the program: a line of input together with a
/// read cursor. The view of the buffer is the bytes not yet delivered.
struct InputBuffer {
    buffer: Vec<u8>,
    cursor: usize,
}

impl View for InputBuffer {
    type V = Seq<u8>;

    closed spec fn view(&self) -> Seq<u8> {
        self.buffer@.skip(self.cursor as int)
    }
}

impl InputBuffer {
    /// The read cursor never passes the end of the buffer.
    pub closed spec fn wf(&self) -> bool {
        self.cursor <= self.buffer@.len()
    }

    /// Deliver the next byte, or nothing when every buffered byte has been
    /// read.
    fn next(&mut self) -> (r: Option<u8>)
        requires
            old(self).wf(),
        ensures
            final(self).wf(),
            old(self)@.len() == 0 ==> r is None && final(self)@ == old(self)@,
            old(self)@.len() > 0 ==> r == Some(old(self)@[0]) && final(self)@ == old(self)@.skip(1),
    {
        if self.cursor < self.buffer.len() {
            let c = self.buffer[self.cursor];
            self.cursor = self.cursor + 1;
            proof {
                assert(self@ =~= old(self)@.skip(1));
            }
            Some(c)
        } else {
            None
        }
    }

    /// Append a line of input behind whatever is still unread.
    fn feed(&mut self, bytes: Vec<u8>)
        requires
            old(self).wf(),
        ensures
            final(self).wf(),
            final(self)@ == old(self)@ + bytes@,
    {
        let mut tail = bytes;
        self.buffer.append(&mut tail);
        proof {
            assert(self@ =~= old(self)@ + bytes@);
        }
    }
}

/// A loaded program together with everything it executes against: the memory
/// unit, the instruction cursor, the buffered input, and the output emitted
/// so far. Its view is the mathematical machine state, and every public
/// operation is proved to follow the specification step function exactly.
pub struct Program {
    cursor: usize,
    memory: Memory,
    input_buffer: InputBuffer,
    output: Vec<u8>,
}

impl View for Program {
    type V = VmState;

    closed spec fn view(&self) -> VmState {
        VmState {
            mem: self.memory.mem(),
            regs: self.memory.regs(),
            stack: self.memory.stack(),
            cursor: self.cursor as nat,
            input: self.input_buffer@,
            output: self.output@,
        }
    }
}

impl Program {
    /// The memory unit has its fixed shape and the input cursor is in
    /// bounds. Every public operation preserves this.
    pub closed spec fn wf(&self) -> bool {
        self.memory.wf() && self.input_buffer.wf()
    }

    /// Boot a machine from a program image of little-endian byte pairs. The
    /// image must fit in the 32768-word address space.
    pub fn new(bytes: Vec<u8>) -> (r: Program)
        requires
            bytes@.len() / 2 <= 32768,
        ensures
            r.wf(),
            r@ == boot_state(bytes@),
    {
        let mut memory = Memory::new();
        let input_buffer = InputBuffer { buffer: Vec::new(), cursor: 0 };
        memory.load(bytes);
        let program = Program { cursor: 0, memory, input_buffer, output: Vec::new() };
        proof {
            assert(program@.mem =~= boot_state(bytes@).mem);
            assert(program@ =~= boot_state(bytes@));
        }
        program
    }

    /// The number an operand stands for right now: a literal is itself, a
    /// register reference is read from the register file.
    fn val(&self, v: Value) -> (r: u16)
        requires
            self.wf(),
            v.wf(),
        ensures
            r == resolve(self@, v),
    {
        match v {
            Value::Register(reg) => self.memory.read_register(reg.index()),
            Value::Literal(num) => num,
        }
    }

    /// Read and decode the operand word at an address.
    fn next_value(&self, addr: usize) -> (r: Result<Value, VmError>)
        requires
            self.wf(),
        ensures
            r == value_at(self@.mem, addr as nat),
    {
        match self.memory.at(addr) {
            Ok(w) => Value::decode(w),
            Err(e) => Err(e),
        }
    }

    /// Read and decode the operand word at an address, which must be a
    /// register reference.
    fn next_register(&self, addr: usize) -> (r: Result<Register, VmError>)
        requires
            self.wf(),
        ensures
            r == register_at(self@.mem, addr as nat),
    {
        match self.next_value(addr) {
            Ok(Value::Register(reg)) => Ok(reg),
            Ok(Value::Literal(_)) => Err(VmError::ExpectedRegister),
            Err(e) => Err(e),
        }
    }

    /// Decode the instruction at the cursor: the typed instruction and the
    /// address one past its last operand.
    fn next_operation(&self) -> (r: Result<(Operation, usize), VmError>)
        requires
            self.wf(),
        ensures
            decode_spec(self@.mem, self@.cursor) matches Ok(p) ==> (r matches Ok(q) && q.0 == p.0
                && q.1 == p.1),
            decode_spec(self@.mem, self@.cursor) matches Err(e) ==> r == Err::<
                (Operation, usize),
                VmError,
            >(e),
    {
        let c = self.cursor;
        let opcode = match self.memory.at(c) {
            Ok(w) => w,
            Err(e) => {
                return Err(e);
            },
        };
        match opcode {
            0 => Ok((Operation::Halt, c + 1)),
            1 => {
                let reg = self.next_register(c + 1)?;
                let v = self.next_value(c + 2)?;
                Ok((Operation::SetRegister(reg, v), c + 3))
            },
            2 => {
                let v = self.next_value(c + 1)?;
                Ok((Operation::Push(v), c + 2))
            },
            3 => {
                let reg = self.next_register(c + 1)?;
                Ok((Operation::Pop(reg), c + 2))
            },
            4 => {
                let reg = self.next_register(c + 1)?;
                let a = self.next_value(c + 2)?;
                let b = self.next_value(c + 3)?;
                Ok((Operation::Equal(reg, a, b), c + 4))
            },
            5 => {
                let reg = self.next_register(c + 1)?;
                let a = self.next_value(c + 2)?;
                let b = self.next_value(c + 3)?;
                Ok((Operation::GreaterThan(reg, a, b), c + 4))
            },
            6 => {
                let v = self.next_value(c + 1)?;
                Ok((Operation::Jump(v), c + 2))
            },
            7 => {
                let a = self.next_value(c + 1)?;
                let b = self.next_value(c + 2)?;
                Ok((Operation::JumpTrue(a, b), c + 3))
            },
            8 => {
                let a = self.next_value(c + 1)?;
                let b = self.next_value(c + 2)?;
                Ok((Operation::JumpFalse(a, b), c + 3))
            },
            9 => {
                let reg = self.next_register(c + 1)?;
                let a = self.next_value(c + 2)?;
                let b = self.next_value(c + 3)?;
                Ok((Operation::Add(reg, a, b), c + 4))
            },
            10 => {
                let reg = self.next_register(c + 1)?;
                let a = self.next_value(c + 2)?;
                let b = self.next_value(c + 3)?;
                Ok((Operation::Multiply(reg, a, b), c + 4))
            },
            11 => {
                let reg = self.next_register(c + 1)?;
                let a = self.next_value(c + 2)?;
                let b = self.next_value(c + 3)?;
                Ok((Operation::Modulo(reg, a, b), c + 4))
            },
            12 => {
                let reg = self.next_register(c + 1)?;
                let a = self.next_value(c + 2)?;
                let b = self.next_value(c + 3)?;
                Ok((Operation::And(reg, a, b), c + 4))
            },
            13 => {
                let reg = self.next_register(c + 1)?;
                let a = self.next_value(c + 2)?;
                let b = self.next_value(c + 3)?;
                Ok((Operation::Or(reg, a, b), c + 4))
            },
            14 => {
                let reg = self.next_register(c + 1)?;
                let v = self.next_value(c + 2)?;
                Ok((Operation::Not(reg, v), c + 3))
            },
            15 => {
                let reg = self.next_register(c + 1)?;
                let v = self.next_value(c + 2)?;
                Ok((Operation::ReadMem(reg, v), c + 3))
            },
            16 => {
                let a = self.next_value(c + 1)?;
                let b = self.next_value(c + 2)?;
                Ok((Operation::WriteMem(a, b), c + 3))
            },
            17 => {
                let v = self.next_value(c + 1)?;
                Ok((Operation::Call(v), c + 2))
            },
            18 => Ok((Operation::Return, c + 1)),
            19 => {
                let v = self.next_value(c + 1)?;
                Ok((Operation::Out(v), c + 2))
            },
            20 => {
                let reg = self.next_register(c + 1)?;
                Ok((Operation::Input(reg), c + 2))
            },
            21 => Ok((Operation::Noop, c + 1)),
            _ => Err(VmError::UnknownOpcode),
        }
    }

    /// Stop: the machine reports a normal halt and nothing changes.
    fn run_halt(&mut self) -> (r: Result<StepOutcome, VmError>)
        requires
            old(self).wf(),
        ensures
            final(self).wf(),
            step_result(
                old(self)@,
                final(self)@,
                r,
                exec_op_spec(old(self)@, Operation::Halt, 0),
            ),
    {
        Ok(StepOutcome::Halted)
    }

    /// Advance past the opcode without any other effect.
    fn run_noop(&mut self, next: usize) -> (r: Result<StepOutcome, VmError>)
        requires
            old(self).wf(),
        ensures
            final(self).wf(),
            step_result(
                old(self)@,
                final(self)@,
                r,
                exec_op_spec(old(self)@, Operation::Noop, next as nat),
            ),
    {
        self.cursor = next;
        Ok(StepOutcome::Continue)
    }

    /// Copy the resolved operand into the register.
    fn run_set(&mut self, reg: Register, v: Value, next: usize) -> (r: Result<
        StepOutcome,
        VmError,
    >)
        requires
            old(self).wf(),
            reg.wf(),
            v.wf(),
        ensures
            final(self).wf(),
            step_result(
                old(self)@,
                final(self)@,
                r,
                exec_op_spec(old(self)@, Operation::SetRegister(reg, v), next as nat),
            ),
    {
        let value = self.val(v);
        self.memory.set_register(reg.index(), value);
        self.cursor = next;
        Ok(StepOutcome::Continue)
    }

    /// Push the resolved operand onto the stack.
    fn run_push(&mut self, v: Value, next: usize) -> (r: Result<StepOutcome, VmError>)
        requires
            old(self).wf(),
            v.wf(),
        ensures
            final(self).wf(),
            step_result(
                old(self)@,
                final(self)@,
                r,
                exec_op_spec(old(self)@, Operation::Push(v), next as nat),
            ),
    {
        let value = self.val(v);
        self.memory.push(value);
        self.cursor = next;
        Ok(StepOutcome::Continue)
    }

    /// Pop the top of the stack into the register; an empty stack is an
    /// error.
    fn run_pop(&mut self, reg: Register, next: usize) -> (r: Result<StepOutcome, VmError>)
        requires
            old(self).wf(),
            reg.wf(),
        ensures
            final(self).wf(),
            step_result(
                old(self)@,
                final(self)@,
                r,
                exec_op_spec(old(self)@, Operation::Pop(reg), next as nat),
            ),
    {
        match self.memory.pop() {
            Some(value) => {
                self.memory.set_register(reg.index(), value);
                self.cursor = next;
                Ok(StepOutcome::Continue)
            },
            None => Err(VmError::StackUnderflow),
        }
    }

    /// Store 1 in the register when the operands resolve equal, else 0.
    fn run_equal(&mut self, reg: Register, a: Value, b: Value, next: usize) -> (r: Result<
        StepOutcome,
        VmError,
    >)
        requires
            old(self).wf(),
            reg.wf(),
            a.wf(),
            b.wf(),
        ensures
            final(self).wf(),
            step_result(
                old(self)@,
                final(self)@,
                r,
                exec_op_spec(old(self)@, Operation::Equal(reg, a, b), next as nat),
            ),
    {
        let x = self.val(a);
        let y = self.val(b);
        let value: u16 = if x == y {
            1
        } else {
            0
        };
        self.memory.set_register(reg.index(), value);
        self.cursor = next;
        Ok(StepOutcome::Continue)
    }

    /// Store 1 in the register when the first operand resolves greater than
    /// the second, else 0.
    fn run_greater_than(&mut self, reg: Register, a: Value, b: Value, next: usize) -> (r: Result<
        StepOutcome,
        VmError,
    >)
        requires
            old(self).wf(),
            reg.wf(),
            a.wf(),
            b.wf(),
        ensures
            final(self).wf(),
            step_result(
                old(self)@,
                final(self)@,
                r,
                exec_op_spec(old(self)@, Operation::GreaterThan(reg, a, b), next as nat),
            ),
    {
        let x = self.val(a);
        let y = self.val(b);
        let value: u16 = if x > y {
            1
        } else {
            0
        };
        self.memory.set_register(reg.index(), value);
        self.cursor = next;
        Ok(StepOutcome::Continue)
    }

    /// Move the cursor to the resolved target; a target outside the address
    /// space is an error.
    fn run_jump(&mut self, v: Value, next: usize) -> (r: Result<StepOutcome, VmError>)
        requires
            old(self).wf(),
            v.wf(),
        ensures
            final(self).wf(),
            step_result(
                old(self)@,
                final(self)@,
                r,
                exec_op_spec(old(self)@, Operation::Jump(v), next as nat),
            ),
    {
        let target = self.val(v);
        if target < 32768 {
            self.cursor = target as usize;
            Ok(StepOutcome::Continue)
        } else {
            Err(VmError::BadJumpTarget)
        }
    }

    /// Jump to the second operand when the first resolves nonzero, else fall
    /// through.
    fn run_jump_true(&mut self, a: Value, b: Value, next: usize) -> (r: Result<
        StepOutcome,
        VmError,
    >)
        requires
            old(self).wf(),
            a.wf(),
            b.wf(),
        ensures
            final(self).wf(),
            step_result(
                old(self)@,
                final(self)@,
                r,
                exec_op_spec(old(self)@, Operation::JumpTrue(a, b), next as nat),
            ),
    {
        let cond = self.val(a);
        let target = self.val(b);
        if cond == 0 {
            self.cursor = next;
        } else {
            self.cursor = target as usize;
        }
        Ok(StepOutcome::Continue)
    }

    /// Jump to the second operand when the first resolves to zero, else fall
    /// through.
    fn run_jump_false(&mut self, a: Value, b: Value, next: usize) -> (r: Result<
        StepOutcome,
        VmError,
    >)
        requires
            old(self).wf(),
            a.wf(),
            b.wf(),
        ensures
            final(self).wf(),
            step_result(
                old(self)@,
                final(self)@,
                r,
                exec_op_spec(old(self)@, Operation::JumpFalse(a, b), next as nat),
            ),
    {
        let cond = self.val(a);
        let target = self.val(b);
        if cond != 0 {
            self.cursor = next;
        } else {
            self.cursor = target as usize;
        }
        Ok(StepOutcome::Continue)
    }

    /// Store the sum of the resolved operands, modulo 32768.
    fn run_add(&mut self, reg: Register, a: Value, b: Value, next: usize) -> (r: Result<
        StepOutcome,
        VmError,
    >)
        requires
            old(self).wf(),
            reg.wf(),
            a.wf(),
            b.wf(),
        ensures
            final(self).wf(),
            step_result(
                old(self)@,
                final(self)@,
                r,
                exec_op_spec(old(self)@, Operation::Add(reg, a, b), next as nat),
            ),
    {
        let x = self.val(a);
        let y = self.val(b);
        let value: u16 = ((x as u32 + y as u32) % 32768) as u16;
        proof {
            assert(value == add_mod(x, y));
        }
        self.memory.set_register(reg.index(), value);
        self.cursor = next;
        Ok(StepOutcome::Continue)
    }

    /// Store the product of the resolved operands, modulo 32768. The product
    /// is taken with 32-bit intermediate arithmetic, so it cannot overflow
    /// before the modulus.
    fn run_multiply(&mut self, reg: Register, a: Value, b: Value, next: usize) -> (r: Result<
        StepOutcome,
        VmError,
    >)
        requires
            old(self).wf(),
            reg.wf(),
            a.wf(),
            b.wf(),
        ensures
            final(self).wf(),
            step_result(
                old(self)@,
                final(self)@,
                r,
                exec_op_spec(old(self)@, Operation::Multiply(reg, a, b), next as nat),
            ),
    {
        let x = self.val(a);
        let y = self.val(b);
        proof {
            assert(x as u32 as int * y as u32 as int <= 65535 * 65535) by (nonlinear_arith)
                requires
                    x as u32 <= 65535,
                    y as u32 <= 65535,
            ;
        }
        let value: u16 = ((x as u32 * y as u32) % 32768) as u16;
        proof {
            assert(value == mul_mod(x, y));
        }
        self.memory.set_register(reg.index(), value);
        self.cursor = next;
        Ok(StepOutcome::Continue)
    }

    /// Store the remainder of the resolved operands; a zero divisor is an
    /// error.
    fn run_modulo(&mut self, reg: Register, a: Value, b: Value, next: usize) -> (r: Result<
        StepOutcome,
        VmError,
    >)
        requires
            old(self).wf(),
            reg.wf(),
            a.wf(),
            b.wf(),
        ensures
            final(self).wf(),
            step_result(
                old(self)@,
                final(self)@,
                r,
                exec_op_spec(old(self)@, Operation::Modulo(reg, a, b), next as nat),
            ),
    {
        let x = self.val(a);
        let y = self.val(b);
        if y == 0 {
            return Err(VmError::DivisionByZero);
        }
        let value: u16 = (x % y) % 32768;
        proof {
            assert(value == rem_mod(x, y));
        }
        self.memory.set_register(reg.index(), value);
        self.cursor = next;
        Ok(StepOutcome::Continue)
    }

    /// Store the bitwise and of the resolved operands.
    fn run_and(&mut self, reg: Register, a: Value, b: Value, next: usize) -> (r: Result<
        StepOutcome,
        VmError,
    >)
        requires
            old(self).wf(),
            reg.wf(),
            a.wf(),
            b.wf(),
        ensures
            final(self).wf(),
            step_result(
                old(self)@,
                final(self)@,
                r,
                exec_op_spec(old(self)@, Operation::And(reg, a, b), next as nat),
            ),
    {
        let x = self.val(a);
        let y = self.val(b);
        let value: u16 = (x & y) % 32768;
        self.memory.set_register(reg.index(), value);
        self.cursor = next;
        Ok(StepOutcome::Continue)
    }

    /// Store the bitwise or of the resolved operands.
    fn run_or(&mut self, reg: Register, a: Value, b: Value, next: usize) -> (r: Result<
        StepOutcome,
        VmError,
    >)
        requires
            old(self).wf(),
            reg.wf(),
            a.wf(),
            b.wf(),
        ensures
            final(self).wf(),
            step_result(
                old(self)@,
                final(self)@,
                r,
                exec_op_spec(old(self)@, Operation::Or(reg, a, b), next as nat),
            ),
    {
        let x = self.val(a);
        let y = self.val(b);
        let value: u16 = (x | y) % 32768;
        self.memory.set_register(reg.index(), value);
        self.cursor = next;
        Ok(StepOutcome::Continue)
    }

    /// Store the 15-bit complement of the resolved operand: every low bit
    /// flipped, the high bit zero.
    fn run_not(&mut self, reg: Register, v: Value, next: usize) -> (r: Result<
        StepOutcome,
        VmError,
    >)
        requires
            old(self).wf(),
            reg.wf(),
            v.wf(),
        ensures
            final(self).wf(),
            step_result(
                old(self)@,
                final(self)@,
                r,
                exec_op_spec(old(self)@, Operation::Not(reg, v), next as nat),
            ),
    {
        let x = self.val(v);
        let value: u16 = !x % 32768;
        self.memory.set_register(reg.index(), value);
        self.cursor = next;
        Ok(StepOutcome::Continue)
    }

    /// Load the word at the resolved address into the register; an address
    /// outside the address space is an error.
    fn run_read_mem(&mut self, reg: Register, v: Value, next: usize) -> (r: Result<
        StepOutcome,
        VmError,
    >)
        requires
            old(self).wf(),
            reg.wf(),
            v.wf(),
        ensures
            final(self).wf(),
            step_result(
                old(self)@,
                final(self)@,
                r,
                exec_op_spec(old(self)@, Operation::ReadMem(reg, v), next as nat),
            ),
    {
        let addr = self.val(v);
        match self.memory.at(addr as usize) {
            Ok(word) => {
                self.memory.set_register(reg.index(), word);
                self.cursor = next;
                Ok(StepOutcome::Continue)
            },
            Err(e) => Err(e),
        }
    }

    /// Store the second resolved operand at the address the first resolves
    /// to; an address outside the address space is an error.
    fn run_write_mem(&mut self, a: Value, b: Value, next: usize) -> (r: Result<
        StepOutcome,
        VmError,
    >)
        requires
            old(self).wf(),
            a.wf(),
            b.wf(),
        ensures
            final(self).wf(),
            step_result(
                old(self)@,
                final(self)@,
                r,
                exec_op_spec(old(self)@, Operation::WriteMem(a, b), next as nat),
            ),
    {
        let addr = self.val(a);
        let value = self.val(b);
        match self.memory.set(addr as usize, value) {
            Ok(_) => {
                self.cursor = next;
                Ok(StepOutcome::Continue)
            },
            Err(e) => Err(e),
        }
    }

    /// Push the address of the word after the call instruction, then jump to
    /// the resolved target; a target outside the address space is an error.
    fn run_call(&mut self, v: Value, next: usize) -> (r: Result<StepOutcome, VmError>)
        requires
            old(self).wf(),
            v.wf(),
            next < 65536,
        ensures
            final(self).wf(),
            step_result(
                old(self)@,
                final(self)@,
                r,
                exec_op_spec(old(self)@, Operation::Call(v), next as nat),
            ),
    {
        let target = self.val(v);
        if target < 32768 {
            self.memory.push(next as u16);
            self.cursor = target as usize;
            Ok(StepOutcome::Continue)
        } else {
            Err(VmError::BadJumpTarget)
        }
    }

    /// Pop a return address and jump to it; with an empty stack the machine
    /// halts normally.
    fn run_return(&mut self) -> (r: Result<StepOutcome, VmError>)
        requires
            old(self).wf(),
        ensures
            final(self).wf(),
            step_result(
                old(self)@,
                final(self)@,
                r,
                exec_op_spec(old(self)@, Operation::Return, 0),
            ),
    {
        match self.memory.pop() {
            Some(addr) => {
                self.cursor = addr as usize;
                Ok(StepOutcome::Continue)
            },
            None => Ok(StepOutcome::Halted),
        }
    }

    /// Emit the resolved operand as one output byte; a value above 127 is
    /// not an ASCII character and is an error.
    fn run_out(&mut self, v: Value, next: usize) -> (r: Result<StepOutcome, VmError>)
        requires
            old(self).wf(),
            v.wf(),
        ensures
            final(self).wf(),
            step_result(
                old(self)@,
                final(self)@,
                r,
                exec_op_spec(old(self)@, Operation::Out(v), next as nat),
            ),
    {
        let ch = self.val(v);
        if ch > 127 {
            Err(VmError::InvalidCharacter)
        } else {
            self.output.push(ch as u8);
            self.cursor = next;
            Ok(StepOutcome::Continue)
        }
    }

    /// Deliver one buffered input byte into the register, or report that the
    /// host must supply more input first; in that case nothing changes and
    /// the instruction runs afresh once input arrives.
    fn run_input(&mut self, reg: Register, next: usize) -> (r: Result<StepOutcome, VmError>)
        requires
            old(self).wf(),
            reg.wf(),
        ensures
            final(self).wf(),
            step_result(
                old(self)@,
                final(self)@,
                r,
                exec_op_spec(old(self)@, Operation::Input(reg), next as nat),
            ),
    {
        match self.input_buffer.next() {
            Some(byte) => {
                self.memory.set_register(reg.index(), byte as u16);
                self.cursor = next;
                Ok(StepOutcome::Continue)
            },
            None => Ok(StepOutcome::NeedInput),
        }
    }

    /// One fetch-decode-execute step. On success the machine has moved to
    /// exactly the state the specification step function predicts; on an
    /// error nothing has changed and the cursor still names the failing
    /// instruction.
    pub fn step(&mut self) -> (r: Result<StepOutcome, VmError>)
        requires
            old(self).wf(),
        ensures
            final(self).wf(),
            step_result(old(self)@, final(self)@, r, step_spec(old(self)@)),
    {
        let (operation, next) = match self.next_operation() {
            Ok(p) => p,
            Err(e) => {
                return Err(e);
            },
        };
        proof {
            lemma_decode_wf(self@.mem, self@.cursor);
        }
        match operation {
            Operation::Halt => self.run_halt(),
            Operation::SetRegister(reg, v) => self.run_set(reg, v, next),
            Operation::Push(v) => self.run_push(v, next),
            Operation::Pop(reg) => self.run_pop(reg, next),
            Operation::Equal(reg, a, b) => self.run_equal(reg, a, b, next),
            Operation::GreaterThan(reg, a, b) => self.run_greater_than(reg, a, b, next),
            Operation::Jump(v) => self.run_jump(v, next),
            Operation::JumpTrue(a, b) => self.run_jump_true(a, b, next),
            Operation::JumpFalse(a, b) => self.run_jump_false(a, b, next),
            Operation::Add(reg, a, b) => self.run_add(reg, a, b, next),
            Operation::Multiply(reg, a, b) => self.run_multiply(reg, a, b, next),
            Operation::Modulo(reg, a, b) => self.run_modulo(reg, a, b, next),
            Operation::And(reg, a, b) => self.run_and(reg, a, b, next),
            Operation::Or(reg, a, b) => self.run_or(reg, a, b, next),
            Operation::Not(reg, v) => self.run_not(reg, v, next),
            Operation::ReadMem(reg, v) => self.run_read_mem(reg, v, next),
            Operation::WriteMem(a, b) => self.run_write_mem(a, b, next),
            Operation::Call(v) => self.run_call(v, next),
            Operation::Return => self.run_return(),
            Operation::Out(v) => self.run_out(v, next),
            Operation::Input(reg) => self.run_input(reg, next),
            Operation::Noop => self.run_noop(next),
        }
    }

    /// Run the fetch-decode-execute loop for at most `max_steps` steps,
    /// stopping early when the machine halts, needs input, or fails. The
    /// outcome `Continue` means the budget ran out with the program still
    /// going, after exactly `max_steps` specification steps; a halt or a
    /// request for input is reached by some number of steps; on an error the
    /// machine stands exactly at the failing instruction, whose
    /// specification step is that error.
    pub fn execute(&mut self, max_steps: u64) -> (r: Result<StepOutcome, VmError>)
        requires
            old(self).wf(),
        ensures
            final(self).wf(),
            r matches Ok(o) ==> exists|n: nat|
                run_n(old(self)@, n) == Ok::<(VmState, StepOutcome), VmError>((final(self)@, o)),
            r == Ok::<StepOutcome, VmError>(StepOutcome::Continue) ==> run_n(
                old(self)@,
                max_steps as nat,
            ) == Ok::<(VmState, StepOutcome), VmError>((final(self)@, StepOutcome::Continue)),
            r matches Err(e) ==> step_spec(final(self)@) == Err::<(VmState, StepOutcome), VmError>(
                e,
            ) && exists|n: nat|
                run_n(old(self)@, n) == Ok::<(VmState, StepOutcome), VmError>(
                    (final(self)@, StepOutcome::Continue),
                ),
    {
        let ghost start = self@;
        let mut steps: u64 = 0;
        while steps < max_steps
            invariant
                self.wf(),
                steps <= max_steps,
                run_n(start, steps as nat) == Ok::<(VmState, StepOutcome), VmError>(
                    (self@, StepOutcome::Continue),
                ),
                start == old(self)@,
            decreases max_steps - steps,
        {
            let ghost pre = self@;
            match self.step() {
                Ok(outcome) => {
                    proof {
                        lemma_run_n_step(start, pre, steps as nat);
                    }
                    steps = steps + 1;
                    match outcome {
                        StepOutcome::Continue => {},
                        _ => {
                            proof {
                                assert(run_n(start, steps as nat) == Ok::<
                                    (VmState, StepOutcome),
                                    VmError,
                                >((self@, outcome)));
                            }
                            return Ok(outcome);
                        },
                    }
                },
                Err(e) => {
                    return Err(e);
                },
            }
        }
        Ok(StepOutcome::Continue)
    }

    /// Hand the machine a line of input; the bytes queue up behind whatever
    /// is still unread.
    pub fn provide_input(&mut self, bytes: Vec<u8>)
        requires
            old(self).wf(),
        ensures
            final(self).wf(),
            final(self)@ == (VmState { input: old(self)@.input + bytes@, ..old(self)@ }),
    {
        self.input_buffer.feed(bytes);
    }

    /// Take every output byte emitted so far, leaving the output empty.
    pub fn take_output(&mut self) -> (r: Vec<u8>)
        requires
            old(self).wf(),
        ensures
            final(self).wf(),
            r@ == old(self)@.output,
            final(self)@ == (VmState { output: Seq::<u8>::empty(), ..old(self)@ }),
    {
        let mut taken: Vec<u8> = Vec::new();
        core::mem::swap(&mut taken, &mut self.output);
        taken
    }

    /// Where the cursor stands: the address of the next opcode, or of the
    /// instruction that failed.
    pub fn cursor(&self) -> (r: usize)
        ensures
            r == self@.cursor,
    {
        self.cursor
    }

    /// The current contents of one of the eight registers.
    pub fn register(&self, index: usize) -> (r: u16)
        requires
            self.wf(),
            index < 8,
        ensures
            r == self@.regs[index as int],
    {
        self.memory.read_register(index)
    }

    /// How many words the operand stack holds.
    pub fn stack_depth(&self) -> (r: usize)
        requires
            self.wf(),
        ensures
            r == self@.stack.len(),
    {
        self.memory.stack_depth()
    }
}

} // verus!
