use vstd::prelude::*;

use crate::errors::VmError;

verus! {

/// One more than the largest storable 15-bit value; the modulus of all
/// arithmetic results.
pub const MAX_INT: u16 = 32768;

/// The number of words in the address space.
pub const MAX_ADDR: usize = 32768;

/// The storage of the machine: the 32768-word address space, the eight
/// registers, and the unbounded operand stack.
pub struct Memory {
    memory: Vec<u16>,
    registers: Vec<u16>,
    stack: Vec<u16>,
}

impl Memory {
    /// The contents of the address space, word by word.
    pub closed spec fn mem(&self) -> Seq<u16> {
        self.memory@
    }

    /// The contents of the eight registers.
    pub closed spec fn regs(&self) -> Seq<u16> {
        self.registers@
    }

    /// The operand stack, bottom first.
    pub closed spec fn stack(&self) -> Seq<u16> {
        self.stack@
    }

    /// The address space always holds exactly 32768 words and the register
    /// file exactly eight.
    pub open spec fn wf(&self) -> bool {
        self.mem().len() == MAX_ADDR && self.regs().len() == 8
    }

    /// A fresh memory unit: every word and register zero, the stack empty.
    pub fn new() -> (r: Memory)
        ensures
            r.wf(),
            r.mem() == Seq::new(MAX_ADDR as nat, |i: int| 0u16),
            r.regs() == Seq::new(8, |i: int| 0u16),
            r.stack() == Seq::<u16>::empty(),
    {
        let mut memory: Vec<u16> = Vec::new();
        let mut i: usize = 0;
        while i < MAX_ADDR
            invariant
                i <= MAX_ADDR,
                memory@ == Seq::new(i as nat, |k: int| 0u16),
            decreases MAX_ADDR - i,
        {
            memory.push(0);
            i += 1;
            proof {
                assert(memory@ =~= Seq::new(i as nat, |k: int| 0u16));
            }
        }
        let mut registers: Vec<u16> = Vec::new();
        let mut j: usize = 0;
        while j < 8
            invariant
                j <= 8,
                registers@ == Seq::new(j as nat, |k: int| 0u16),
            decreases 8 - j,
        {
            registers.push(0);
            j += 1;
            proof {
                assert(registers@ =~= Seq::new(j as nat, |k: int| 0u16));
            }
        }
        Memory { memory, registers, stack: Vec::new() }
    }

    /// Load a program image: consecutive little-endian byte pairs become the
    /// words at addresses 0, 1, 2, ...; an odd trailing byte is discarded and
    /// every word past the image keeps its previous contents.
    pub fn load(&mut self, bytes: Vec<u8>)
        requires
            old(self).wf(),
            bytes@.len() / 2 <= MAX_ADDR as int,
        ensures
            final(self).wf(),
            final(self).regs() == old(self).regs(),
            final(self).stack() == old(self).stack(),
            forall|k: int|
                0 <= k < bytes@.len() / 2 ==> final(self).mem()[k] == bytes@[2 * k] + 256 * bytes@[2
                    * k + 1],
            forall|k: int|
                bytes@.len() / 2 <= k < MAX_ADDR as int
                    ==> final(self).mem()[k] == old(self).mem()[k],
    {
        let pairs = bytes.len() / 2;
        let mut index: usize = 0;
        while index < pairs
            invariant
                self.wf(),
                pairs == bytes@.len() / 2,
                pairs <= MAX_ADDR,
                index <= pairs,
                self.regs() == old(self).regs(),
                self.stack() == old(self).stack(),
                forall|k: int|
                    0 <= k < index ==> self.mem()[k] == bytes@[2 * k] + 256 * bytes@[2 * k + 1],
                forall|k: int| index <= k < MAX_ADDR as int ==> self.mem()[k] == old(self).mem()[k],
            decreases pairs - index,
        {
            let low = bytes[2 * index];
            let high = bytes[2 * index + 1];
            let word: u16 = low as u16 + 256 * (high as u16);
            self.memory.set(index, word);
            index += 1;
        }
    }

    /// Read the word at an address; an address outside the 15-bit space is an
    /// error.
    pub fn at(&self, index: usize) -> (r: Result<u16, VmError>)
        requires
            self.wf(),
        ensures
            index < MAX_ADDR ==> r == Ok::<u16, VmError>(self.mem()[index as int]),
            index >= MAX_ADDR ==> r == Err::<u16, VmError>(VmError::AddressOutOfRange),
    {
        if index < MAX_ADDR {
            Ok(self.memory[index])
        } else {
            Err(VmError::AddressOutOfRange)
        }
    }

    /// Write the word at an address; an address outside the 15-bit space is
    /// an error and leaves the memory unchanged.
    pub fn set(&mut self, index: usize, value: u16) -> (r: Result<(), VmError>)
        requires
            old(self).wf(),
        ensures
            final(self).wf(),
            final(self).regs() == old(self).regs(),
            final(self).stack() == old(self).stack(),
            index < MAX_ADDR ==> r == Ok::<(), VmError>(())
                && final(self).mem() == old(self).mem().update(index as int, value),
            index >= MAX_ADDR ==> r == Err::<(), VmError>(VmError::AddressOutOfRange)
                && final(self).mem() == old(self).mem(),
    {
        if index < MAX_ADDR {
            self.memory.set(index, value);
            Ok(())
        } else {
            Err(VmError::AddressOutOfRange)
        }
    }

    /// Copy the words from address `from` through address `to`, inclusive.
    pub fn slice(&self, from: usize, to: usize) -> (r: Vec<u16>)
        requires
            self.wf(),
            from <= to,
            to < MAX_ADDR,
        ensures
            r@ == self.mem().subrange(from as int, to as int + 1),
    {
        let mut words: Vec<u16> = Vec::new();
        let mut i: usize = from;
        while i <= to
            invariant
                self.wf(),
                from <= i <= to + 1,
                to < MAX_ADDR,
                words@ == self.mem().subrange(from as int, i as int),
            decreases to + 1 - i,
        {
            words.push(self.memory[i]);
            i += 1;
            proof {
                assert(words@ =~= self.mem().subrange(from as int, i as int));
            }
        }
        words
    }

    /// Read one of the eight registers.
    pub fn read_register(&self, index: usize) -> (r: u16)
        requires
            self.wf(),
            index < 8,
        ensures
            r == self.regs()[index as int],
    {
        self.registers[index]
    }

    /// Overwrite one of the eight registers.
    pub fn set_register(&mut self, index: usize, value: u16)
        requires
            old(self).wf(),
            index < 8,
        ensures
            final(self).wf(),
            final(self).mem() == old(self).mem(),
            final(self).stack() == old(self).stack(),
            final(self).regs() == old(self).regs().update(index as int, value),
    {
        self.registers.set(index, value);
    }

    /// Push a word onto the operand stack.
    pub fn push(&mut self, value: u16)
        requires
            old(self).wf(),
        ensures
            final(self).wf(),
            final(self).mem() == old(self).mem(),
            final(self).regs() == old(self).regs(),
            final(self).stack() == old(self).stack().push(value),
    {
        self.stack.push(value)
    }

    /// How many words the operand stack holds.
    pub fn stack_depth(&self) -> (r: usize)
        ensures
            r == self.stack().len(),
    {
        self.stack.len()
    }

    /// Pop the most recently pushed word, or nothing when the stack is empty.
    pub fn pop(&mut self) -> (r: Option<u16>)
        requires
            old(self).wf(),
        ensures
            final(self).wf(),
            final(self).mem() == old(self).mem(),
            final(self).regs() == old(self).regs(),
            old(self).stack().len() == 0 ==> r is None && final(self).stack() == old(self).stack(),
            old(self).stack().len() > 0 ==> r == Some(old(self).stack().last())
                && final(self).stack() == old(self).stack().drop_last(),
    {
        self.stack.pop()
    }
}

} // verus!
