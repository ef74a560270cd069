//! The processor: two signed 32-bit registers, a fixed array of memory
//! words, byte-to-word address translation, and the two primitive
//! instructions `mov` and `sub`.

use vstd::prelude::*;

verus! {

/// Number of 32-bit words in the processor's memory: 2048 bytes of storage
/// at a hard-coded word size of 4 bytes.
pub const MEMORY_SIZE: usize = 512;

/// Selects one of the processor's two registers. An enumerated selector,
/// not a value: exactly two members exist.
#[derive(Clone, Copy, Debug)]
pub enum Register {
    Reg1,
    Reg2,
}

/// A byte offset into the processor's memory space. Addresses are plain
/// copyable values; they translate to a word index by division by the
/// 4-byte word size.
#[derive(Clone, Copy, Debug)]
pub struct Address(pub u16);

impl Address {
    /// The word index this byte offset translates to (truncating division
    /// by the word size).
    pub open spec fn word_index(self) -> int {
        self.0 as int / 4
    }

    /// Whether the translated word index falls inside the memory array.
    pub open spec fn in_bounds(self) -> bool {
        self.word_index() < MEMORY_SIZE
    }

    /// Executable address translation.
    pub fn translate(self) -> (i: usize)
        ensures
            i == self.word_index(),
    {
        (self.0 / 4) as usize
    }
}

/// The wrapped (modulo 2^32) difference of two signed 32-bit values, as the
/// composite routines and the `sub` instruction compute it.
pub open spec fn wrap_sub(a: i32, b: i32) -> i32 {
    vstd::wrapping::i32_specs::wrapping_sub(a, b)
}

/// The processor: the sole mutable entity. Registers start at the sentinel
/// -1 ("never written"); memory starts zeroed.
#[derive(Debug)]
pub struct GearBoxCpu {
    reg1: i32,
    reg2: i32,
    memory: Vec<i32>,
}

impl GearBoxCpu {
    /// The memory contents, as a sequence of words.
    pub closed spec fn memory_view(self) -> Seq<i32> {
        self.memory@
    }

    /// Well-formedness: the memory array has exactly `MEMORY_SIZE` words.
    pub open spec fn wf(self) -> bool {
        self.memory_view().len() == MEMORY_SIZE
    }

    /// The current value of the selected register.
    pub closed spec fn reg_val(self, register: Register) -> i32 {
        match register {
            Register::Reg1 => self.reg1,
            Register::Reg2 => self.reg2,
        }
    }

    /// A fresh processor: both registers at the sentinel -1, all memory
    /// words zero.
    pub fn new() -> (cpu: Self)
        ensures
            cpu.wf(),
            cpu.reg_val(Register::Reg1) == -1i32,
            cpu.reg_val(Register::Reg2) == -1i32,
            forall|i: int| 0 <= i < MEMORY_SIZE ==> cpu.memory_view()[i] == 0i32,
    {
        let mut memory: Vec<i32> = Vec::new();
        while memory.len() < MEMORY_SIZE
            invariant
                memory@.len() <= MEMORY_SIZE,
                forall|i: int| 0 <= i < memory@.len() ==> memory@[i] == 0i32,
            decreases MEMORY_SIZE - memory@.len(),
        {
            memory.push(0);
        }
        GearBoxCpu { reg1: -1, reg2: -1, memory }
    }

    /// Reads the memory word the address translates to, or signals the
    /// out-of-bounds fault with `None`: a faulting access never yields a
    /// value from unrelated memory.
    pub fn mem(&self, address: Address) -> (r: Option<i32>)
        requires
            self.wf(),
        ensures
            address.in_bounds() ==> r == Some(self.memory_view()[address.word_index()]),
            !address.in_bounds() ==> r is None,
    {
        let i = address.translate();
        if i < MEMORY_SIZE {
            Some(self.memory[i])
        } else {
            None
        }
    }

    /// Writes a memory word directly (the external interface for setting up
    /// a starting state). Returns false, leaving the processor untouched,
    /// on an out-of-bounds address.
    pub fn set_mem(&mut self, address: Address, value: i32) -> (ok: bool)
        requires
            old(self).wf(),
        ensures
            final(self).wf(),
            final(self).reg_val(Register::Reg1) == old(self).reg_val(Register::Reg1),
            final(self).reg_val(Register::Reg2) == old(self).reg_val(Register::Reg2),
            address.in_bounds() ==> ok && final(self).memory_view() == old(self).memory_view().update(
                address.word_index(),
                value,
            ),
            !address.in_bounds() ==> !ok && final(self).memory_view() == old(self).memory_view(),
    {
        let i = address.translate();
        if i < MEMORY_SIZE {
            self.memory.set(i, value);
            true
        } else {
            false
        }
    }

    /// The current value of the selected register.
    fn read_reg(&self, register: Register) -> (v: i32)
        ensures
            v == self.reg_val(register),
    {
        match register {
            Register::Reg1 => self.reg1,
            Register::Reg2 => self.reg2,
        }
    }

    /// Overwrites the selected register, leaving the other register and all
    /// of memory untouched.
    fn write_reg(&mut self, value: i32, register: Register)
        ensures
            final(self).reg_val(register) == value,
            forall|r: Register| r != register ==> final(self).reg_val(r) == old(self).reg_val(r),
            final(self).memory_view() == old(self).memory_view(),
            final(self).wf() == old(self).wf(),
    {
        match register {
            Register::Reg1 => {
                self.reg1 = value;
            },
            Register::Reg2 => {
                self.reg2 = value;
            },
        }
    }

    /// Primitive instruction `mov`: `memory[out] <- registers[op]`. The only
    /// way to move a value from a register into memory; registers are
    /// untouched. The address must translate in bounds (an out-of-bounds
    /// access is a fatal fault and is excluded here).
    pub fn mov(&mut self, out: Address, op: Register)
        requires
            old(self).wf(),
            out.in_bounds(),
        ensures
            final(self).wf(),
            final(self).memory_view() == old(self).memory_view().update(
                out.word_index(),
                old(self).reg_val(op),
            ),
            forall|r: Register| final(self).reg_val(r) == old(self).reg_val(r),
    {
        let value = self.read_reg(op);
        let i = out.translate();
        self.memory.set(i, value);
    }

    /// Primitive instruction `sub`: `registers[out] <- registers[out] -
    /// memory[op]`, with wrapping (modulo 2^32) signed arithmetic: overflow
    /// wraps silently, it never faults. The only arithmetic instruction and
    /// the only way to read a memory value into a computation. The address
    /// must translate in bounds.
    pub fn sub(&mut self, out: Register, op: Address)
        requires
            old(self).wf(),
            op.in_bounds(),
        ensures
            final(self).wf(),
            final(self).memory_view() == old(self).memory_view(),
            final(self).reg_val(out) == wrap_sub(
                old(self).reg_val(out),
                old(self).memory_view()[op.word_index()],
            ),
            forall|r: Register| r != out ==> final(self).reg_val(r) == old(self).reg_val(r),
    {
        let i = op.translate();
        let value = self.memory[i];
        let current = self.read_reg(out);
        self.write_reg(current.wrapping_sub(value), out);
    }
}

} // verus!
