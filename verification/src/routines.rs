//! Composite routines synthesized from the two primitive instructions:
//! zeroing a register while capturing its value (`store_and_clear`),
//! reading a memory word into a register (`load`), and exchanging two
//! memory words (`swap_memory`). The instruction set has no native load,
//! copy or clear, so each effect is derived algebraically from repeated
//! subtraction and store.

use crate::cpu::Address;
use crate::cpu::GearBoxCpu;
use crate::cpu::Register;

use vstd::prelude::*;

verus! {

/// The scratch address the swap routine zeroes registers against: byte
/// offset 0, word index 0.
pub fn temp() -> (a: Address)
    ensures
        a.0 == 0u16,
{
    Address(0)
}

/// The first of the two named memory cells the swap routine exchanges: byte
/// offset 4, word index 1.
pub fn mem1() -> (a: Address)
    ensures
        a.0 == 4u16,
{
    Address(4)
}

/// The second of the two named memory cells the swap routine exchanges:
/// byte offset 8, word index 2.
pub fn mem2() -> (a: Address)
    ensures
        a.0 == 8u16,
{
    Address(8)
}

/// Stores the register's current value to `out` via `mov`, then subtracts
/// the just-stored copy from the register, leaving the register at exactly
/// 0 while `out` holds the register's pre-call value. This is the only way
/// to zero a register, and also the only way to capture a register's value
/// into memory: both effects happen together by construction.
pub fn store_and_clear(cpu: &mut GearBoxCpu, out: Address, register: Register)
    requires
        old(cpu).wf(),
        out.in_bounds(),
    ensures
        final(cpu).wf(),
        final(cpu).reg_val(register) == 0i32,
        final(cpu).memory_view() == old(cpu).memory_view().update(
            out.word_index(),
            old(cpu).reg_val(register),
        ),
        forall|r: Register| r != register ==> final(cpu).reg_val(r) == old(cpu).reg_val(r),
{
    cpu.mov(out, register);
    // register - memory[out] = register - register = 0
    cpu.sub(register, out);
}

/// Reads the value at `address` into `out` while leaving `address`'s
/// content unchanged. Subtracting the word from a register that starts at 0
/// yields the negated value; storing that negation back and subtracting it
/// twice more restores the register to the original (positive-sense) value,
/// and a final store overwrites the address back to its entry value. The
/// register must be 0 on entry: callers zero it first via
/// `store_and_clear` against a scratch address.
pub fn load(cpu: &mut GearBoxCpu, out: Register, address: Address)
    requires
        old(cpu).wf(),
        address.in_bounds(),
        old(cpu).reg_val(out) == 0i32,
    ensures
        final(cpu).wf(),
        final(cpu).reg_val(out) == old(cpu).memory_view()[address.word_index()],
        final(cpu).memory_view() == old(cpu).memory_view(),
        forall|r: Register| r != out ==> final(cpu).reg_val(r) == old(cpu).reg_val(r),
{
    // register <- 0 - m: the negated word (modulo 2^32)
    cpu.sub(out, address);
    // memory[address] <- -m
    cpu.mov(address, out);
    // register <- -m - (-m) = 0
    cpu.sub(out, address);
    // register <- 0 - (-m) = m (negation modulo 2^32 is an involution)
    cpu.sub(out, address);
    // memory[address] <- m: the address is restored
    cpu.mov(address, out);
    proof {
        assert(cpu.memory_view() =~= old(cpu).memory_view());
    }
}

/// What a completed swap guarantees, relating the processor state before
/// the call (`pre`) to the state after it (`post`): the two named memory
/// cells hold each other's prior values, both registers are 0, the scratch
/// cell holds the first register's prior value, and every other memory
/// word is untouched.
pub open spec fn swap_applied(pre: GearBoxCpu, post: GearBoxCpu) -> bool {
    &&& post.wf()
    &&& post.memory_view().len() == pre.memory_view().len()
    &&& post.memory_view()[1] == pre.memory_view()[2]
    &&& post.memory_view()[2] == pre.memory_view()[1]
    &&& post.memory_view()[0] == pre.reg_val(Register::Reg1)
    &&& post.reg_val(Register::Reg1) == 0i32
    &&& post.reg_val(Register::Reg2) == 0i32
    &&& forall|i: int|
        3 <= i < pre.memory_view().len() ==> post.memory_view()[i] == pre.memory_view()[i]
}

/// Exchanges the contents of the two named memory cells using only the two
/// primitive instructions, the two registers and one scratch cell. The
/// registers are not assumed to start in any known state: both are zeroed
/// first against the scratch cell, and both are left at 0 when the swap
/// completes.
pub fn swap_memory(cpu: &mut GearBoxCpu)
    requires
        old(cpu).wf(),
    ensures
        final(cpu).wf(),
        swap_applied(*old(cpu), *final(cpu)),
        final(cpu).memory_view()[1] == old(cpu).memory_view()[2],
        final(cpu).memory_view()[2] == old(cpu).memory_view()[1],
        final(cpu).reg_val(Register::Reg1) == 0i32,
        final(cpu).reg_val(Register::Reg2) == 0i32,
{
    let scratch = temp();
    let first = mem1();
    let second = mem2();
    // Discard whatever stale values the registers held.
    store_and_clear(cpu, scratch, Register::Reg2);
    store_and_clear(cpu, scratch, Register::Reg1);
    // Read each cell's value into its own register.
    load(cpu, Register::Reg1, first);
    load(cpu, Register::Reg2, second);
    // Write each register back into the other cell; the stores re-zero the
    // registers as a side effect.
    store_and_clear(cpu, first, Register::Reg2);
    store_and_clear(cpu, second, Register::Reg1);
}

/// Law: the swap routine is an involution on the pair of named memory
/// cells. Applying it twice restores their original values, and both
/// registers equal 0 after each application.
pub proof fn lemma_swap_twice_restores(s0: GearBoxCpu, s1: GearBoxCpu, s2: GearBoxCpu)
    requires
        swap_applied(s0, s1),
        swap_applied(s1, s2),
    ensures
        s2.memory_view()[1] == s0.memory_view()[1],
        s2.memory_view()[2] == s0.memory_view()[2],
        s1.reg_val(Register::Reg1) == 0i32,
        s1.reg_val(Register::Reg2) == 0i32,
        s2.reg_val(Register::Reg1) == 0i32,
        s2.reg_val(Register::Reg2) == 0i32,
{
}

} // verus!
