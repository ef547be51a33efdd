//! Properties of the machine that span inputs or several instructions.
use vstd::prelude::*;

use crate::model::{
    CpuError, FLAG_REGISTER, MEMORY_SIZE, Machine, NUM_REGISTERS, STACK_SIZE, add_spec,
    call_result, call_spec, calls_spec, ret_result, ret_spec, rets_spec, store_word, word_at,
};

verus! {

/// Addition wraps: for any values `a` in register `x` and `b` in register
/// `y`, register `x` ends with `(a + b) mod 256`, the flag register with 1
/// exactly when `a + b > 255` and 0 otherwise, and no other register moves.
/// The destination must not be the flag register itself, whose sum the flag
/// overwrites.
pub proof fn lemma_add_wraps_and_flags(m: Machine, x: int, y: int)
    requires
        m.wf(),
        0 <= x < NUM_REGISTERS,
        0 <= y < NUM_REGISTERS,
        x != FLAG_REGISTER,
    ensures
        ({
            let a = m.registers[x];
            let b = m.registers[y];
            let r = add_spec(m, x, y);
            &&& r.registers[x] == (a + b) % 256
            &&& r.registers[FLAG_REGISTER as int] == 1 <==> a + b > 255
            &&& r.registers[FLAG_REGISTER as int] == 0 <==> a + b <= 255
            &&& forall|i: int|
                0 <= i < NUM_REGISTERS && i != x && i != FLAG_REGISTER ==> r.registers[i]
                    == m.registers[i]
            &&& r.memory == m.memory && r.pc == m.pc && r.stack == m.stack && r.sp == m.sp
        }),
{
}

/// A 16-bit value stored as two big-endian bytes at an offset that leaves
/// room for both is fetched back unchanged.
pub proof fn lemma_fetch_round_trip(memory: Seq<u8>, p: int, v: u16)
    requires
        memory.len() == MEMORY_SIZE,
        0 <= p,
        p + 1 < MEMORY_SIZE,
    ensures
        word_at(store_word(memory, p, v), p) == v,
{
}

/// Calls followed by as many returns, with room on the stack for all the
/// calls, bring the program counter and the stack pointer back to what they
/// were before the first call, and leave registers, memory and the slots
/// below the stack pointer as they were.
pub proof fn lemma_calls_then_returns(m: Machine, addrs: Seq<u16>)
    requires
        m.wf(),
        m.pc <= u16::MAX,
        m.sp + addrs.len() <= STACK_SIZE,
    ensures
        ({
            let r = rets_spec(calls_spec(m, addrs), addrs.len());
            &&& r.pc == m.pc
            &&& r.sp == m.sp
            &&& r.registers == m.registers
            &&& r.memory == m.memory
            &&& forall|i: int| 0 <= i < m.sp ==> r.stack[i] == m.stack[i]
            &&& r.stack.len() == STACK_SIZE
        }),
    decreases addrs.len(),
{
    if addrs.len() > 0 {
        let m1 = call_spec(m, addrs[0]);
        let rest = addrs.drop_first();
        lemma_calls_then_returns(m1, rest);
        let inner = rets_spec(calls_spec(m1, rest), rest.len());
        assert(rets_spec(calls_spec(m, addrs), addrs.len()) == ret_spec(inner));
        assert(inner.stack[m.sp] == m1.stack[m.sp]);
    }
}

/// Calls with no return between them raise the stack pointer by one each.
pub proof fn lemma_calls_push(m: Machine, addrs: Seq<u16>)
    requires
        m.wf(),
        m.sp + addrs.len() <= STACK_SIZE,
    ensures
        calls_spec(m, addrs).wf(),
        calls_spec(m, addrs).sp == m.sp + addrs.len(),
    decreases addrs.len(),
{
    if addrs.len() > 0 {
        lemma_calls_push(call_spec(m, addrs[0]), addrs.drop_first());
    }
}

/// From an empty stack, sixteen calls with no return between them succeed
/// and the seventeenth reports `StackOverflow`, changing nothing.
pub proof fn lemma_seventeenth_call_overflows(m: Machine, addrs: Seq<u16>, addr: u16)
    requires
        m.wf(),
        m.sp == 0,
        addrs.len() == STACK_SIZE,
    ensures
        call_result(calls_spec(m, addrs), addr) == (
        calls_spec(m, addrs),
        Err::<(), CpuError>(CpuError::StackOverflow),
        ),
{
    lemma_calls_push(m, addrs);
}

/// A return with an empty stack reports `StackUnderflow`, changing nothing.
pub proof fn lemma_return_on_empty_underflows(m: Machine)
    requires
        m.sp == 0,
    ensures
        ret_result(m) == (m, Err::<(), CpuError>(CpuError::StackUnderflow)),
{
}

} // verus!
