//! General laws of the instruction semantics, stated over the same spec
//! functions that the instruction contracts use and proved for every
//! input.
use vstd::prelude::*;
use vstd::arithmetic::div_mod::lemma_fundamental_div_mod;
use crate::cpu::semantics::addr_operand;
use crate::cpu::semantics::pack_flags;
use crate::cpu::semantics::pair16;
use crate::cpu::semantics::popcount8;
use crate::cpu::semantics::spec_addition;
use crate::cpu::semantics::spec_call;
use crate::cpu::semantics::spec_lhld;
use crate::cpu::semantics::spec_pop;
use crate::cpu::semantics::spec_push_op;
use crate::cpu::semantics::spec_ret;
use crate::cpu::semantics::spec_shld;
use crate::cpu::semantics::spec_step;
use crate::cpu::semantics::spec_subtraction;
use crate::cpu::semantics::unpack_flags;
use crate::cpu::semantics::wrap_add16;
use crate::cpu::semantics::CpuState;

verus! {

/// Executing any of the 256 opcode values from a well-formed state
/// leaves the state well-formed: no instruction grows or shrinks the
/// 65536-byte address space.
pub proof fn lemma_step_preserves_wf(s: CpuState)
    requires
        s.wf(),
    ensures
        spec_step(s).wf(),
{
}

/// For every accumulator value and operand byte, the additive core
/// leaves the accumulator holding the sum modulo 256, sets Zero exactly
/// when that sum modulo 256 is 0, sets Sign exactly when bit 7 of the
/// result is set, sets Parity exactly when the result's bit count is
/// even, and sets Carry exactly when the sum overflows a byte.
pub proof fn lemma_add_flags(s: CpuState, val: u8)
    ensures
        spec_addition(s, val).a == ((s.a + val) % 256) as u8,
        spec_addition(s, val).flags.z <==> (s.a + val) % 256 == 0,
        spec_addition(s, val).flags.s <==> ((s.a + val) % 256) / 128 % 2 == 1,
        spec_addition(s, val).flags.p <==> popcount8(((s.a + val) % 256) as u8) % 2 == 0,
        spec_addition(s, val).flags.cy <==> s.a + val >= 256,
{
}

/// For every accumulator value and operand byte, the subtractive core
/// leaves the accumulator holding the difference modulo 256, and its
/// Carry flag means "borrow occurred": it is set exactly when the
/// subtrahend exceeds the accumulator, the logical negation of the
/// native no-underflow result.
pub proof fn lemma_sub_borrow(s: CpuState, val: u8)
    ensures
        spec_subtraction(s, val).a == ((s.a - val + 256) % 256) as u8,
        spec_subtraction(s, val).flags.cy <==> s.a < val,
{
}

/// Packing the five flags into a processor-status-word byte and
/// unpacking it again restores them exactly.
pub proof fn lemma_flag_byte_roundtrip(f: crate::cpu::flags::Flags)
    ensures
        unpack_flags(pack_flags(f)) == f,
{
}

/// A push immediately followed by a pop of the same pair restores the
/// original pair value — for the processor-status-word pair, the
/// accumulator and all five flags — and leaves the stack pointer
/// unchanged, whatever the rest of the state holds.
pub proof fn lemma_push_pop_roundtrip(s: CpuState, push_code: u8, pop_code: u8)
    requires
        s.wf(),
        (push_code == 0xC5 && pop_code == 0xC1) || (push_code == 0xD5 && pop_code == 0xD1) || (
        push_code == 0xE5 && pop_code == 0xE1) || (push_code == 0xF5 && pop_code == 0xF1),
    ensures
        spec_pop(spec_push_op(s, push_code), pop_code).sp == s.sp,
        push_code == 0xC5 ==> spec_pop(spec_push_op(s, push_code), pop_code).b == s.b
            && spec_pop(spec_push_op(s, push_code), pop_code).c == s.c,
        push_code == 0xD5 ==> spec_pop(spec_push_op(s, push_code), pop_code).d == s.d
            && spec_pop(spec_push_op(s, push_code), pop_code).e == s.e,
        push_code == 0xE5 ==> spec_pop(spec_push_op(s, push_code), pop_code).h == s.h
            && spec_pop(spec_push_op(s, push_code), pop_code).l == s.l,
        push_code == 0xF5 ==> spec_pop(spec_push_op(s, push_code), pop_code).a == s.a
            && spec_pop(spec_push_op(s, push_code), pop_code).flags == s.flags,
{
    let v = if push_code == 0xC5 {
        pair16(s.b, s.c)
    } else if push_code == 0xD5 {
        pair16(s.d, s.e)
    } else if push_code == 0xE5 {
        pair16(s.h, s.l)
    } else {
        pair16(s.a, pack_flags(s.flags))
    };
    lemma_fundamental_div_mod(v as int, 256);
}

/// Loading H and L direct is the exact inverse of storing them: from
/// any state whose memory is as the store left it, a load through the
/// same operand address restores the original H and L.
pub proof fn lemma_shld_lhld_roundtrip(s: CpuState, t: CpuState)
    requires
        s.wf(),
        t.wf(),
        t.mem == spec_shld(s).mem,
        addr_operand(t) == addr_operand(s),
    ensures
        spec_lhld(t).h == s.h,
        spec_lhld(t).l == s.l,
{
}

/// A call whose condition holds, immediately followed by a return,
/// brings the program counter back to exactly the instruction after the
/// 3-byte call — whatever address was called — and leaves the stack
/// pointer unchanged.
pub proof fn lemma_call_ret_roundtrip(s: CpuState)
    requires
        s.wf(),
    ensures
        spec_ret(spec_call(s, true), true).pc == wrap_add16(s.pc, 3),
        spec_ret(spec_call(s, true), true).sp == s.sp,
{
    lemma_fundamental_div_mod(wrap_add16(s.pc, 3) as int, 256);
}

} // verus!
