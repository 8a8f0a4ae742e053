//! The mathematical model of the processor: an abstract machine state and
//! one spec function, `spec_step`, that gives the exact post-state of
//! executing the instruction at the program counter, for every one of the
//! 256 opcode byte values.
use vstd::prelude::*;
use crate::cpu::flags::Flags;

verus! {

/// The abstract state of the interpreter: the accumulator, the six
/// general registers, the two 16-bit pointers, the flat memory, the five
/// condition bits and the interrupt-enable bit.
#[verifier::ext_equal]
pub ghost struct CpuState {
    pub a: u8,
    pub b: u8,
    pub c: u8,
    pub d: u8,
    pub e: u8,
    pub h: u8,
    pub l: u8,
    pub pc: u16,
    pub sp: u16,
    pub mem: Seq<u8>,
    pub flags: Flags,
    pub ie: bool,
}

impl CpuState {
    /// Well-formedness: the memory spans the whole 65536-byte address space.
    pub open spec fn wf(self) -> bool {
        self.mem.len() == 0x10000
    }
}

// ---------------------------------------------------------------------------
// Wrapping arithmetic and byte/pair helpers.
// ---------------------------------------------------------------------------
/// 8-bit addition, wrapping modulo 256.
pub open spec fn wrap_add8(x: u8, y: u8) -> u8 {
    if x + y > 255 {
        (x + y - 256) as u8
    } else {
        (x + y) as u8
    }
}

/// 8-bit subtraction, wrapping modulo 256.
pub open spec fn wrap_sub8(x: u8, y: u8) -> u8 {
    if x - y < 0 {
        (x - y + 256) as u8
    } else {
        (x - y) as u8
    }
}

/// 16-bit addition, wrapping modulo 65536.
pub open spec fn wrap_add16(x: u16, y: u16) -> u16 {
    if x + y > 65535 {
        (x + y - 65536) as u16
    } else {
        (x + y) as u16
    }
}

/// 16-bit subtraction, wrapping modulo 65536.
pub open spec fn wrap_sub16(x: u16, y: u16) -> u16 {
    if x - y < 0 {
        (x - y + 65536) as u16
    } else {
        (x - y) as u16
    }
}

/// The two's complement of a byte: what must be added to subtract it.
pub open spec fn neg8(v: u8) -> u8 {
    wrap_sub8(0, v)
}

/// Two bytes joined into one 16-bit value, high byte most significant.
pub open spec fn pair16(msb: u8, lsb: u8) -> u16 {
    (msb * 256 + lsb) as u16
}

/// The high byte of a 16-bit value.
pub open spec fn high8(v: u16) -> u8 {
    (v / 256) as u8
}

/// The low byte of a 16-bit value.
pub open spec fn low8(v: u16) -> u8 {
    (v % 256) as u8
}

// ---------------------------------------------------------------------------
// Flag computation.
// ---------------------------------------------------------------------------
/// The number of set bits in a byte.
pub open spec fn popcount8(v: u8) -> int {
    (v % 2) + (v / 2 % 2) + (v / 4 % 2) + (v / 8 % 2) + (v / 16 % 2) + (v / 32 % 2) + (v / 64 % 2)
        + (v / 128 % 2)
}

/// Parity flag: set exactly when the result's bit count is even.
pub open spec fn spec_parity(v: u8) -> bool {
    popcount8(v) % 2 == 0
}

/// Sign flag: set exactly when bit 7 of the result is set.
pub open spec fn spec_sign(v: u8) -> bool {
    v >= 128
}

/// Auxiliary-Carry: set exactly when adding the two operands carries out
/// of bit 3 (the low nibbles alone sum to 16 or more).
pub open spec fn aux_carry(x: u8, y: u8) -> bool {
    (x % 16) + (y % 16) >= 16
}

/// Zero, Sign and Parity recomputed from a result byte, with the given
/// Auxiliary-Carry and Carry bits.
pub open spec fn zsp_flags(r: u8, ac: bool, cy: bool) -> Flags {
    Flags { z: r == 0, s: spec_sign(r), p: spec_parity(r), ac: ac, cy: cy }
}

// ---------------------------------------------------------------------------
// State helpers.
// ---------------------------------------------------------------------------
/// The byte in memory at `addr`.
pub open spec fn mem_at(s: CpuState, addr: u16) -> u8 {
    s.mem[addr as int]
}

/// The state with one memory byte replaced.
pub open spec fn with_mem(s: CpuState, addr: u16, val: u8) -> CpuState {
    CpuState { mem: s.mem.update(addr as int, val), ..s }
}

/// The state with the program counter moved forward by `n`, wrapping.
pub open spec fn advanced(s: CpuState, n: u16) -> CpuState {
    CpuState { pc: wrap_add16(s.pc, n), ..s }
}

/// The first operand byte: the byte after the opcode.
pub open spec fn imm1(s: CpuState) -> u8 {
    mem_at(s, wrap_add16(s.pc, 1))
}

/// The second operand byte.
pub open spec fn imm2(s: CpuState) -> u8 {
    mem_at(s, wrap_add16(s.pc, 2))
}

/// The 16-bit operand address, stored little-endian after the opcode.
pub open spec fn addr_operand(s: CpuState) -> u16 {
    pair16(imm2(s), imm1(s))
}

/// The register-pair value formed from H and L, used as memory pointer.
pub open spec fn hl_pair(s: CpuState) -> u16 {
    pair16(s.h, s.l)
}

/// The single 3-bit register selector convention shared by the move,
/// arithmetic, logical and compare families: codes 0-5 select the six
/// general registers, 6 selects memory through the H/L pair, 7 the
/// accumulator.
pub open spec fn selected_reg(s: CpuState, sel: u8) -> u8 {
    if sel % 8 == 0 {
        s.b
    } else if sel % 8 == 1 {
        s.c
    } else if sel % 8 == 2 {
        s.d
    } else if sel % 8 == 3 {
        s.e
    } else if sel % 8 == 4 {
        s.h
    } else if sel % 8 == 5 {
        s.l
    } else if sel % 8 == 6 {
        mem_at(s, hl_pair(s))
    } else {
        s.a
    }
}

/// The state with the register (or indirect memory cell) named by the
/// 3-bit selector replaced by `val`.
pub open spec fn with_selected(s: CpuState, sel: u8, val: u8) -> CpuState {
    if sel % 8 == 0 {
        CpuState { b: val, ..s }
    } else if sel % 8 == 1 {
        CpuState { c: val, ..s }
    } else if sel % 8 == 2 {
        CpuState { d: val, ..s }
    } else if sel % 8 == 3 {
        CpuState { e: val, ..s }
    } else if sel % 8 == 4 {
        CpuState { h: val, ..s }
    } else if sel % 8 == 5 {
        CpuState { l: val, ..s }
    } else if sel % 8 == 6 {
        with_mem(s, hl_pair(s), val)
    } else {
        CpuState { a: val, ..s }
    }
}

// ---------------------------------------------------------------------------
// Arithmetic and logical instruction cores (program counter not included).
// ---------------------------------------------------------------------------
/// The effective operand of an add-with-carry or subtract-with-borrow:
/// the incoming Carry folded into the operand byte, wrapping.
pub open spec fn carry_operand(s: CpuState, v: u8) -> u8 {
    if s.flags.cy {
        wrap_add8(v, 1)
    } else {
        v
    }
}

/// Additive core: the accumulator gains `val`; Zero, Sign and Parity come
/// from the result, Auxiliary-Carry from the operands' low nibbles, and
/// Carry is the native unsigned overflow of the 8-bit addition.
pub open spec fn spec_addition(s: CpuState, val: u8) -> CpuState {
    let r = wrap_add8(s.a, val);
    CpuState { a: r, flags: zsp_flags(r, aux_carry(s.a, val), s.a + val >= 256), ..s }
}

/// Subtractive core, performed as addition of the two's complement.
/// Auxiliary-Carry follows that internal addition; Carry means "borrow
/// occurred", true exactly when the subtrahend exceeds the accumulator.
pub open spec fn spec_subtraction(s: CpuState, val: u8) -> CpuState {
    let n = neg8(val);
    let r = wrap_add8(s.a, n);
    CpuState { a: r, flags: zsp_flags(r, aux_carry(s.a, n), s.a < val), ..s }
}

/// Compare: the flags of the subtractive core, with the accumulator left
/// unchanged.
pub open spec fn spec_compare(s: CpuState, val: u8) -> CpuState {
    CpuState { a: s.a, ..spec_subtraction(s, val) }
}

/// Logical AND: Carry is forced clear; Zero, Sign and Parity come from
/// the result and Auxiliary-Carry from the operands' low nibbles, the
/// same bit-3 rule as the additive core.
pub open spec fn spec_and(s: CpuState, val: u8) -> CpuState {
    let r = s.a & val;
    CpuState { a: r, flags: zsp_flags(r, aux_carry(s.a, val), false), ..s }
}

/// Logical exclusive OR, with the same flag rule as AND.
pub open spec fn spec_xor(s: CpuState, val: u8) -> CpuState {
    let r = s.a ^ val;
    CpuState { a: r, flags: zsp_flags(r, aux_carry(s.a, val), false), ..s }
}

/// Logical inclusive OR, with the same flag rule as AND.
pub open spec fn spec_or(s: CpuState, val: u8) -> CpuState {
    let r = s.a | val;
    CpuState { a: r, flags: zsp_flags(r, aux_carry(s.a, val), false), ..s }
}

/// Increment flags: Zero, Sign, Parity from the result, Auxiliary-Carry
/// from the incremented value's low nibble; Carry is never touched.
pub open spec fn inr_flags(f: Flags, v: u8) -> Flags {
    let r = wrap_add8(v, 1);
    Flags { z: r == 0, s: spec_sign(r), p: spec_parity(r), ac: aux_carry(v, 1), cy: f.cy }
}

/// Decrement flags: computed by the same rule as increment flags, from
/// the original value and the operand 1; Carry is never touched.
pub open spec fn dcr_flags(f: Flags, v: u8) -> Flags {
    let r = wrap_sub8(v, 1);
    Flags { z: r == 0, s: spec_sign(r), p: spec_parity(r), ac: aux_carry(v, 1), cy: f.cy }
}

// ---------------------------------------------------------------------------
// Stack helpers.
// ---------------------------------------------------------------------------
/// A 16-bit value pushed: high byte first, the stack growing downward,
/// the stack pointer pre-decremented by two in all.
pub open spec fn spec_push_word(s: CpuState, v: u16) -> CpuState {
    let m1 = s.mem.update(wrap_sub16(s.sp, 1) as int, high8(v));
    let m2 = m1.update(wrap_sub16(s.sp, 2) as int, low8(v));
    CpuState { mem: m2, sp: wrap_sub16(s.sp, 2), ..s }
}

/// The 16-bit value on top of the stack: low byte at the stack pointer,
/// high byte above it.
pub open spec fn stack_top(s: CpuState) -> u16 {
    pair16(mem_at(s, wrap_add16(s.sp, 1)), mem_at(s, s.sp))
}

// ---------------------------------------------------------------------------
// Branch conditions.
// ---------------------------------------------------------------------------
/// The condition selected by bits 3-5 of a conditional jump, call or
/// return opcode: each of the four comparison flags in both polarities.
pub open spec fn spec_condition(s: CpuState, op: u8) -> bool {
    let idx = (op / 8) % 8;
    if idx == 0 {
        !s.flags.z
    } else if idx == 1 {
        s.flags.z
    } else if idx == 2 {
        !s.flags.cy
    } else if idx == 3 {
        s.flags.cy
    } else if idx == 4 {
        !s.flags.p
    } else if idx == 5 {
        s.flags.p
    } else if idx == 6 {
        !s.flags.s
    } else {
        s.flags.s
    }
}

// ---------------------------------------------------------------------------
// Whole instructions, program counter movement included.
// ---------------------------------------------------------------------------
/// No-operation: only the program counter moves, past the one byte.
pub open spec fn spec_nop(s: CpuState) -> CpuState {
    advanced(s, 1)
}

/// Load register pair immediate: the two operand bytes, little-endian,
/// fill the pair named by the opcode.
pub open spec fn spec_lxi(s: CpuState, op: u8) -> CpuState {
    let low = imm1(s);
    let high = imm2(s);
    if op == 0x01 {
        advanced(CpuState { b: high, c: low, ..s }, 3)
    } else if op == 0x11 {
        advanced(CpuState { d: high, e: low, ..s }, 3)
    } else if op == 0x21 {
        advanced(CpuState { h: high, l: low, ..s }, 3)
    } else {
        advanced(CpuState { sp: pair16(high, low), ..s }, 3)
    }
}

/// Store accumulator indirect through the B/C or D/E pair.
pub open spec fn spec_stax(s: CpuState, op: u8) -> CpuState {
    let addr = if op == 0x02 {
        pair16(s.b, s.c)
    } else {
        pair16(s.d, s.e)
    };
    advanced(with_mem(s, addr, s.a), 1)
}

/// Load accumulator indirect through the B/C or D/E pair.
pub open spec fn spec_ldax(s: CpuState, op: u8) -> CpuState {
    let addr = if op == 0x0A {
        pair16(s.b, s.c)
    } else {
        pair16(s.d, s.e)
    };
    advanced(CpuState { a: mem_at(s, addr), ..s }, 1)
}

/// 16-bit pair increment; no flag is affected.
pub open spec fn spec_inx(s: CpuState, op: u8) -> CpuState {
    if op == 0x03 {
        let v = wrap_add16(pair16(s.b, s.c), 1);
        advanced(CpuState { b: high8(v), c: low8(v), ..s }, 1)
    } else if op == 0x13 {
        let v = wrap_add16(pair16(s.d, s.e), 1);
        advanced(CpuState { d: high8(v), e: low8(v), ..s }, 1)
    } else if op == 0x23 {
        let v = wrap_add16(pair16(s.h, s.l), 1);
        advanced(CpuState { h: high8(v), l: low8(v), ..s }, 1)
    } else {
        advanced(CpuState { sp: wrap_add16(s.sp, 1), ..s }, 1)
    }
}

/// 16-bit pair decrement; no flag is affected.
pub open spec fn spec_dcx(s: CpuState, op: u8) -> CpuState {
    if op == 0x0B {
        let v = wrap_sub16(pair16(s.b, s.c), 1);
        advanced(CpuState { b: high8(v), c: low8(v), ..s }, 1)
    } else if op == 0x1B {
        let v = wrap_sub16(pair16(s.d, s.e), 1);
        advanced(CpuState { d: high8(v), e: low8(v), ..s }, 1)
    } else if op == 0x2B {
        let v = wrap_sub16(pair16(s.h, s.l), 1);
        advanced(CpuState { h: high8(v), l: low8(v), ..s }, 1)
    } else {
        advanced(CpuState { sp: wrap_sub16(s.sp, 1), ..s }, 1)
    }
}

/// Increment of one register or the indirect memory cell; Carry is not
/// affected.
pub open spec fn spec_inr(s: CpuState, op: u8) -> CpuState {
    let sel = (op / 8) % 8;
    let v = selected_reg(s, sel);
    let r = wrap_add8(v, 1);
    advanced(CpuState { flags: inr_flags(s.flags, v), ..with_selected(s, sel, r) }, 1)
}

/// Decrement of one register or the indirect memory cell; Carry is not
/// affected.
pub open spec fn spec_dcr(s: CpuState, op: u8) -> CpuState {
    let sel = (op / 8) % 8;
    let v = selected_reg(s, sel);
    let r = wrap_sub8(v, 1);
    advanced(CpuState { flags: dcr_flags(s.flags, v), ..with_selected(s, sel, r) }, 1)
}

/// Move immediate: the operand byte fills the register or indirect
/// memory cell named by the opcode.
pub open spec fn spec_mvi(s: CpuState, op: u8) -> CpuState {
    let sel = (op / 8) % 8;
    advanced(with_selected(s, sel, imm1(s)), 2)
}

/// Register-to-register move; code 6 on either side means the indirect
/// memory cell through H/L.
pub open spec fn spec_mov(s: CpuState, op: u8) -> CpuState {
    let dest = (op / 8) % 8;
    let v = selected_reg(s, op % 8);
    advanced(with_selected(s, dest, v), 1)
}

/// Rotate accumulator left; the bit shifted out enters both Carry and
/// bit 0. Only Carry among the flags is touched.
pub open spec fn spec_rlc(s: CpuState) -> CpuState {
    let bit7 = s.a >= 128;
    let r = wrap_add8(wrap_add8(s.a, s.a), if bit7 { 1 } else { 0 });
    advanced(CpuState { a: r, flags: Flags { cy: bit7, ..s.flags }, ..s }, 1)
}

/// Rotate accumulator right; the bit shifted out enters both Carry and
/// bit 7. Only Carry among the flags is touched.
pub open spec fn spec_rrc(s: CpuState) -> CpuState {
    let bit0 = s.a % 2 == 1;
    let r = ((s.a / 2) + if bit0 { 128int } else { 0int }) as u8;
    advanced(CpuState { a: r, flags: Flags { cy: bit0, ..s.flags }, ..s }, 1)
}

/// Rotate accumulator left through Carry: the old Carry enters bit 0 and
/// the bit shifted out becomes the new Carry.
pub open spec fn spec_ral(s: CpuState) -> CpuState {
    let bit7 = s.a >= 128;
    let r = wrap_add8(wrap_add8(s.a, s.a), if s.flags.cy { 1 } else { 0 });
    advanced(CpuState { a: r, flags: Flags { cy: bit7, ..s.flags }, ..s }, 1)
}

/// Rotate accumulator right through Carry: the old Carry enters bit 7
/// and the bit shifted out becomes the new Carry.
pub open spec fn spec_rar(s: CpuState) -> CpuState {
    let bit0 = s.a % 2 == 1;
    let r = ((s.a / 2) + if s.flags.cy { 128int } else { 0int }) as u8;
    advanced(CpuState { a: r, flags: Flags { cy: bit0, ..s.flags }, ..s }, 1)
}

/// 16-bit add into H/L; only Carry is affected, set from the native
/// unsigned overflow of the 16-bit addition.
pub open spec fn spec_dad(s: CpuState, op: u8) -> CpuState {
    let x = if op == 0x09 {
        pair16(s.b, s.c)
    } else if op == 0x19 {
        pair16(s.d, s.e)
    } else if op == 0x29 {
        pair16(s.h, s.l)
    } else {
        s.sp
    };
    let hl = pair16(s.h, s.l);
    let v = wrap_add16(hl, x);
    advanced(
        CpuState {
            h: high8(v),
            l: low8(v),
            flags: Flags { cy: hl + x >= 65536, ..s.flags },
            ..s
        },
        1,
    )
}

/// Store H and L direct: L goes to the operand address and H to the
/// address after it.
pub open spec fn spec_shld(s: CpuState) -> CpuState {
    let addr = addr_operand(s);
    let m = s.mem.update(addr as int, s.l).update(wrap_add16(addr, 1) as int, s.h);
    advanced(CpuState { mem: m, ..s }, 3)
}

/// Load H and L direct: L from the operand address and H from the
/// address after it — the exact inverse of the store.
pub open spec fn spec_lhld(s: CpuState) -> CpuState {
    let addr = addr_operand(s);
    advanced(CpuState { l: mem_at(s, addr), h: mem_at(s, wrap_add16(addr, 1)), ..s }, 3)
}

/// Decimal adjust: each nibble of the accumulator is corrected by six
/// when it exceeds nine or its carry bit is set, converting a raw binary
/// addition result into valid packed binary-coded decimal.
pub open spec fn spec_daa(s: CpuState) -> CpuState {
    let ls = s.a % 16;
    let ms = s.a / 16;
    let lsmod = ls + (if ls > 9 || s.flags.ac { 6int } else { 0int });
    let over_l = lsmod >= 16;
    let ms1 = if over_l { ms + 1 } else { ms as int };
    let msmod = ms1 + (if ms1 > 9 || s.flags.cy { 6int } else { 0int });
    let over_m = msmod >= 16;
    let r = ((msmod % 16) * 16 + (lsmod % 16)) as u8;
    advanced(CpuState { a: r, flags: Flags { ac: over_l, cy: over_m, ..s.flags }, ..s }, 1)
}

/// Complement the accumulator; no flag is affected.
pub open spec fn spec_cma(s: CpuState) -> CpuState {
    advanced(CpuState { a: (255 - s.a) as u8, ..s }, 1)
}

/// Store accumulator direct.
pub open spec fn spec_sta(s: CpuState) -> CpuState {
    advanced(with_mem(s, addr_operand(s), s.a), 3)
}

/// Load accumulator direct.
pub open spec fn spec_lda(s: CpuState) -> CpuState {
    advanced(CpuState { a: mem_at(s, addr_operand(s)), ..s }, 3)
}

/// Set Carry.
pub open spec fn spec_stc(s: CpuState) -> CpuState {
    advanced(CpuState { flags: Flags { cy: true, ..s.flags }, ..s }, 1)
}

/// Complement Carry.
pub open spec fn spec_cmc(s: CpuState) -> CpuState {
    advanced(CpuState { flags: Flags { cy: !s.flags.cy, ..s.flags }, ..s }, 1)
}

/// Halt: modelled as doing nothing beyond consuming its byte.
pub open spec fn spec_hlt(s: CpuState) -> CpuState {
    advanced(s, 1)
}

/// Return: when the condition holds, two bytes are popped into the
/// program counter (low byte first, the stack pointer gaining two);
/// otherwise only the opcode byte is consumed.
pub open spec fn spec_ret(s: CpuState, cond: bool) -> CpuState {
    if cond {
        CpuState { pc: stack_top(s), sp: wrap_add16(s.sp, 2), ..s }
    } else {
        advanced(s, 1)
    }
}

/// Jump: when the condition holds, the program counter becomes the
/// 16-bit little-endian operand; otherwise it advances past the operand
/// bytes without jumping.
pub open spec fn spec_jump(s: CpuState, cond: bool) -> CpuState {
    if cond {
        CpuState { pc: addr_operand(s), ..s }
    } else {
        advanced(s, 3)
    }
}

/// Call: when the condition holds, the return address (already past the
/// 3-byte instruction) is pushed, high byte first, and the program
/// counter becomes the operand address; otherwise only the operand bytes
/// are consumed.
pub open spec fn spec_call(s: CpuState, cond: bool) -> CpuState {
    if cond {
        let target = addr_operand(s);
        CpuState { pc: target, ..spec_push_word(s, wrap_add16(s.pc, 3)) }
    } else {
        advanced(s, 3)
    }
}

/// Restart: the address after the one-byte instruction is pushed and the
/// program counter becomes the fixed vector held in bits 3-5 of the
/// opcode, one of 0, 8, 16, ..., 56.
pub open spec fn spec_rst(s: CpuState, op: u8) -> CpuState {
    let vector = (((op / 8) % 8) * 8) as u16;
    CpuState { pc: vector, ..spec_push_word(s, wrap_add16(s.pc, 1)) }
}

/// Pop into a register pair, or, for the processor-status-word form,
/// into the accumulator and the five flags unpacked from one byte.
pub open spec fn spec_pop(s: CpuState, op: u8) -> CpuState {
    let lsb = mem_at(s, s.sp);
    let msb = mem_at(s, wrap_add16(s.sp, 1));
    let s2 = CpuState { sp: wrap_add16(s.sp, 2), ..s };
    if op == 0xC1 {
        advanced(CpuState { b: msb, c: lsb, ..s2 }, 1)
    } else if op == 0xD1 {
        advanced(CpuState { d: msb, e: lsb, ..s2 }, 1)
    } else if op == 0xE1 {
        advanced(CpuState { h: msb, l: lsb, ..s2 }, 1)
    } else {
        advanced(CpuState { a: msb, flags: unpack_flags(lsb), ..s2 }, 1)
    }
}

/// The five flags unpacked from a processor-status-word byte: bit 7
/// Sign, bit 6 Zero, bit 4 Auxiliary-Carry, bit 2 Parity, bit 0 Carry.
pub open spec fn unpack_flags(lsb: u8) -> Flags {
    Flags {
        s: (lsb / 128) % 2 == 1,
        z: (lsb / 64) % 2 == 1,
        ac: (lsb / 16) % 2 == 1,
        p: (lsb / 4) % 2 == 1,
        cy: lsb % 2 == 1,
    }
}

/// The five flags packed into a processor-status-word byte; bit 1 is
/// fixed at 1 and bits 3 and 5 at 0.
pub open spec fn pack_flags(f: Flags) -> u8 {
    ((if f.s { 128int } else { 0int }) + (if f.z { 64int } else { 0int }) + (if f.ac {
        16int
    } else {
        0int
    }) + (if f.p { 4int } else { 0int }) + 2 + (if f.cy { 1int } else { 0int })) as u8
}

/// Push a register pair, or, for the processor-status-word form, the
/// accumulator and the packed flag byte.
pub open spec fn spec_push_op(s: CpuState, op: u8) -> CpuState {
    let v = if op == 0xC5 {
        pair16(s.b, s.c)
    } else if op == 0xD5 {
        pair16(s.d, s.e)
    } else if op == 0xE5 {
        pair16(s.h, s.l)
    } else {
        pair16(s.a, pack_flags(s.flags))
    };
    advanced(spec_push_word(s, v), 1)
}

/// Exchange the top of the stack with H and L.
pub open spec fn spec_xthl(s: CpuState) -> CpuState {
    let lo = mem_at(s, s.sp);
    let hi = mem_at(s, wrap_add16(s.sp, 1));
    let m = s.mem.update(s.sp as int, s.l).update(wrap_add16(s.sp, 1) as int, s.h);
    advanced(CpuState { h: hi, l: lo, mem: m, ..s }, 1)
}

/// Exchange the D/E and H/L pairs.
pub open spec fn spec_xchg(s: CpuState) -> CpuState {
    advanced(CpuState { d: s.h, e: s.l, h: s.d, l: s.e, ..s }, 1)
}

/// The H/L pair becomes the program counter.
pub open spec fn spec_pchl(s: CpuState) -> CpuState {
    CpuState { pc: pair16(s.h, s.l), ..s }
}

/// The H/L pair becomes the stack pointer.
pub open spec fn spec_sphl(s: CpuState) -> CpuState {
    advanced(CpuState { sp: pair16(s.h, s.l), ..s }, 1)
}

/// Set or clear the interrupt-enable bit.
pub open spec fn spec_set_ie(s: CpuState, enabled: bool) -> CpuState {
    advanced(CpuState { ie: enabled, ..s }, 1)
}

/// A host-delivered hardware interrupt, between instruction boundaries:
/// as if a restart to vector `8 * (num % 8)` had just been decoded, with
/// no instruction byte consumed, so the address pushed is the program
/// counter as it stands.
pub open spec fn spec_interrupt(s: CpuState, num: u8) -> CpuState {
    CpuState { pc: (((num % 8) * 8)) as u16, ..spec_push_word(s, s.pc) }
}

// ---------------------------------------------------------------------------
// The full decode table.
// ---------------------------------------------------------------------------
/// The byte values that alias to a do-nothing instruction. They carry no
/// distinct behaviour in this processor family and must not fail.
pub open spec fn is_nop_code(op: u8) -> bool {
    op == 0x00 || op == 0x08 || op == 0x10 || op == 0x18 || op == 0x20 || op == 0x28 || op == 0x30
        || op == 0x38 || op == 0xCB || op == 0xD9 || op == 0xDD || op == 0xED || op == 0xFD
}

/// The two port instructions, resolved by the host rather than here.
pub open spec fn is_port_code(op: u8) -> bool {
    op == 0xD3 || op == 0xDB
}

/// The exact effect of executing the opcode byte `op` fetched at the
/// program counter of `s`. Total over all 256 byte values; the two port
/// instructions leave the state unchanged, their behaviour being the
/// host's to resolve.
pub open spec fn spec_execute(s: CpuState, op: u8) -> CpuState {
    if is_nop_code(op) {
        spec_nop(s)
    } else if op == 0x01 || op == 0x11 || op == 0x21 || op == 0x31 {
        spec_lxi(s, op)
    } else if op == 0x02 || op == 0x12 {
        spec_stax(s, op)
    } else if op == 0x03 || op == 0x13 || op == 0x23 || op == 0x33 {
        spec_inx(s, op)
    } else if op == 0x04 || op == 0x0C || op == 0x14 || op == 0x1C || op == 0x24 || op == 0x2C
        || op == 0x34 || op == 0x3C {
        spec_inr(s, op)
    } else if op == 0x05 || op == 0x0D || op == 0x15 || op == 0x1D || op == 0x25 || op == 0x2D
        || op == 0x35 || op == 0x3D {
        spec_dcr(s, op)
    } else if op == 0x06 || op == 0x0E || op == 0x16 || op == 0x1E || op == 0x26 || op == 0x2E
        || op == 0x36 || op == 0x3E {
        spec_mvi(s, op)
    } else if op == 0x07 {
        spec_rlc(s)
    } else if op == 0x09 || op == 0x19 || op == 0x29 || op == 0x39 {
        spec_dad(s, op)
    } else if op == 0x0F {
        spec_rrc(s)
    } else if op == 0x0A || op == 0x1A {
        spec_ldax(s, op)
    } else if op == 0x0B || op == 0x1B || op == 0x2B || op == 0x3B {
        spec_dcx(s, op)
    } else if op == 0x17 {
        spec_ral(s)
    } else if op == 0x1F {
        spec_rar(s)
    } else if op == 0x22 {
        spec_shld(s)
    } else if op == 0x27 {
        spec_daa(s)
    } else if op == 0x2A {
        spec_lhld(s)
    } else if op == 0x2F {
        spec_cma(s)
    } else if op == 0x32 {
        spec_sta(s)
    } else if op == 0x37 {
        spec_stc(s)
    } else if op == 0x3A {
        spec_lda(s)
    } else if op == 0x3F {
        spec_cmc(s)
    } else if op == 0x76 {
        spec_hlt(s)
    } else if 0x40 <= op && op <= 0x7F {
        spec_mov(s, op)
    } else if 0x80 <= op && op <= 0x87 {
        advanced(spec_addition(s, selected_reg(s, op % 8)), 1)
    } else if 0x88 <= op && op <= 0x8F {
        advanced(spec_addition(s, carry_operand(s, selected_reg(s, op % 8))), 1)
    } else if 0x90 <= op && op <= 0x97 {
        advanced(spec_subtraction(s, selected_reg(s, op % 8)), 1)
    } else if 0x98 <= op && op <= 0x9F {
        advanced(spec_subtraction(s, carry_operand(s, selected_reg(s, op % 8))), 1)
    } else if 0xA0 <= op && op <= 0xA7 {
        advanced(spec_and(s, selected_reg(s, op % 8)), 1)
    } else if 0xA8 <= op && op <= 0xAF {
        advanced(spec_xor(s, selected_reg(s, op % 8)), 1)
    } else if 0xB0 <= op && op <= 0xB7 {
        advanced(spec_or(s, selected_reg(s, op % 8)), 1)
    } else if 0xB8 <= op && op <= 0xBF {
        advanced(spec_compare(s, selected_reg(s, op % 8)), 1)
    } else if op == 0xC9 {
        spec_ret(s, true)
    } else if op == 0xC0 || op == 0xC8 || op == 0xD0 || op == 0xD8 || op == 0xE0 || op == 0xE8
        || op == 0xF0 || op == 0xF8 {
        spec_ret(s, spec_condition(s, op))
    } else if op == 0xC1 || op == 0xD1 || op == 0xE1 || op == 0xF1 {
        spec_pop(s, op)
    } else if op == 0xC3 {
        spec_jump(s, true)
    } else if op == 0xC2 || op == 0xCA || op == 0xD2 || op == 0xDA || op == 0xE2 || op == 0xEA
        || op == 0xF2 || op == 0xFA {
        spec_jump(s, spec_condition(s, op))
    } else if op == 0xCD {
        spec_call(s, true)
    } else if op == 0xC4 || op == 0xCC || op == 0xD4 || op == 0xDC || op == 0xE4 || op == 0xEC
        || op == 0xF4 || op == 0xFC {
        spec_call(s, spec_condition(s, op))
    } else if op == 0xC5 || op == 0xD5 || op == 0xE5 || op == 0xF5 {
        spec_push_op(s, op)
    } else if op == 0xC6 {
        advanced(spec_addition(s, imm1(s)), 2)
    } else if op == 0xCE {
        advanced(spec_addition(s, carry_operand(s, imm1(s))), 2)
    } else if op == 0xD6 {
        advanced(spec_subtraction(s, imm1(s)), 2)
    } else if op == 0xDE {
        advanced(spec_subtraction(s, carry_operand(s, imm1(s))), 2)
    } else if op == 0xE6 {
        advanced(spec_and(s, imm1(s)), 2)
    } else if op == 0xEE {
        advanced(spec_xor(s, imm1(s)), 2)
    } else if op == 0xF6 {
        advanced(spec_or(s, imm1(s)), 2)
    } else if op == 0xFE {
        advanced(spec_compare(s, imm1(s)), 2)
    } else if op == 0xC7 || op == 0xCF || op == 0xD7 || op == 0xDF || op == 0xE7 || op == 0xEF
        || op == 0xF7 || op == 0xFF {
        spec_rst(s, op)
    } else if is_port_code(op) {
        s
    } else if op == 0xE3 {
        spec_xthl(s)
    } else if op == 0xE9 {
        spec_pchl(s)
    } else if op == 0xEB {
        spec_xchg(s)
    } else if op == 0xF3 {
        spec_set_ie(s, false)
    } else if op == 0xF9 {
        spec_sphl(s)
    } else {
        spec_set_ie(s, true)
    }
}

/// One step of the execution engine: fetch the byte at the program
/// counter and perform its exact effect.
pub open spec fn spec_step(s: CpuState) -> CpuState {
    spec_execute(s, mem_at(s, s.pc))
}

} // verus!
