//! The arithmetic, logical, compare, increment/decrement, rotate and
//! decimal-adjust instructions. The eight closely related opcode groups
//! share one parameterised routine per underlying operation, each taking
//! an already resolved operand byte.
use vstd::prelude::*;
use crate::cpu::Cpu;
use crate::cpu::flags::Flags;
use crate::cpu::registers::Register;
use crate::cpu::semantics::advanced;
use crate::cpu::semantics::aux_carry;
use crate::cpu::semantics::carry_operand;
use crate::cpu::semantics::selected_reg;
use crate::cpu::semantics::spec_addition;
use crate::cpu::semantics::spec_and;
use crate::cpu::semantics::spec_cma;
use crate::cpu::semantics::spec_cmc;
use crate::cpu::semantics::spec_compare;
use crate::cpu::semantics::spec_daa;
use crate::cpu::semantics::spec_dcr;
use crate::cpu::semantics::spec_inr;
use crate::cpu::semantics::spec_or;
use crate::cpu::semantics::spec_ral;
use crate::cpu::semantics::spec_rar;
use crate::cpu::semantics::spec_rlc;
use crate::cpu::semantics::spec_rrc;
use crate::cpu::semantics::spec_stc;
use crate::cpu::semantics::spec_subtraction;
use crate::cpu::semantics::spec_xor;
use crate::cpu::semantics::zsp_flags;
use crate::cpu::semantics::spec_parity;

verus! {

/// Whether the byte's bit count is even: the Parity flag of a result.
fn parity_of(v: u8) -> (r: bool)
    ensures
        r == spec_parity(v),
{
    let count: u8 = (v % 2) + (v / 2 % 2) + (v / 4 % 2) + (v / 8 % 2) + (v / 16 % 2) + (v / 32 % 2)
        + (v / 64 % 2) + (v / 128 % 2);
    count % 2 == 0
}

/// Whether adding `x` and `y` carries out of bit 3.
fn aux_of(x: u8, y: u8) -> (r: bool)
    ensures
        r == aux_carry(x, y),
{
    (x % 16) + (y % 16) >= 16
}

/// Zero, Sign and Parity recomputed from a result byte, packaged with
/// the given Auxiliary-Carry and Carry.
fn flags_for(r: u8, ac: bool, cy: bool) -> (f: Flags)
    ensures
        f == zsp_flags(r, ac, cy),
{
    Flags { z: r == 0, s: r >= 128, p: parity_of(r), ac, cy }
}

impl Cpu {
    /// The additive core shared by the add families: the accumulator
    /// gains the resolved operand and all five flags are recomputed.
    pub(crate) fn addition(&mut self, val: u8)
        requires
            old(self).wf(),
        ensures
            final(self).wf(),
            final(self)@ == spec_addition(old(self)@, val),
    {
        let a: u8 = self.a.value();
        let r: u8 = a.wrapping_add(val);
        let cy: bool = (a as u16) + (val as u16) > 255;
        self.flags = flags_for(r, aux_of(a, val), cy);
        self.a = Register(r);
    }

    /// The subtractive core shared by the subtract and compare
    /// families, performed as addition of the two's complement. Carry
    /// means "borrow occurred", the negation of the native no-underflow
    /// result.
    pub(crate) fn subtraction(&mut self, val: u8)
        requires
            old(self).wf(),
        ensures
            final(self).wf(),
            final(self)@ == spec_subtraction(old(self)@, val),
    {
        let a: u8 = self.a.value();
        let n: u8 = 0u8.wrapping_sub(val);
        let r: u8 = a.wrapping_add(n);
        let cy: bool = a < val;
        self.flags = flags_for(r, aux_of(a, n), cy);
        self.a = Register(r);
    }

    /// Compare: the subtractive core's flags with the accumulator left
    /// unchanged.
    pub(crate) fn compare(&mut self, val: u8)
        requires
            old(self).wf(),
        ensures
            final(self).wf(),
            final(self)@ == spec_compare(old(self)@, val),
    {
        let a: u8 = self.a.value();
        let n: u8 = 0u8.wrapping_sub(val);
        let r: u8 = a.wrapping_add(n);
        let cy: bool = a < val;
        self.flags = flags_for(r, aux_of(a, n), cy);
    }

    /// Add the selected register (opcodes 0x80-0x87).
    pub fn add_operation(&mut self, code: u8)
        requires
            old(self).wf(),
            0x80 <= code <= 0x87,
        ensures
            final(self).wf(),
            final(self)@ == advanced(
                spec_addition(old(self)@, selected_reg(old(self)@, code % 8)),
                1,
            ),
    {
        let val: u8 = self.get_reg_value(code);
        self.addition(val);
        self.increment_pc(1);
    }

    /// Add the selected register plus the incoming Carry (0x88-0x8F).
    pub fn adc_operation(&mut self, code: u8)
        requires
            old(self).wf(),
            0x88 <= code <= 0x8F,
        ensures
            final(self).wf(),
            final(self)@ == advanced(
                spec_addition(old(self)@, carry_operand(old(self)@, selected_reg(old(self)@, code % 8))),
                1,
            ),
    {
        let val: u8 = self.get_reg_value(code);
        let operand: u8 = if self.flags.cy {
            val.wrapping_add(1)
        } else {
            val
        };
        self.addition(operand);
        self.increment_pc(1);
    }

    /// Subtract the selected register (0x90-0x97).
    pub fn sub_operation(&mut self, code: u8)
        requires
            old(self).wf(),
            0x90 <= code <= 0x97,
        ensures
            final(self).wf(),
            final(self)@ == advanced(
                spec_subtraction(old(self)@, selected_reg(old(self)@, code % 8)),
                1,
            ),
    {
        let val: u8 = self.get_reg_value(code);
        self.subtraction(val);
        self.increment_pc(1);
    }

    /// Subtract the selected register plus the incoming Carry
    /// (0x98-0x9F).
    #[verifier::rlimit(30)]
    pub fn sbb_operation(&mut self, code: u8)
        requires
            old(self).wf(),
            0x98 <= code <= 0x9F,
        ensures
            final(self).wf(),
            final(self)@ == advanced(
                spec_subtraction(
                    old(self)@,
                    carry_operand(old(self)@, selected_reg(old(self)@, code % 8)),
                ),
                1,
            ),
    {
        let val: u8 = self.get_reg_value(code);
        let operand: u8 = if self.flags.cy {
            val.wrapping_add(1)
        } else {
            val
        };
        self.subtraction(operand);
        self.increment_pc(1);
    }

    /// AND the selected register into the accumulator (0xA0-0xA7).
    pub fn ana_operation(&mut self, code: u8)
        requires
            old(self).wf(),
            0xA0 <= code <= 0xA7,
        ensures
            final(self).wf(),
            final(self)@ == advanced(spec_and(old(self)@, selected_reg(old(self)@, code % 8)), 1),
    {
        let val: u8 = self.get_reg_value(code);
        let a: u8 = self.a.value();
        let r: u8 = a & val;
        self.flags = flags_for(r, aux_of(a, val), false);
        self.a = Register(r);
        self.increment_pc(1);
    }

    /// Exclusive-OR the selected register into the accumulator
    /// (0xA8-0xAF).
    pub fn xra_operation(&mut self, code: u8)
        requires
            old(self).wf(),
            0xA8 <= code <= 0xAF,
        ensures
            final(self).wf(),
            final(self)@ == advanced(spec_xor(old(self)@, selected_reg(old(self)@, code % 8)), 1),
    {
        let val: u8 = self.get_reg_value(code);
        let a: u8 = self.a.value();
        let r: u8 = a ^ val;
        self.flags = flags_for(r, aux_of(a, val), false);
        self.a = Register(r);
        self.increment_pc(1);
    }

    /// OR the selected register into the accumulator (0xB0-0xB7).
    pub fn ora_operation(&mut self, code: u8)
        requires
            old(self).wf(),
            0xB0 <= code <= 0xB7,
        ensures
            final(self).wf(),
            final(self)@ == advanced(spec_or(old(self)@, selected_reg(old(self)@, code % 8)), 1),
    {
        let val: u8 = self.get_reg_value(code);
        let a: u8 = self.a.value();
        let r: u8 = a | val;
        self.flags = flags_for(r, aux_of(a, val), false);
        self.a = Register(r);
        self.increment_pc(1);
    }

    /// Compare the selected register with the accumulator (0xB8-0xBF).
    pub fn cmp_operation(&mut self, code: u8)
        requires
            old(self).wf(),
            0xB8 <= code <= 0xBF,
        ensures
            final(self).wf(),
            final(self)@ == advanced(
                spec_compare(old(self)@, selected_reg(old(self)@, code % 8)),
                1,
            ),
    {
        let val: u8 = self.get_reg_value(code);
        self.compare(val);
        self.increment_pc(1);
    }

    /// Add immediate (0xC6).
    pub fn adi(&mut self)
        requires
            old(self).wf(),
        ensures
            final(self).wf(),
            final(self)@ == advanced(
                spec_addition(old(self)@, crate::cpu::semantics::imm1(old(self)@)),
                2,
            ),
    {
        let val: u8 = self.get_next_byte();
        self.addition(val);
        self.increment_pc(2);
    }

    /// Add immediate plus the incoming Carry (0xCE).
    pub fn aci(&mut self)
        requires
            old(self).wf(),
        ensures
            final(self).wf(),
            final(self)@ == advanced(
                spec_addition(
                    old(self)@,
                    carry_operand(old(self)@, crate::cpu::semantics::imm1(old(self)@)),
                ),
                2,
            ),
    {
        let val: u8 = self.get_next_byte();
        let operand: u8 = if self.flags.cy {
            val.wrapping_add(1)
        } else {
            val
        };
        self.addition(operand);
        self.increment_pc(2);
    }

    /// Subtract immediate (0xD6).
    pub fn sui(&mut self)
        requires
            old(self).wf(),
        ensures
            final(self).wf(),
            final(self)@ == advanced(
                spec_subtraction(old(self)@, crate::cpu::semantics::imm1(old(self)@)),
                2,
            ),
    {
        let val: u8 = self.get_next_byte();
        self.subtraction(val);
        self.increment_pc(2);
    }

    /// Subtract immediate plus the incoming Carry (0xDE).
    pub fn sbi(&mut self)
        requires
            old(self).wf(),
        ensures
            final(self).wf(),
            final(self)@ == advanced(
                spec_subtraction(
                    old(self)@,
                    carry_operand(old(self)@, crate::cpu::semantics::imm1(old(self)@)),
                ),
                2,
            ),
    {
        let val: u8 = self.get_next_byte();
        let operand: u8 = if self.flags.cy {
            val.wrapping_add(1)
        } else {
            val
        };
        self.subtraction(operand);
        self.increment_pc(2);
    }

    /// AND immediate (0xE6).
    pub fn ani(&mut self)
        requires
            old(self).wf(),
        ensures
            final(self).wf(),
            final(self)@ == advanced(
                spec_and(old(self)@, crate::cpu::semantics::imm1(old(self)@)),
                2,
            ),
    {
        let val: u8 = self.get_next_byte();
        let a: u8 = self.a.value();
        let r: u8 = a & val;
        self.flags = flags_for(r, aux_of(a, val), false);
        self.a = Register(r);
        self.increment_pc(2);
    }

    /// Exclusive-OR immediate (0xEE).
    pub fn xri(&mut self)
        requires
            old(self).wf(),
        ensures
            final(self).wf(),
            final(self)@ == advanced(
                spec_xor(old(self)@, crate::cpu::semantics::imm1(old(self)@)),
                2,
            ),
    {
        let val: u8 = self.get_next_byte();
        let a: u8 = self.a.value();
        let r: u8 = a ^ val;
        self.flags = flags_for(r, aux_of(a, val), false);
        self.a = Register(r);
        self.increment_pc(2);
    }

    /// OR immediate (0xF6).
    pub fn ori(&mut self)
        requires
            old(self).wf(),
        ensures
            final(self).wf(),
            final(self)@ == advanced(
                spec_or(old(self)@, crate::cpu::semantics::imm1(old(self)@)),
                2,
            ),
    {
        let val: u8 = self.get_next_byte();
        let a: u8 = self.a.value();
        let r: u8 = a | val;
        self.flags = flags_for(r, aux_of(a, val), false);
        self.a = Register(r);
        self.increment_pc(2);
    }

    /// Compare immediate (0xFE).
    pub fn cpi(&mut self)
        requires
            old(self).wf(),
        ensures
            final(self).wf(),
            final(self)@ == advanced(
                spec_compare(old(self)@, crate::cpu::semantics::imm1(old(self)@)),
                2,
            ),
    {
        let val: u8 = self.get_next_byte();
        self.compare(val);
        self.increment_pc(2);
    }

    /// Increment the register or indirect memory cell selected by the
    /// opcode; Carry is not touched (0x04, 0x0C, ..., 0x3C).
    pub fn inr_operation(&mut self, code: u8)
        requires
            old(self).wf(),
            code == 0x04 || code == 0x0C || code == 0x14 || code == 0x1C || code == 0x24 || code
                == 0x2C || code == 0x34 || code == 0x3C,
        ensures
            final(self).wf(),
            final(self)@ == spec_inr(old(self)@, code),
    {
        let sel: u8 = (code / 8) % 8;
        let v: u8 = self.get_reg_value(sel);
        let r: u8 = v.wrapping_add(1);
        let cy: bool = self.flags.cy;
        self.flags = flags_for(r, aux_of(v, 1), cy);
        self.set_selected(sel, r);
        self.increment_pc(1);
    }

    /// Decrement the register or indirect memory cell selected by the
    /// opcode; Carry is not touched (0x05, 0x0D, ..., 0x3D).
    pub fn dcr_operation(&mut self, code: u8)
        requires
            old(self).wf(),
            code == 0x05 || code == 0x0D || code == 0x15 || code == 0x1D || code == 0x25 || code
                == 0x2D || code == 0x35 || code == 0x3D,
        ensures
            final(self).wf(),
            final(self)@ == spec_dcr(old(self)@, code),
    {
        let sel: u8 = (code / 8) % 8;
        let v: u8 = self.get_reg_value(sel);
        let r: u8 = v.wrapping_sub(1);
        let cy: bool = self.flags.cy;
        self.flags = flags_for(r, aux_of(v, 1), cy);
        self.set_selected(sel, r);
        self.increment_pc(1);
    }

    /// Rotate the accumulator left; the bit shifted out enters both
    /// Carry and bit 0 (0x07).
    pub fn rlc(&mut self)
        requires
            old(self).wf(),
        ensures
            final(self).wf(),
            final(self)@ == spec_rlc(old(self)@),
    {
        let a: u8 = self.a.value();
        let bit7: bool = a >= 128;
        let doubled: u8 = a.wrapping_add(a);
        self.a = Register(if bit7 {
            doubled.wrapping_add(1)
        } else {
            doubled
        });
        self.flags = Flags { cy: bit7, ..self.flags };
        self.increment_pc(1);
    }

    /// Rotate the accumulator right; the bit shifted out enters both
    /// Carry and bit 7 (0x0F).
    pub fn rrc(&mut self)
        requires
            old(self).wf(),
        ensures
            final(self).wf(),
            final(self)@ == spec_rrc(old(self)@),
    {
        let a: u8 = self.a.value();
        let bit0: bool = a % 2 == 1;
        let halved: u8 = a / 2;
        self.a = Register(if bit0 {
            halved + 128
        } else {
            halved
        });
        self.flags = Flags { cy: bit0, ..self.flags };
        self.increment_pc(1);
    }

    /// Rotate the accumulator left through Carry (0x17).
    pub fn ral(&mut self)
        requires
            old(self).wf(),
        ensures
            final(self).wf(),
            final(self)@ == spec_ral(old(self)@),
    {
        let a: u8 = self.a.value();
        let bit7: bool = a >= 128;
        let doubled: u8 = a.wrapping_add(a);
        self.a = Register(if self.flags.cy {
            doubled.wrapping_add(1)
        } else {
            doubled
        });
        self.flags = Flags { cy: bit7, ..self.flags };
        self.increment_pc(1);
    }

    /// Rotate the accumulator right through Carry (0x1F).
    pub fn rar(&mut self)
        requires
            old(self).wf(),
        ensures
            final(self).wf(),
            final(self)@ == spec_rar(old(self)@),
    {
        let a: u8 = self.a.value();
        let bit0: bool = a % 2 == 1;
        let halved: u8 = a / 2;
        self.a = Register(if self.flags.cy {
            halved + 128
        } else {
            halved
        });
        self.flags = Flags { cy: bit0, ..self.flags };
        self.increment_pc(1);
    }

    /// Decimal adjust the accumulator against the documented
    /// binary-coded-decimal correction table (0x27).
    pub fn daa(&mut self)
        requires
            old(self).wf(),
        ensures
            final(self).wf(),
            final(self)@ == spec_daa(old(self)@),
    {
        let a: u8 = self.a.value();
        let ls: u8 = a % 16;
        let ms: u8 = a / 16;
        let lsmod: u8 = if ls > 9 || self.flags.ac {
            ls + 6
        } else {
            ls
        };
        let over_l: bool = lsmod >= 16;
        let ms1: u8 = if over_l {
            ms + 1
        } else {
            ms
        };
        let msmod: u8 = if ms1 > 9 || self.flags.cy {
            ms1 + 6
        } else {
            ms1
        };
        let over_m: bool = msmod >= 16;
        self.a = Register((msmod % 16) * 16 + (lsmod % 16));
        self.flags = Flags { ac: over_l, cy: over_m, ..self.flags };
        self.increment_pc(1);
    }

    /// Complement the accumulator; no flag is affected (0x2F).
    pub fn cma(&mut self)
        requires
            old(self).wf(),
        ensures
            final(self).wf(),
            final(self)@ == spec_cma(old(self)@),
    {
        let a: u8 = self.a.value();
        self.a = Register(255 - a);
        self.increment_pc(1);
    }

    /// Set Carry (0x37).
    pub fn stc(&mut self)
        requires
            old(self).wf(),
        ensures
            final(self).wf(),
            final(self)@ == spec_stc(old(self)@),
    {
        self.flags = Flags { cy: true, ..self.flags };
        self.increment_pc(1);
    }

    /// Complement Carry (0x3F).
    pub fn cmc(&mut self)
        requires
            old(self).wf(),
        ensures
            final(self).wf(),
            final(self)@ == spec_cmc(old(self)@),
    {
        self.flags = Flags { cy: !self.flags.cy, ..self.flags };
        self.increment_pc(1);
    }
}

} // verus!
