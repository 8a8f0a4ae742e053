//! The data-transfer instructions: register moves, immediate loads,
//! direct and indirect loads and stores, the 16-bit pair operations and
//! the exchange instructions.
use vstd::prelude::*;
use crate::cpu::Cpu;
use crate::cpu::flags::Flags;
use crate::cpu::pointers::Pointer;
use crate::cpu::registers::Register;
use crate::cpu::semantics::spec_dad;
use crate::cpu::semantics::spec_dcx;
use crate::cpu::semantics::spec_hlt;
use crate::cpu::semantics::spec_inx;
use crate::cpu::semantics::spec_lda;
use crate::cpu::semantics::spec_ldax;
use crate::cpu::semantics::spec_lhld;
use crate::cpu::semantics::spec_lxi;
use crate::cpu::semantics::spec_mov;
use crate::cpu::semantics::spec_mvi;
use crate::cpu::semantics::spec_pchl;
use crate::cpu::semantics::spec_shld;
use crate::cpu::semantics::spec_sphl;
use crate::cpu::semantics::spec_sta;
use crate::cpu::semantics::spec_stax;
use crate::cpu::semantics::spec_xchg;

verus! {

impl Cpu {
    /// Load register pair immediate: the two operand bytes fill B/C,
    /// D/E, H/L or the stack pointer, little-endian (0x01, 0x11, 0x21,
    /// 0x31).
    pub fn lxi_operation(&mut self, code: u8)
        requires
            old(self).wf(),
            code == 0x01 || code == 0x11 || code == 0x21 || code == 0x31,
        ensures
            final(self).wf(),
            final(self)@ == spec_lxi(old(self)@, code),
    {
        let low: u8 = self.memory.read(self.pc.wrapping_forward(1).value());
        let high: u8 = self.memory.read(self.pc.wrapping_forward(2).value());
        if code == 0x01 {
            self.b = Register(high);
            self.c = Register(low);
        } else if code == 0x11 {
            self.d = Register(high);
            self.e = Register(low);
        } else if code == 0x21 {
            self.h = Register(high);
            self.l = Register(low);
        } else {
            self.sp = Pointer { x: Cpu::get_pair_value(high, low) };
        }
        self.increment_pc(3);
    }

    /// Store the accumulator indirect through B/C or D/E (0x02, 0x12).
    pub fn stax_operation(&mut self, code: u8)
        requires
            old(self).wf(),
            code == 0x02 || code == 0x12,
        ensures
            final(self).wf(),
            final(self)@ == spec_stax(old(self)@, code),
    {
        let addr: u16 = if code == 0x02 {
            Cpu::get_pair_value(self.b.value(), self.c.value())
        } else {
            Cpu::get_pair_value(self.d.value(), self.e.value())
        };
        let a: u8 = self.a.value();
        self.memory.write(addr, a);
        self.increment_pc(1);
    }

    /// Load the accumulator indirect through B/C or D/E (0x0A, 0x1A).
    pub fn ldax_operation(&mut self, code: u8)
        requires
            old(self).wf(),
            code == 0x0A || code == 0x1A,
        ensures
            final(self).wf(),
            final(self)@ == spec_ldax(old(self)@, code),
    {
        let addr: u16 = if code == 0x0A {
            Cpu::get_pair_value(self.b.value(), self.c.value())
        } else {
            Cpu::get_pair_value(self.d.value(), self.e.value())
        };
        self.a = Register(self.memory.read(addr));
        self.increment_pc(1);
    }

    /// Increment a 16-bit pair; no flag is affected (0x03, 0x13, 0x23,
    /// 0x33).
    pub fn inx_operation(&mut self, code: u8)
        requires
            old(self).wf(),
            code == 0x03 || code == 0x13 || code == 0x23 || code == 0x33,
        ensures
            final(self).wf(),
            final(self)@ == spec_inx(old(self)@, code),
    {
        if code == 0x03 {
            let v: u16 = Cpu::get_pair_value(self.b.value(), self.c.value()).wrapping_add(1);
            let (x, y): (u8, u8) = Cpu::return_split_values(v);
            self.b = Register(x);
            self.c = Register(y);
        } else if code == 0x13 {
            let v: u16 = Cpu::get_pair_value(self.d.value(), self.e.value()).wrapping_add(1);
            let (x, y): (u8, u8) = Cpu::return_split_values(v);
            self.d = Register(x);
            self.e = Register(y);
        } else if code == 0x23 {
            let v: u16 = Cpu::get_pair_value(self.h.value(), self.l.value()).wrapping_add(1);
            let (x, y): (u8, u8) = Cpu::return_split_values(v);
            self.h = Register(x);
            self.l = Register(y);
        } else {
            self.sp = self.sp.wrapping_forward(1);
        }
        self.increment_pc(1);
    }

    /// Decrement a 16-bit pair; no flag is affected (0x0B, 0x1B, 0x2B,
    /// 0x3B).
    pub fn dcx_operation(&mut self, code: u8)
        requires
            old(self).wf(),
            code == 0x0B || code == 0x1B || code == 0x2B || code == 0x3B,
        ensures
            final(self).wf(),
            final(self)@ == spec_dcx(old(self)@, code),
    {
        if code == 0x0B {
            let v: u16 = Cpu::get_pair_value(self.b.value(), self.c.value()).wrapping_sub(1);
            let (x, y): (u8, u8) = Cpu::return_split_values(v);
            self.b = Register(x);
            self.c = Register(y);
        } else if code == 0x1B {
            let v: u16 = Cpu::get_pair_value(self.d.value(), self.e.value()).wrapping_sub(1);
            let (x, y): (u8, u8) = Cpu::return_split_values(v);
            self.d = Register(x);
            self.e = Register(y);
        } else if code == 0x2B {
            let v: u16 = Cpu::get_pair_value(self.h.value(), self.l.value()).wrapping_sub(1);
            let (x, y): (u8, u8) = Cpu::return_split_values(v);
            self.h = Register(x);
            self.l = Register(y);
        } else {
            self.sp = self.sp.wrapping_back(1);
        }
        self.increment_pc(1);
    }

    /// Move immediate into the register or indirect memory cell named
    /// by the opcode (0x06, 0x0E, ..., 0x3E).
    pub fn mvi_operation(&mut self, code: u8)
        requires
            old(self).wf(),
            code == 0x06 || code == 0x0E || code == 0x16 || code == 0x1E || code == 0x26 || code
                == 0x2E || code == 0x36 || code == 0x3E,
        ensures
            final(self).wf(),
            final(self)@ == spec_mvi(old(self)@, code),
    {
        let sel: u8 = (code / 8) % 8;
        let v: u8 = self.get_next_byte();
        self.set_selected(sel, v);
        self.increment_pc(2);
    }

    /// Move into register B (0x40-0x47).
    pub fn mov_b_operation(&mut self, code: u8)
        requires
            old(self).wf(),
            0x40 <= code <= 0x47,
        ensures
            final(self).wf(),
            final(self)@ == spec_mov(old(self)@, code),
    {
        let v: u8 = self.get_reg_value(code);
        self.b = Register(v);
        self.increment_pc(1);
    }

    /// Move into register C (0x48-0x4F).
    pub fn mov_c_operation(&mut self, code: u8)
        requires
            old(self).wf(),
            0x48 <= code <= 0x4F,
        ensures
            final(self).wf(),
            final(self)@ == spec_mov(old(self)@, code),
    {
        let v: u8 = self.get_reg_value(code);
        self.c = Register(v);
        self.increment_pc(1);
    }

    /// Move into register D (0x50-0x57).
    pub fn mov_d_operation(&mut self, code: u8)
        requires
            old(self).wf(),
            0x50 <= code <= 0x57,
        ensures
            final(self).wf(),
            final(self)@ == spec_mov(old(self)@, code),
    {
        let v: u8 = self.get_reg_value(code);
        self.d = Register(v);
        self.increment_pc(1);
    }

    /// Move into register E (0x58-0x5F).
    pub fn mov_e_operation(&mut self, code: u8)
        requires
            old(self).wf(),
            0x58 <= code <= 0x5F,
        ensures
            final(self).wf(),
            final(self)@ == spec_mov(old(self)@, code),
    {
        let v: u8 = self.get_reg_value(code);
        self.e = Register(v);
        self.increment_pc(1);
    }

    /// Move into register H (0x60-0x67).
    pub fn mov_h_operation(&mut self, code: u8)
        requires
            old(self).wf(),
            0x60 <= code <= 0x67,
        ensures
            final(self).wf(),
            final(self)@ == spec_mov(old(self)@, code),
    {
        let v: u8 = self.get_reg_value(code);
        self.h = Register(v);
        self.increment_pc(1);
    }

    /// Move into register L (0x68-0x6F).
    pub fn mov_l_operation(&mut self, code: u8)
        requires
            old(self).wf(),
            0x68 <= code <= 0x6F,
        ensures
            final(self).wf(),
            final(self)@ == spec_mov(old(self)@, code),
    {
        let v: u8 = self.get_reg_value(code);
        self.l = Register(v);
        self.increment_pc(1);
    }

    /// Move into the memory cell addressed by H/L (0x70-0x75, 0x77).
    pub fn mov_m_operation(&mut self, code: u8)
        requires
            old(self).wf(),
            0x70 <= code <= 0x75 || code == 0x77,
        ensures
            final(self).wf(),
            final(self)@ == spec_mov(old(self)@, code),
    {
        let v: u8 = self.get_reg_value(code);
        let addr: u16 = self.get_hl();
        self.memory.write(addr, v);
        self.increment_pc(1);
    }

    /// Move into the accumulator (0x78-0x7F).
    pub fn mov_a_operation(&mut self, code: u8)
        requires
            old(self).wf(),
            0x78 <= code <= 0x7F,
        ensures
            final(self).wf(),
            final(self)@ == spec_mov(old(self)@, code),
    {
        let v: u8 = self.get_reg_value(code);
        self.a = Register(v);
        self.increment_pc(1);
    }

    /// Halt: modelled as consuming its byte and doing nothing more
    /// (0x76).
    pub fn hlt(&mut self)
        requires
            old(self).wf(),
        ensures
            final(self).wf(),
            final(self)@ == spec_hlt(old(self)@),
    {
        self.increment_pc(1);
    }

    /// 16-bit add of a pair (or the stack pointer) into H/L; only Carry
    /// among the flags is affected (0x09, 0x19, 0x29, 0x39).
    pub fn dad_operation(&mut self, code: u8)
        requires
            old(self).wf(),
            code == 0x09 || code == 0x19 || code == 0x29 || code == 0x39,
        ensures
            final(self).wf(),
            final(self)@ == spec_dad(old(self)@, code),
    {
        let x: u16 = if code == 0x09 {
            Cpu::get_pair_value(self.b.value(), self.c.value())
        } else if code == 0x19 {
            Cpu::get_pair_value(self.d.value(), self.e.value())
        } else if code == 0x29 {
            Cpu::get_pair_value(self.h.value(), self.l.value())
        } else {
            self.sp.value()
        };
        let hl: u16 = self.get_hl();
        let v: u16 = hl.wrapping_add(x);
        let cy: bool = (hl as u32) + (x as u32) > 65535;
        let (hi, lo): (u8, u8) = Cpu::return_split_values(v);
        self.h = Register(hi);
        self.l = Register(lo);
        self.flags = Flags { cy, ..self.flags };
        self.increment_pc(1);
    }

    /// Store H and L direct: L at the operand address, H after it
    /// (0x22).
    pub fn shld(&mut self)
        requires
            old(self).wf(),
        ensures
            final(self).wf(),
            final(self)@ == spec_shld(old(self)@),
    {
        let addr: u16 = self.get_memory_reference();
        let l: u8 = self.l.value();
        let h: u8 = self.h.value();
        self.memory.write(addr, l);
        self.memory.write(addr.wrapping_add(1), h);
        self.increment_pc(3);
    }

    /// Load H and L direct: L from the operand address, H from the
    /// address after it — the exact inverse of the store (0x2A).
    pub fn lhld(&mut self)
        requires
            old(self).wf(),
        ensures
            final(self).wf(),
            final(self)@ == spec_lhld(old(self)@),
    {
        let addr: u16 = self.get_memory_reference();
        self.l = Register(self.memory.read(addr));
        self.h = Register(self.memory.read(addr.wrapping_add(1)));
        self.increment_pc(3);
    }

    /// Store the accumulator direct (0x32).
    pub fn sta(&mut self)
        requires
            old(self).wf(),
        ensures
            final(self).wf(),
            final(self)@ == spec_sta(old(self)@),
    {
        let addr: u16 = self.get_memory_reference();
        let a: u8 = self.a.value();
        self.memory.write(addr, a);
        self.increment_pc(3);
    }

    /// Load the accumulator direct (0x3A).
    pub fn lda(&mut self)
        requires
            old(self).wf(),
        ensures
            final(self).wf(),
            final(self)@ == spec_lda(old(self)@),
    {
        let addr: u16 = self.get_memory_reference();
        self.a = Register(self.memory.read(addr));
        self.increment_pc(3);
    }

    /// Exchange the D/E and H/L pairs (0xEB).
    pub fn xchg(&mut self)
        requires
            old(self).wf(),
        ensures
            final(self).wf(),
            final(self)@ == spec_xchg(old(self)@),
    {
        let h: u8 = self.h.value();
        let l: u8 = self.l.value();
        let d: u8 = self.d.value();
        let e: u8 = self.e.value();
        self.h = Register(d);
        self.l = Register(e);
        self.d = Register(h);
        self.e = Register(l);
        self.increment_pc(1);
    }

    /// The H/L pair becomes the stack pointer (0xF9).
    pub fn sphl(&mut self)
        requires
            old(self).wf(),
        ensures
            final(self).wf(),
            final(self)@ == spec_sphl(old(self)@),
    {
        self.sp = Pointer { x: self.get_hl() };
        self.increment_pc(1);
    }

    /// The H/L pair becomes the program counter (0xE9).
    pub fn pchl(&mut self)
        requires
            old(self).wf(),
        ensures
            final(self).wf(),
            final(self)@ == spec_pchl(old(self)@),
    {
        self.pc = Pointer { x: self.get_hl() };
    }
}

} // verus!
