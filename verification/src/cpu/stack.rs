//! The stack instructions: push and pop of the three general pairs and
//! of the processor status word (accumulator plus packed flags), and the
//! stack/top exchange. The stack grows downward: a push pre-decrements
//! the stack pointer and a pop post-increments it, both wrapping
//! silently at the 65536 boundary.
use vstd::prelude::*;
use crate::cpu::Cpu;
use crate::cpu::registers::Register;
use crate::cpu::semantics::mem_at;
use crate::cpu::semantics::spec_pop;
use crate::cpu::semantics::spec_push_op;
use crate::cpu::semantics::spec_push_word;
use crate::cpu::semantics::spec_xthl;
use crate::cpu::semantics::wrap_add16;
use crate::cpu::semantics::CpuState;

verus! {

impl Cpu {
    /// Pushes a 16-bit value: high byte first, the stack pointer ending
    /// two lower.
    pub(crate) fn push_to_stack(&mut self, val: u16)
        requires
            old(self).wf(),
        ensures
            final(self).wf(),
            final(self)@ == spec_push_word(old(self)@, val),
    {
        let (msb, lsb): (u8, u8) = Cpu::return_split_values(val);
        let above: u16 = self.sp.wrapping_back(1).value();
        let below: u16 = self.sp.wrapping_back(2).value();
        self.memory.write(above, msb);
        self.memory.write(below, lsb);
        self.sp = self.sp.wrapping_back(2);
    }

    /// Pops two bytes, low byte first, the stack pointer ending two
    /// higher; returns them as (high, low).
    pub(crate) fn pop_off_stack(&mut self) -> (r: (u8, u8))
        requires
            old(self).wf(),
        ensures
            final(self).wf(),
            r.0 == mem_at(old(self)@, wrap_add16(old(self)@.sp, 1)),
            r.1 == mem_at(old(self)@, old(self)@.sp),
            final(self)@ == (CpuState { sp: wrap_add16(old(self)@.sp, 2), ..old(self)@ }),
    {
        let lsb: u8 = self.memory.read(self.sp.value());
        let msb: u8 = self.memory.read(self.sp.wrapping_forward(1).value());
        self.sp = self.sp.wrapping_forward(2);
        (msb, lsb)
    }

    /// Push a register pair, or, for 0xF5, the accumulator and the
    /// packed flag byte (bit 7 Sign, bit 6 Zero, bit 4 Auxiliary-Carry,
    /// bit 2 Parity, bit 1 fixed at 1, bit 0 Carry).
    pub fn push_operation(&mut self, code: u8)
        requires
            old(self).wf(),
            code == 0xC5 || code == 0xD5 || code == 0xE5 || code == 0xF5,
        ensures
            final(self).wf(),
            final(self)@ == spec_push_op(old(self)@, code),
    {
        let val: u16 = if code == 0xC5 {
            Cpu::get_pair_value(self.b.value(), self.c.value())
        } else if code == 0xD5 {
            Cpu::get_pair_value(self.d.value(), self.e.value())
        } else if code == 0xE5 {
            Cpu::get_pair_value(self.h.value(), self.l.value())
        } else {
            let lsb: u8 = (if self.flags.s {
                128
            } else {
                0
            }) + (if self.flags.z {
                64
            } else {
                0
            }) + (if self.flags.ac {
                16
            } else {
                0
            }) + (if self.flags.p {
                4
            } else {
                0
            }) + 2 + (if self.flags.cy {
                1
            } else {
                0
            });
            Cpu::get_pair_value(self.a.value(), lsb)
        };
        self.push_to_stack(val);
        self.increment_pc(1);
    }

    /// Pop into a register pair, or, for 0xF1, into the accumulator and
    /// the five flags unpacked from the popped byte.
    pub fn pop_operation(&mut self, code: u8)
        requires
            old(self).wf(),
            code == 0xC1 || code == 0xD1 || code == 0xE1 || code == 0xF1,
        ensures
            final(self).wf(),
            final(self)@ == spec_pop(old(self)@, code),
    {
        let (msb, lsb): (u8, u8) = self.pop_off_stack();
        if code == 0xC1 {
            self.b = Register(msb);
            self.c = Register(lsb);
        } else if code == 0xD1 {
            self.d = Register(msb);
            self.e = Register(lsb);
        } else if code == 0xE1 {
            self.h = Register(msb);
            self.l = Register(lsb);
        } else {
            self.a = Register(msb);
            self.flags = crate::cpu::flags::Flags {
                s: (lsb / 128) % 2 == 1,
                z: (lsb / 64) % 2 == 1,
                ac: (lsb / 16) % 2 == 1,
                p: (lsb / 4) % 2 == 1,
                cy: lsb % 2 == 1,
            };
        }
        self.increment_pc(1);
    }

    /// Exchange the top of the stack with H and L (0xE3).
    pub fn xthl(&mut self)
        requires
            old(self).wf(),
        ensures
            final(self).wf(),
            final(self)@ == spec_xthl(old(self)@),
    {
        let l_val: u8 = self.l.value();
        let h_val: u8 = self.h.value();
        let lo_addr: u16 = self.sp.value();
        let hi_addr: u16 = self.sp.wrapping_forward(1).value();
        let lo: u8 = self.memory.read(lo_addr);
        let hi: u8 = self.memory.read(hi_addr);
        self.l = Register(lo);
        self.h = Register(hi);
        self.memory.write(lo_addr, l_val);
        self.memory.write(hi_addr, h_val);
        self.increment_pc(1);
    }
}

} // verus!
