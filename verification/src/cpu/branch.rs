//! The control-flow instructions: jump, call and return, each in an
//! unconditional form and eight conditional variants keyed off the four
//! comparison flags in both polarities, and the 8-way restart. The three
//! conditional families share one "evaluate the condition, then either
//! perform the full effect or only consume the operand bytes" shape, so
//! the program counter is advanced exactly once per instruction.
use vstd::prelude::*;
use crate::cpu::Cpu;
use crate::cpu::pointers::Pointer;
use crate::cpu::semantics::spec_call;
use crate::cpu::semantics::spec_condition;
use crate::cpu::semantics::spec_jump;
use crate::cpu::semantics::spec_ret;
use crate::cpu::semantics::spec_rst;

verus! {

impl Cpu {
    /// The condition named by bits 3-5 of a conditional jump, call or
    /// return opcode.
    fn evaluate_condition(&self, code: u8) -> (r: bool)
        ensures
            r == spec_condition(self@, code),
    {
        let idx: u8 = (code / 8) % 8;
        if idx == 0 {
            !self.flags.z
        } else if idx == 1 {
            self.flags.z
        } else if idx == 2 {
            !self.flags.cy
        } else if idx == 3 {
            self.flags.cy
        } else if idx == 4 {
            !self.flags.p
        } else if idx == 5 {
            self.flags.p
        } else if idx == 6 {
            !self.flags.s
        } else {
            self.flags.s
        }
    }

    /// Jump: when the condition holds the program counter becomes the
    /// 16-bit little-endian operand; otherwise it advances past the two
    /// operand bytes without jumping.
    pub fn jump_operation(&mut self, true_condition: bool)
        requires
            old(self).wf(),
        ensures
            final(self).wf(),
            final(self)@ == spec_jump(old(self)@, true_condition),
    {
        if true_condition {
            self.pc = Pointer { x: self.get_memory_reference() };
        } else {
            self.increment_pc(3);
        }
    }

    /// The unconditional jump and its eight conditional variants
    /// (0xC3; 0xC2, 0xCA, 0xD2, 0xDA, 0xE2, 0xEA, 0xF2, 0xFA).
    pub(crate) fn do_jump(&mut self, code: u8)
        requires
            old(self).wf(),
            code == 0xC2 || code == 0xC3 || code == 0xCA || code == 0xD2 || code == 0xDA || code
                == 0xE2 || code == 0xEA || code == 0xF2 || code == 0xFA,
        ensures
            final(self).wf(),
            final(self)@ == (if code == 0xC3 {
                spec_jump(old(self)@, true)
            } else {
                spec_jump(old(self)@, spec_condition(old(self)@, code))
            }),
    {
        let cond: bool = if code == 0xC3 {
            true
        } else {
            self.evaluate_condition(code)
        };
        self.jump_operation(cond);
    }

    /// Call: when the condition holds the return address (already past
    /// the 3-byte instruction) is pushed, high byte first, and the
    /// program counter becomes the operand address; otherwise only the
    /// operand bytes are consumed.
    pub fn call_subroutine(&mut self, true_condition: bool)
        requires
            old(self).wf(),
        ensures
            final(self).wf(),
            final(self)@ == spec_call(old(self)@, true_condition),
    {
        if true_condition {
            let mem_ref: u16 = self.get_memory_reference();
            let ret_addr: u16 = self.pc.wrapping_forward(3).value();
            self.push_to_stack(ret_addr);
            self.pc = Pointer { x: mem_ref };
        } else {
            self.increment_pc(3);
        }
    }

    /// The unconditional call and its eight conditional variants
    /// (0xCD; 0xC4, 0xCC, 0xD4, 0xDC, 0xE4, 0xEC, 0xF4, 0xFC).
    pub(crate) fn do_call(&mut self, code: u8)
        requires
            old(self).wf(),
            code == 0xC4 || code == 0xCC || code == 0xCD || code == 0xD4 || code == 0xDC || code
                == 0xE4 || code == 0xEC || code == 0xF4 || code == 0xFC,
        ensures
            final(self).wf(),
            final(self)@ == (if code == 0xCD {
                spec_call(old(self)@, true)
            } else {
                spec_call(old(self)@, spec_condition(old(self)@, code))
            }),
    {
        let cond: bool = if code == 0xCD {
            true
        } else {
            self.evaluate_condition(code)
        };
        self.call_subroutine(cond);
    }

    /// Return: when the condition holds two bytes are popped into the
    /// program counter, low byte first; otherwise only the opcode byte
    /// is consumed.
    pub fn return_from_subroutine(&mut self, true_condition: bool)
        requires
            old(self).wf(),
        ensures
            final(self).wf(),
            final(self)@ == spec_ret(old(self)@, true_condition),
    {
        if true_condition {
            let (msb, lsb): (u8, u8) = self.pop_off_stack();
            self.pc = Pointer { x: Cpu::get_pair_value(msb, lsb) };
        } else {
            self.increment_pc(1);
        }
    }

    /// The unconditional return and its eight conditional variants
    /// (0xC9; 0xC0, 0xC8, 0xD0, 0xD8, 0xE0, 0xE8, 0xF0, 0xF8).
    pub(crate) fn do_return(&mut self, code: u8)
        requires
            old(self).wf(),
            code == 0xC0 || code == 0xC8 || code == 0xC9 || code == 0xD0 || code == 0xD8 || code
                == 0xE0 || code == 0xE8 || code == 0xF0 || code == 0xF8,
        ensures
            final(self).wf(),
            final(self)@ == (if code == 0xC9 {
                spec_ret(old(self)@, true)
            } else {
                spec_ret(old(self)@, spec_condition(old(self)@, code))
            }),
    {
        let cond: bool = if code == 0xC9 {
            true
        } else {
            self.evaluate_condition(code)
        };
        self.return_from_subroutine(cond);
    }

    /// Restart: the address after the one-byte instruction is pushed
    /// and the program counter becomes the fixed vector held in bits
    /// 3-5 of the opcode, one of 0, 8, 16, ..., 56 (0xC7, 0xCF, ...,
    /// 0xFF).
    pub fn rst_operation(&mut self, code: u8)
        requires
            old(self).wf(),
            code == 0xC7 || code == 0xCF || code == 0xD7 || code == 0xDF || code == 0xE7 || code
                == 0xEF || code == 0xF7 || code == 0xFF,
        ensures
            final(self).wf(),
            final(self)@ == spec_rst(old(self)@, code),
    {
        let ret_addr: u16 = self.pc.wrapping_forward(1).value();
        self.push_to_stack(ret_addr);
        let vector: u16 = (((code / 8) % 8) as u16) * 8;
        self.pc = Pointer { x: vector };
    }
}

} // verus!
