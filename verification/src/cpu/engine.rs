//! The execution engine: one call executes exactly one instruction to
//! completion — fetch the byte at the program counter, classify it
//! against the fixed decode table, perform the family's semantics and
//! advance the program counter by exactly the instruction's length.
//! The two port instructions and the interrupt-enable bit form the
//! narrow boundary resolved by the host instead.
use vstd::prelude::*;
use crate::cpu::Cpu;
use crate::cpu::opcode::opcode_info;
use crate::cpu::opcode::Opcode;
use crate::cpu::semantics::advanced;
use crate::cpu::semantics::imm1;
use crate::cpu::semantics::is_port_code;
use crate::cpu::semantics::mem_at;
use crate::cpu::semantics::spec_interrupt;
use crate::cpu::semantics::spec_set_ie;
use crate::cpu::semantics::spec_step;
use crate::cpu::semantics::CpuState;

verus! {

impl Cpu {
    /// Disable interrupts (0xF3).
    fn disable_interrupts(&mut self)
        requires
            old(self).wf(),
        ensures
            final(self).wf(),
            final(self)@ == spec_set_ie(old(self)@, false),
    {
        self.interrupts_enabled = false;
        self.increment_pc(1);
    }

    /// Enable interrupts (0xFB).
    fn enable_interrupts(&mut self)
        requires
            old(self).wf(),
        ensures
            final(self).wf(),
            final(self)@ == spec_set_ie(old(self)@, true),
    {
        self.interrupts_enabled = true;
        self.increment_pc(1);
    }

    /// The instruction byte at the program counter, decoded against the
    /// fixed table. The host uses this to recognise the two port
    /// instructions before asking the engine to execute.
    pub fn get_current_opcode(&self) -> (r: Opcode)
        requires
            self.wf(),
        ensures
            r.code == mem_at(self@, self@.pc),
            r.operation_name@ == opcode_info(mem_at(self@, self@.pc)).name,
            r.cycles == opcode_info(mem_at(self@, self@.pc)).cycles,
            r.next_bytes == opcode_info(mem_at(self@, self@.pc)).operand_bytes,
    {
        Opcode::new(self.memory.read(self.pc.value()))
    }

    /// Completes an input instruction with the byte the host read from
    /// the port: it enters the accumulator and the program counter
    /// advances past the two-byte instruction.
    pub fn input(&mut self, value: u8)
        requires
            old(self).wf(),
        ensures
            final(self).wf(),
            final(self)@ == advanced(
                CpuState { a: value, ..old(self)@ },
                2,
            ),
    {
        self.a = crate::cpu::registers::Register(value);
        self.increment_pc(2);
    }

    /// Performs the engine's half of an output instruction: hands the
    /// host the port number (the operand byte) and the accumulator, and
    /// advances the program counter past the two-byte instruction.
    pub fn output(&mut self) -> (r: (u8, u8))
        requires
            old(self).wf(),
        ensures
            final(self).wf(),
            r.0 == imm1(old(self)@),
            r.1 == old(self)@.a,
            final(self)@ == advanced(old(self)@, 2),
    {
        let port: u8 = self.get_next_byte();
        let value: u8 = self.a.value();
        self.increment_pc(2);
        (port, value)
    }

    /// Host-driven hardware interrupt delivery, between instruction
    /// boundaries: the engine behaves as if a restart to vector
    /// `8 * (num % 8)` had just been decoded, pushing the current
    /// program counter and jumping to the vector.
    pub fn interrupt(&mut self, num: u8)
        requires
            old(self).wf(),
        ensures
            final(self).wf(),
            final(self)@ == spec_interrupt(old(self)@, num),
    {
        let ret_addr: u16 = self.pc.value();
        self.push_to_stack(ret_addr);
        let vector: u16 = ((num % 8) as u16) * 8;
        self.pc = crate::cpu::pointers::Pointer { x: vector };
    }

    /// Executes the instruction at the program counter to completion
    /// and returns its cycle count. Total over all 256 opcode values:
    /// the exact post-state is `spec_step` of the pre-state. The two
    /// port instructions are recognised but not resolved here — the
    /// state is left unchanged and 0 is returned, the host performing
    /// them through `output` and `input` instead.
    #[verifier::rlimit(100)]
    pub fn execute_opcode(&mut self) -> (r: u8)
        requires
            old(self).wf(),
        ensures
            final(self).wf(),
            final(self)@ == spec_step(old(self)@),
            r == (if is_port_code(mem_at(old(self)@, old(self)@.pc)) {
                0u8
            } else {
                opcode_info(mem_at(old(self)@, old(self)@.pc)).cycles
            }),
    {
        let code: u8 = self.memory.read(self.pc.value());
        let op: Opcode = Opcode::new(code);
        if code == 0x01 || code == 0x11 || code == 0x21 || code == 0x31 {
            self.lxi_operation(code);
        } else if code == 0x02 || code == 0x12 {
            self.stax_operation(code);
        } else if code == 0x03 || code == 0x13 || code == 0x23 || code == 0x33 {
            self.inx_operation(code);
        } else if code == 0x04 || code == 0x0C || code == 0x14 || code == 0x1C || code == 0x24
            || code == 0x2C || code == 0x34 || code == 0x3C {
            self.inr_operation(code);
        } else if code == 0x05 || code == 0x0D || code == 0x15 || code == 0x1D || code == 0x25
            || code == 0x2D || code == 0x35 || code == 0x3D {
            self.dcr_operation(code);
        } else if code == 0x06 || code == 0x0E || code == 0x16 || code == 0x1E || code == 0x26
            || code == 0x2E || code == 0x36 || code == 0x3E {
            self.mvi_operation(code);
        } else if code == 0x07 {
            self.rlc();
        } else if code == 0x09 || code == 0x19 || code == 0x29 || code == 0x39 {
            self.dad_operation(code);
        } else if code == 0x0F {
            self.rrc();
        } else if code == 0x0A || code == 0x1A {
            self.ldax_operation(code);
        } else if code == 0x0B || code == 0x1B || code == 0x2B || code == 0x3B {
            self.dcx_operation(code);
        } else if code == 0x17 {
            self.ral();
        } else if code == 0x1F {
            self.rar();
        } else if code == 0x22 {
            self.shld();
        } else if code == 0x27 {
            self.daa();
        } else if code == 0x2A {
            self.lhld();
        } else if code == 0x2F {
            self.cma();
        } else if code == 0x32 {
            self.sta();
        } else if code == 0x37 {
            self.stc();
        } else if code == 0x3A {
            self.lda();
        } else if code == 0x3F {
            self.cmc();
        } else if code == 0x76 {
            self.hlt();
        } else if 0x40 <= code && code <= 0x47 {
            self.mov_b_operation(code);
        } else if 0x48 <= code && code <= 0x4F {
            self.mov_c_operation(code);
        } else if 0x50 <= code && code <= 0x57 {
            self.mov_d_operation(code);
        } else if 0x58 <= code && code <= 0x5F {
            self.mov_e_operation(code);
        } else if 0x60 <= code && code <= 0x67 {
            self.mov_h_operation(code);
        } else if 0x68 <= code && code <= 0x6F {
            self.mov_l_operation(code);
        } else if 0x70 <= code && code <= 0x75 || code == 0x77 {
            self.mov_m_operation(code);
        } else if 0x78 <= code && code <= 0x7F {
            self.mov_a_operation(code);
        } else if 0x80 <= code && code <= 0x87 {
            self.add_operation(code);
        } else if 0x88 <= code && code <= 0x8F {
            self.adc_operation(code);
        } else if 0x90 <= code && code <= 0x97 {
            self.sub_operation(code);
        } else if 0x98 <= code && code <= 0x9F {
            self.sbb_operation(code);
        } else if 0xA0 <= code && code <= 0xA7 {
            self.ana_operation(code);
        } else if 0xA8 <= code && code <= 0xAF {
            self.xra_operation(code);
        } else if 0xB0 <= code && code <= 0xB7 {
            self.ora_operation(code);
        } else if 0xB8 <= code && code <= 0xBF {
            self.cmp_operation(code);
        } else if code == 0xC0 || code == 0xC8 || code == 0xC9 || code == 0xD0 || code == 0xD8
            || code == 0xE0 || code == 0xE8 || code == 0xF0 || code == 0xF8 {
            self.do_return(code);
        } else if code == 0xC1 || code == 0xD1 || code == 0xE1 || code == 0xF1 {
            self.pop_operation(code);
        } else if code == 0xC2 || code == 0xC3 || code == 0xCA || code == 0xD2 || code == 0xDA
            || code == 0xE2 || code == 0xEA || code == 0xF2 || code == 0xFA {
            self.do_jump(code);
        } else if code == 0xC4 || code == 0xCC || code == 0xCD || code == 0xD4 || code == 0xDC
            || code == 0xE4 || code == 0xEC || code == 0xF4 || code == 0xFC {
            self.do_call(code);
        } else if code == 0xC5 || code == 0xD5 || code == 0xE5 || code == 0xF5 {
            self.push_operation(code);
        } else if code == 0xC6 {
            self.adi();
        } else if code == 0xC7 || code == 0xCF || code == 0xD7 || code == 0xDF || code == 0xE7
            || code == 0xEF || code == 0xF7 || code == 0xFF {
            self.rst_operation(code);
        } else if code == 0xCE {
            self.aci();
        } else if code == 0xD3 || code == 0xDB {
            // A port instruction: recognised, not resolved. The host
            // performs it through `output` or `input`.
            return 0;
        } else if code == 0xD6 {
            self.sui();
        } else if code == 0xDE {
            self.sbi();
        } else if code == 0xE3 {
            self.xthl();
        } else if code == 0xE6 {
            self.ani();
        } else if code == 0xE9 {
            self.pchl();
        } else if code == 0xEB {
            self.xchg();
        } else if code == 0xEE {
            self.xri();
        } else if code == 0xF3 {
            self.disable_interrupts();
        } else if code == 0xF6 {
            self.ori();
        } else if code == 0xF9 {
            self.sphl();
        } else if code == 0xFB {
            self.enable_interrupts();
        } else if code == 0xFE {
            self.cpi();
        } else {
            // Every byte value not matched above aliases to the
            // do-nothing instruction, so the table is total over all
            // 256 values: an unknown opcode cannot occur.
            self.increment_pc(1);
        }
        op.cycles
    }
}

} // verus!
