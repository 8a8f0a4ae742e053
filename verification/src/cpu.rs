//! The interpreter: the register file, the flag set, the memory and the
//! execution engine, together with the narrow port/interrupt boundary
//! exposed to the host.
use vstd::prelude::*;

pub mod flags;
pub mod memory;
pub mod opcode;
pub mod pointers;
pub mod registers;
pub mod semantics;

pub mod laws;

mod arith;
mod branch;
mod engine;
mod stack;
mod transfer;

use crate::cpu::flags::Flags;
use crate::cpu::memory::Memory;
use crate::cpu::memory::MEMORY_SIZE;
use crate::cpu::pointers::Pointer;
use crate::cpu::registers::Register;
use crate::cpu::semantics::CpuState;

verus! {

/// Why a program image could not be placed in memory.
#[derive(Clone, Copy, PartialEq, Eq, Structural, Debug)]
pub enum LoadError {
    /// The image, placed at the requested address, would run past the
    /// end of the 65536-byte address space.
    DoesNotFit,
}

/// One interpreter instance: the whole processor state, exclusively
/// owned, mutated only by instruction execution.
#[derive(Clone, Debug)]
pub struct Cpu {
    pub a: Register,
    pub b: Register,
    pub c: Register,
    pub d: Register,
    pub e: Register,
    pub h: Register,
    pub l: Register,
    pub pc: Pointer,
    pub sp: Pointer,
    pub memory: Memory,
    pub flags: Flags,
    pub interrupts_enabled: bool,
}

impl View for Cpu {
    type V = CpuState;

    open spec fn view(&self) -> CpuState {
        CpuState {
            a: self.a.0,
            b: self.b.0,
            c: self.c.0,
            d: self.d.0,
            e: self.e.0,
            h: self.h.0,
            l: self.l.0,
            pc: self.pc.x,
            sp: self.sp.x,
            mem: self.memory.ram@,
            flags: self.flags,
            ie: self.interrupts_enabled,
        }
    }
}

impl Cpu {
    /// Well-formedness: the memory spans the whole address space. Every
    /// constructor establishes this and every operation preserves it.
    pub open spec fn wf(self) -> bool {
        self@.wf()
    }

    /// A freshly constructed interpreter: every register, pointer, flag
    /// and memory byte is zero and interrupts are disabled.
    pub fn new() -> (r: Self)
        ensures
            r.wf(),
            r@.a == 0 && r@.b == 0 && r@.c == 0 && r@.d == 0 && r@.e == 0 && r@.h == 0 && r@.l
                == 0,
            r@.pc == 0 && r@.sp == 0,
            forall|i: int| 0 <= i < MEMORY_SIZE ==> r@.mem[i] == 0u8,
            r@.flags == (Flags { z: false, s: false, p: false, cy: false, ac: false }),
            r@.ie == false,
    {
        Cpu {
            a: Register::default(),
            b: Register::default(),
            c: Register::default(),
            d: Register::default(),
            e: Register::default(),
            h: Register::default(),
            l: Register::default(),
            pc: Pointer::default(),
            sp: Pointer::default(),
            memory: Memory::default(),
            flags: Flags::default(),
            interrupts_enabled: false,
        }
    }

    /// Copies a program image verbatim into memory starting at
    /// `start_addr`. Succeeds exactly when the image fits within the
    /// address space; on failure nothing is changed.
    pub fn load_rom_into_memory(&mut self, start_addr: usize, rom: &[u8]) -> (r: Result<
        (),
        LoadError,
    >)
        requires
            old(self).wf(),
        ensures
            final(self).wf(),
            r is Ok <==> start_addr + rom@.len() <= MEMORY_SIZE,
            r is Ok ==> {
                &&& final(self)@.mem.len() == old(self)@.mem.len()
                &&& forall|i: int|
                    0 <= i < MEMORY_SIZE ==> final(self)@.mem[i] == (if start_addr <= i
                        < start_addr + rom@.len() {
                        rom@[i - start_addr]
                    } else {
                        old(self)@.mem[i]
                    })
                &&& final(self)@ == (CpuState { mem: final(self)@.mem, ..old(self)@ })
            },
            r is Err ==> final(self)@ == old(self)@,
    {
        if rom.len() > MEMORY_SIZE - start_addr.min(MEMORY_SIZE) || start_addr > MEMORY_SIZE {
            return Err(LoadError::DoesNotFit);
        }
        let mut i: usize = 0;
        while i < rom.len()
            invariant
                self.wf(),
                i <= rom@.len(),
                start_addr + rom@.len() <= MEMORY_SIZE,
                self@.mem.len() == old(self)@.mem.len(),
                forall|j: int|
                    0 <= j < MEMORY_SIZE ==> self@.mem[j] == (if start_addr <= j < start_addr
                        + i {
                        rom@[j - start_addr]
                    } else {
                        old(self)@.mem[j]
                    }),
                self@ == (CpuState { mem: self@.mem, ..old(self)@ }),
            decreases rom@.len() - i,
        {
            self.memory.ram[start_addr + i] = rom[i];
            i = i + 1;
        }
        Ok(())
    }

    // -----------------------------------------------------------------
    // Observation interface: read access to all registers, flags, the
    // pointers and arbitrary memory, for the host and for tests.
    // -----------------------------------------------------------------
    /// The accumulator.
    pub fn get_a(&self) -> (r: u8)
        ensures
            r == self@.a,
    {
        self.a.value()
    }

    /// Register B.
    pub fn get_b(&self) -> (r: u8)
        ensures
            r == self@.b,
    {
        self.b.value()
    }

    /// Register C.
    pub fn get_c(&self) -> (r: u8)
        ensures
            r == self@.c,
    {
        self.c.value()
    }

    /// Register D.
    pub fn get_d(&self) -> (r: u8)
        ensures
            r == self@.d,
    {
        self.d.value()
    }

    /// Register E.
    pub fn get_e(&self) -> (r: u8)
        ensures
            r == self@.e,
    {
        self.e.value()
    }

    /// Register H.
    pub fn get_h(&self) -> (r: u8)
        ensures
            r == self@.h,
    {
        self.h.value()
    }

    /// Register L.
    pub fn get_l(&self) -> (r: u8)
        ensures
            r == self@.l,
    {
        self.l.value()
    }

    /// The program counter: the address of the next byte to fetch.
    pub fn get_pc(&self) -> (r: u16)
        ensures
            r == self@.pc,
    {
        self.pc.value()
    }

    /// The stack pointer: the address of the most recently pushed byte.
    pub fn get_sp(&self) -> (r: u16)
        ensures
            r == self@.sp,
    {
        self.sp.value()
    }

    /// The five condition bits.
    pub fn flags(&self) -> (r: Flags)
        ensures
            r == self@.flags,
    {
        self.flags
    }

    /// Whether the host may deliver a hardware interrupt.
    pub fn interrupts_enabled(&self) -> (r: bool)
        ensures
            r == self@.ie,
    {
        self.interrupts_enabled
    }

    /// The byte in memory at `addr`.
    pub fn read_memory(&self, addr: u16) -> (r: u8)
        requires
            self.wf(),
        ensures
            r == self@.mem[addr as int],
    {
        self.memory.read(addr)
    }

    /// The operand byte after the opcode at the program counter; for a
    /// port instruction this is the port number.
    pub fn get_next_byte(&self) -> (r: u8)
        requires
            self.wf(),
        ensures
            r == semantics::imm1(self@),
    {
        self.memory.read(self.pc.wrapping_forward(1).value())
    }

    // -----------------------------------------------------------------
    // Mutation interface: used by the host to set up state between
    // instructions, and by tests to build fixtures.
    // -----------------------------------------------------------------
    /// Sets the accumulator.
    pub fn set_a(&mut self, v: u8)
        ensures
            final(self)@ == (CpuState { a: v, ..old(self)@ }),
    {
        self.a = Register(v);
    }

    /// Sets register B.
    pub fn set_b(&mut self, v: u8)
        ensures
            final(self)@ == (CpuState { b: v, ..old(self)@ }),
    {
        self.b = Register(v);
    }

    /// Sets register C.
    pub fn set_c(&mut self, v: u8)
        ensures
            final(self)@ == (CpuState { c: v, ..old(self)@ }),
    {
        self.c = Register(v);
    }

    /// Sets register D.
    pub fn set_d(&mut self, v: u8)
        ensures
            final(self)@ == (CpuState { d: v, ..old(self)@ }),
    {
        self.d = Register(v);
    }

    /// Sets register E.
    pub fn set_e(&mut self, v: u8)
        ensures
            final(self)@ == (CpuState { e: v, ..old(self)@ }),
    {
        self.e = Register(v);
    }

    /// Sets register H.
    pub fn set_h(&mut self, v: u8)
        ensures
            final(self)@ == (CpuState { h: v, ..old(self)@ }),
    {
        self.h = Register(v);
    }

    /// Sets register L.
    pub fn set_l(&mut self, v: u8)
        ensures
            final(self)@ == (CpuState { l: v, ..old(self)@ }),
    {
        self.l = Register(v);
    }

    /// Sets the program counter.
    pub fn set_pc(&mut self, v: u16)
        ensures
            final(self)@ == (CpuState { pc: v, ..old(self)@ }),
    {
        self.pc = Pointer { x: v };
    }

    /// Sets the stack pointer.
    pub fn set_sp(&mut self, v: u16)
        ensures
            final(self)@ == (CpuState { sp: v, ..old(self)@ }),
    {
        self.sp = Pointer { x: v };
    }

    /// Sets the five condition bits at once.
    pub fn set_flags(&mut self, f: Flags)
        ensures
            final(self)@ == (CpuState { flags: f, ..old(self)@ }),
    {
        self.flags = f;
    }

    /// Stores `val` in memory at `addr`.
    pub fn write_memory(&mut self, addr: u16, val: u8)
        requires
            old(self).wf(),
        ensures
            final(self).wf(),
            final(self)@ == semantics::with_mem(old(self)@, addr, val),
    {
        self.memory.write(addr, val);
    }

    /// Moves the program counter forward by `n`, wrapping at the 65536
    /// boundary. Used by the engine to consume instruction bytes, and by
    /// the host when it resolves a port instruction itself.
    pub fn increment_pc(&mut self, n: u16)
        ensures
            final(self)@ == semantics::advanced(old(self)@, n),
    {
        self.pc = self.pc.wrapping_forward(n);
    }

    // -----------------------------------------------------------------
    // Shared decode helpers: the single 3-bit register-selector rule and
    // the 16-bit pair conventions, implemented once and reused by every
    // instruction family they appear in.
    // -----------------------------------------------------------------
    /// The H/L pair as a 16-bit memory pointer.
    pub(crate) fn get_hl(&self) -> (r: u16)
        ensures
            r == semantics::hl_pair(self@),
    {
        Cpu::get_pair_value(self.h.value(), self.l.value())
    }

    /// The value selected by the low three bits of `code`: registers
    /// B, C, D, E, H, L, memory through H/L, or the accumulator.
    pub(crate) fn get_reg_value(&self, code: u8) -> (r: u8)
        requires
            self.wf(),
        ensures
            r == semantics::selected_reg(self@, code),
    {
        let sel: u8 = code % 8;
        if sel == 0 {
            self.b.value()
        } else if sel == 1 {
            self.c.value()
        } else if sel == 2 {
            self.d.value()
        } else if sel == 3 {
            self.e.value()
        } else if sel == 4 {
            self.h.value()
        } else if sel == 5 {
            self.l.value()
        } else if sel == 6 {
            self.memory.read(self.get_hl())
        } else {
            self.a.value()
        }
    }

    /// Replaces the value selected by the low three bits of `code`.
    pub(crate) fn set_selected(&mut self, code: u8, val: u8)
        requires
            old(self).wf(),
        ensures
            final(self).wf(),
            final(self)@ == semantics::with_selected(old(self)@, code, val),
    {
        let sel: u8 = code % 8;
        if sel == 0 {
            self.b = Register(val);
        } else if sel == 1 {
            self.c = Register(val);
        } else if sel == 2 {
            self.d = Register(val);
        } else if sel == 3 {
            self.e = Register(val);
        } else if sel == 4 {
            self.h = Register(val);
        } else if sel == 5 {
            self.l = Register(val);
        } else if sel == 6 {
            let addr: u16 = self.get_hl();
            self.memory.write(addr, val);
        } else {
            self.a = Register(val);
        }
    }

    /// Two bytes joined into a 16-bit value, high byte most significant.
    pub(crate) fn get_pair_value(msb: u8, lsb: u8) -> (r: u16)
        ensures
            r == semantics::pair16(msb, lsb),
    {
        (msb as u16) * 256 + (lsb as u16)
    }

    /// A 16-bit value split into its high and low bytes.
    pub(crate) fn return_split_values(v: u16) -> (r: (u8, u8))
        ensures
            r.0 == semantics::high8(v),
            r.1 == semantics::low8(v),
    {
        ((v / 256) as u8, (v % 256) as u8)
    }

    /// The 16-bit little-endian operand address after the opcode at the
    /// program counter.
    pub(crate) fn get_memory_reference(&self) -> (r: u16)
        requires
            self.wf(),
        ensures
            r == semantics::addr_operand(self@),
    {
        let low: u8 = self.memory.read(self.pc.wrapping_forward(1).value());
        let high: u8 = self.memory.read(self.pc.wrapping_forward(2).value());
        Cpu::get_pair_value(high, low)
    }
}

} // verus!
