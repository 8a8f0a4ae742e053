use vstd::prelude::*;

verus! {

/// The memory size: one flat 65536-byte address space, addressable by any
/// 16-bit value, with no protection or segmentation.
pub const MEMORY_SIZE: usize = 0x10000;

/// The processor's memory. Loaded once with program images before
/// execution begins; thereafter fully read/write, with no distinction
/// between the loaded program region and working storage.
#[derive(Clone, Debug)]
pub struct Memory {
    pub ram: Vec<u8>,
}

impl Memory {
    /// Well-formedness: the backing store spans the whole address space,
    /// so every 16-bit address names a byte.
    pub open spec fn wf(self) -> bool {
        self.ram@.len() == MEMORY_SIZE
    }

    /// The byte stored at `addr`.
    pub fn read(&self, addr: u16) -> (r: u8)
        requires
            self.wf(),
        ensures
            r == self.ram@[addr as int],
    {
        self.ram[addr as usize]
    }

    /// Stores `val` at `addr`.
    pub fn write(&mut self, addr: u16, val: u8)
        requires
            old(self).wf(),
        ensures
            final(self).wf(),
            final(self).ram@ == old(self).ram@.update(addr as int, val),
    {
        self.ram[addr as usize] = val;
    }
}

impl Default for Memory {
    /// A zero-filled address space.
    fn default() -> (r: Self)
        ensures
            r.wf(),
            forall|i: int| 0 <= i < MEMORY_SIZE ==> r.ram@[i] == 0u8,
    {
        let mut ram: Vec<u8> = Vec::new();
        let mut i: usize = 0;
        while i < MEMORY_SIZE
            invariant
                i <= MEMORY_SIZE,
                ram@.len() == i,
                forall|j: int| 0 <= j < i ==> ram@[j] == 0u8,
            decreases MEMORY_SIZE - i,
        {
            ram.push(0);
            i = i + 1;
        }
        Memory { ram }
    }
}

} // verus!
