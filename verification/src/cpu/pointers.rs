use vstd::prelude::*;

verus! {

/// A 16-bit address register: the program counter or the stack pointer.
/// All arithmetic on it wraps silently at the 65536 boundary; that is
/// specified hardware behaviour, not an error condition.
#[derive(Clone, Copy, PartialEq, Eq, Structural, Debug)]
pub struct Pointer {
    pub x: u16,
}

impl Pointer {
    /// The address currently held.
    pub fn value(self) -> (r: u16)
        ensures
            r == self.x,
    {
        self.x
    }

    /// The address moved forward by `n`, wrapping at the 65536 boundary.
    pub fn wrapping_forward(self, n: u16) -> (r: Pointer)
        ensures
            r.x == crate::cpu::semantics::wrap_add16(self.x, n),
    {
        Pointer { x: self.x.wrapping_add(n) }
    }

    /// The address moved backward by `n`, wrapping at the 65536 boundary.
    pub fn wrapping_back(self, n: u16) -> (r: Pointer)
        ensures
            r.x == crate::cpu::semantics::wrap_sub16(self.x, n),
    {
        Pointer { x: self.x.wrapping_sub(n) }
    }
}

impl Default for Pointer {
    /// Both pointers power up at address zero.
    fn default() -> (r: Self)
        ensures
            r.x == 0,
    {
        Pointer { x: 0 }
    }
}

} // verus!
