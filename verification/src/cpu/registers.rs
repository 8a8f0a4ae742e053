use vstd::prelude::*;

verus! {

/// One 8-bit register of the processor. The value always lies in
/// [0, 255]; every operation on it wraps modulo 256.
#[derive(Clone, Copy, PartialEq, Eq, Structural, Debug)]
pub struct Register(pub u8);

impl Register {
    /// The register's current byte value.
    pub fn value(self) -> (r: u8)
        ensures
            r == self.0,
    {
        self.0
    }
}

impl Default for Register {
    /// A register powers up holding zero.
    fn default() -> (r: Self)
        ensures
            r.0 == 0,
    {
        Register(0)
    }
}

} // verus!
