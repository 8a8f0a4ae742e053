use vstd::prelude::*;

verus! {

/// The five condition bits of the processor, recomputed together by the
/// flag-affecting instructions: Zero, Sign, Parity, Carry and
/// Auxiliary-Carry (carry out of bit 3, used by decimal adjustment).
#[derive(Clone, Copy, PartialEq, Eq, Structural, Debug)]
pub struct Flags {
    pub z: bool,
    pub s: bool,
    pub p: bool,
    pub cy: bool,
    pub ac: bool,
}

impl Default for Flags {
    /// All five condition bits power up clear.
    fn default() -> (r: Self)
        ensures
            r == (Flags { z: false, s: false, p: false, cy: false, ac: false }),
    {
        Flags { z: false, s: false, p: false, cy: false, ac: false }
    }
}

} // verus!
