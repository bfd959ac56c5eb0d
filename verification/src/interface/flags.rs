//! Flag catalog for host-interface operations. Each flag is a power-of-two
//! bit; a flag set combines flags by bitwise or, and an absent flag set is
//! encoded as zero.

use vstd::prelude::*;

verus! {

/// Detail selectors for a host interface's description.
#[derive(Clone, Copy, Debug, PartialEq, Eq, Structural)]
pub struct InterfaceXmlFlags {
    pub bits: u32,
}

impl InterfaceXmlFlags {
    /// Dump the inactive configuration instead of the running one.
    pub const INACTIVE: u32 = 1;

    /// A flag set holding exactly the given bits.
    pub fn new(bits: u32) -> (r: Self)
        ensures
            r.bits == bits,
    {
        InterfaceXmlFlags { bits }
    }

    /// The raw bit mask this flag set is encoded as on the wire.
    pub fn bits(&self) -> (r: u32)
        ensures
            r == self.bits,
    {
        self.bits
    }

    /// The union of two flag sets: their bits combined by bitwise or.
    pub fn union(self, other: Self) -> (r: Self)
        ensures
            r.bits == self.bits | other.bits,
    {
        InterfaceXmlFlags { bits: self.bits | other.bits }
    }
}

} // verus!
