//! Flag catalogs for secret operations. Each flag is a power-of-two bit; a
//! flag set combines flags by bitwise or, and an absent flag set is encoded
//! as zero.

use vstd::prelude::*;

verus! {

/// Detail selectors for a secret's description.
#[derive(Clone, Copy, Debug, PartialEq, Eq, Structural)]
pub struct SecretXMLFlags {
    pub bits: u32,
}

impl SecretXMLFlags {
    /// Dump the inactive configuration instead of the running one.
    pub const VIR_SECRET_XML_INACTIVE: u32 = 1;

    /// A flag set holding exactly the given bits.
    pub fn new(bits: u32) -> (r: Self)
        ensures
            r.bits == bits,
    {
        SecretXMLFlags { bits }
    }

    /// The raw bit mask this flag set is encoded as on the wire.
    pub fn bits(&self) -> (r: u32)
        ensures
            r == self.bits,
    {
        self.bits
    }

    /// The union of two flag sets: their bits combined by bitwise or.
    pub fn union(self, other: Self) -> (r: Self)
        ensures
            r.bits == self.bits | other.bits,
    {
        SecretXMLFlags { bits: self.bits | other.bits }
    }
}

/// What kind of object a secret is attached to.
#[derive(Clone, Copy, Debug, PartialEq, Eq, Structural)]
pub struct SecretUsageType {
    pub bits: i32,
}

impl SecretUsageType {
    pub const VIR_SECRET_USAGE_TYPE_NONE: i32 = 0;

    pub const VIR_SECRET_USAGE_TYPE_VOLUME: i32 = 1;

    pub const VIR_SECRET_USAGE_TYPE_CEPH: i32 = 2;

    pub const VIR_SECRET_USAGE_TYPE_ISCSI: i32 = 4;

    pub const VIR_SECRET_USAGE_TYPE_TLS: i32 = 8;

    pub const VIR_SECRET_USAGE_TYPE_LAST: i32 = 16;

    /// A flag set holding exactly the given bits.
    pub fn new(bits: i32) -> (r: Self)
        ensures
            r.bits == bits,
    {
        SecretUsageType { bits }
    }

    /// The raw bit mask this flag set is encoded as on the wire.
    pub fn bits(&self) -> (r: i32)
        ensures
            r == self.bits,
    {
        self.bits
    }

    /// The union of two flag sets: their bits combined by bitwise or.
    pub fn union(self, other: Self) -> (r: Self)
        ensures
            r.bits == self.bits | other.bits,
    {
        SecretUsageType { bits: self.bits | other.bits }
    }
}

} // verus!
