//! Flag catalogs for stream operations. Each flag is a power-of-two bit; a
//! flag set combines flags by bitwise or, and an absent flag set is encoded
//! as zero.

use vstd::prelude::*;

verus! {

/// The conditions a stream event can report.
#[derive(Clone, Copy, Debug, PartialEq, Eq, Structural)]
pub struct StreamEventType {
    pub bits: u32,
}

impl StreamEventType {
    pub const READABLE: u32 = 1;

    pub const WRITABLE: u32 = 2;

    pub const ERROR: u32 = 4;

    pub const HANGUP: u32 = 8;

    /// A flag set holding exactly the given bits.
    pub fn new(bits: u32) -> (r: Self)
        ensures
            r.bits == bits,
    {
        StreamEventType { bits }
    }

    /// The raw bit mask this flag set is encoded as on the wire.
    pub fn bits(&self) -> (r: u32)
        ensures
            r == self.bits,
    {
        self.bits
    }

    /// The union of two flag sets: their bits combined by bitwise or.
    pub fn union(self, other: Self) -> (r: Self)
        ensures
            r.bits == self.bits | other.bits,
    {
        StreamEventType { bits: self.bits | other.bits }
    }
}

/// Options for creating a stream.
#[derive(Clone, Copy, Debug, PartialEq, Eq, Structural)]
pub struct StreamFlags {
    pub bits: u32,
}

impl StreamFlags {
    pub const NONBLOCK: u32 = 1;

    /// A flag set holding exactly the given bits.
    pub fn new(bits: u32) -> (r: Self)
        ensures
            r.bits == bits,
    {
        StreamFlags { bits }
    }

    /// The raw bit mask this flag set is encoded as on the wire.
    pub fn bits(&self) -> (r: u32)
        ensures
            r == self.bits,
    {
        self.bits
    }

    /// The union of two flag sets: their bits combined by bitwise or.
    pub fn union(self, other: Self) -> (r: Self)
        ensures
            r.bits == self.bits | other.bits,
    {
        StreamFlags { bits: self.bits | other.bits }
    }
}

/// Options for receiving from a stream.
#[derive(Clone, Copy, Debug, PartialEq, Eq, Structural)]
pub struct StreamRecvFlagsValues {
    pub bits: u32,
}

impl StreamRecvFlagsValues {
    pub const STOP_AT_HOLE: u32 = 1;

    /// A flag set holding exactly the given bits.
    pub fn new(bits: u32) -> (r: Self)
        ensures
            r.bits == bits,
    {
        StreamRecvFlagsValues { bits }
    }

    /// The raw bit mask this flag set is encoded as on the wire.
    pub fn bits(&self) -> (r: u32)
        ensures
            r == self.bits,
    {
        self.bits
    }

    /// The union of two flag sets: their bits combined by bitwise or.
    pub fn union(self, other: Self) -> (r: Self)
        ensures
            r.bits == self.bits | other.bits,
    {
        StreamRecvFlagsValues { bits: self.bits | other.bits }
    }
}

} // verus!
