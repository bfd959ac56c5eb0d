//! The storage-pool state catalog and flag catalogs. Each flag is a
//! power-of-two bit; a flag set combines flags by bitwise or, and an absent
//! flag set is encoded as zero.

use vstd::prelude::*;

verus! {

/// The running state of a storage pool.
#[derive(Clone, Copy, Debug, PartialEq, Eq, Structural)]
pub enum StoragePoolState {
    Inactive,
    Building,
    Running,
    Degraded,
    Inaccessible,
    Last,
}

/// What [`StoragePoolState::from_int`] returns for each raw state number:
/// the matching state for the six cataloged values, nothing for any other
/// number.
pub open spec fn pool_state_from(n: i32) -> Option<StoragePoolState> {
    if n == 0 {
        Some(StoragePoolState::Inactive)
    } else if n == 1 {
        Some(StoragePoolState::Building)
    } else if n == 2 {
        Some(StoragePoolState::Running)
    } else if n == 3 {
        Some(StoragePoolState::Degraded)
    } else if n == 4 {
        Some(StoragePoolState::Inaccessible)
    } else if n == 5 {
        Some(StoragePoolState::Last)
    } else {
        None
    }
}

impl StoragePoolState {
    /// Translates the raw state number reported by the remote side; numbers
    /// outside the catalog yield nothing.
    pub fn from_int(n: i32) -> (r: Option<Self>)
        ensures
            r == pool_state_from(n),
    {
        match n {
            0 => Some(StoragePoolState::Inactive),
            1 => Some(StoragePoolState::Building),
            2 => Some(StoragePoolState::Running),
            3 => Some(StoragePoolState::Degraded),
            4 => Some(StoragePoolState::Inaccessible),
            5 => Some(StoragePoolState::Last),
            _ => None,
        }
    }
}

/// Ways of building the backing store of a pool.
#[derive(Clone, Copy, Debug, PartialEq, Eq, Structural)]
pub struct StoragePoolBuildFlags {
    pub bits: u32,
}

impl StoragePoolBuildFlags {
    /// Regular build from scratch.
    pub const NEW: u32 = 0;

    /// Repair / reinitialize.
    pub const REPAIR: u32 = 1;

    /// Extend existing pool.
    pub const RESIZE: u32 = 2;

    /// Do not overwrite existing pool.
    pub const NO_OVERWRITE: u32 = 4;

    /// Overwrite data.
    pub const OVERWRITE: u32 = 8;

    /// A flag set holding exactly the given bits.
    pub fn new(bits: u32) -> (r: Self)
        ensures
            r.bits == bits,
    {
        StoragePoolBuildFlags { bits }
    }

    /// The raw bit mask this flag set is encoded as on the wire.
    pub fn bits(&self) -> (r: u32)
        ensures
            r == self.bits,
    {
        self.bits
    }

    /// The union of two flag sets: their bits combined by bitwise or.
    pub fn union(self, other: Self) -> (r: Self)
        ensures
            r.bits == self.bits | other.bits,
    {
        StoragePoolBuildFlags { bits: self.bits | other.bits }
    }
}

/// Ways of starting a pool, possibly building it first.
#[derive(Clone, Copy, Debug, PartialEq, Eq, Structural)]
pub struct StoragePoolCreateFlags {
    pub bits: u32,
}

impl StoragePoolCreateFlags {
    /// Create the pool and perform pool build without any flags.
    pub const NORMAL: u32 = 0;

    /// Create the pool and perform pool build with overwrite; mutually
    /// exclusive with building without overwrite.
    pub const WITH_BUILD: u32 = 1;

    /// Create the pool and perform pool build with overwrite; mutually
    /// exclusive with building without overwrite.
    pub const WITH_BUILD_OVERWRITE: u32 = 2;

    pub const WITH_BUILD_NO_OVERWRITE: u32 = 4;

    /// A flag set holding exactly the given bits.
    pub fn new(bits: u32) -> (r: Self)
        ensures
            r.bits == bits,
    {
        StoragePoolCreateFlags { bits }
    }

    /// The raw bit mask this flag set is encoded as on the wire.
    pub fn bits(&self) -> (r: u32)
        ensures
            r == self.bits,
    {
        self.bits
    }

    /// The union of two flag sets: their bits combined by bitwise or.
    pub fn union(self, other: Self) -> (r: Self)
        ensures
            r.bits == self.bits | other.bits,
    {
        StoragePoolCreateFlags { bits: self.bits | other.bits }
    }
}

/// Ways of deleting the backing store of a pool.
#[derive(Clone, Copy, Debug, PartialEq, Eq, Structural)]
pub struct StoragePoolDeleteFlags {
    pub bits: u32,
}

impl StoragePoolDeleteFlags {
    /// Delete metadata only (fast).
    pub const NORMAL: u32 = 0;

    /// Clear all data to zeros (slow).
    pub const ZEROED: u32 = 1;

    /// A flag set holding exactly the given bits.
    pub fn new(bits: u32) -> (r: Self)
        ensures
            r.bits == bits,
    {
        StoragePoolDeleteFlags { bits }
    }

    /// The raw bit mask this flag set is encoded as on the wire.
    pub fn bits(&self) -> (r: u32)
        ensures
            r == self.bits,
    {
        self.bits
    }

    /// The union of two flag sets: their bits combined by bitwise or.
    pub fn union(self, other: Self) -> (r: Self)
        ensures
            r.bits == self.bits | other.bits,
    {
        StoragePoolDeleteFlags { bits: self.bits | other.bits }
    }
}

/// Detail selectors for a pool's description.
#[derive(Clone, Copy, Debug, PartialEq, Eq, Structural)]
pub struct StoragePoolXmlFlags {
    pub bits: u32,
}

impl StoragePoolXmlFlags {
    /// Dump inactive pool/volume information.
    pub const INACTIVE: u32 = 1;

    /// A flag set holding exactly the given bits.
    pub fn new(bits: u32) -> (r: Self)
        ensures
            r.bits == bits,
    {
        StoragePoolXmlFlags { bits }
    }

    /// The raw bit mask this flag set is encoded as on the wire.
    pub fn bits(&self) -> (r: u32)
        ensures
            r == self.bits,
    {
        self.bits
    }

    /// The union of two flag sets: their bits combined by bitwise or.
    pub fn union(self, other: Self) -> (r: Self)
        ensures
            r.bits == self.bits | other.bits,
    {
        StoragePoolXmlFlags { bits: self.bits | other.bits }
    }
}

} // verus!
