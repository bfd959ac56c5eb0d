//! Flag catalogs for connection-level list operations. Each flag is a
//! power-of-two bit; a flag set combines flags by bitwise or, and an absent
//! flag set is encoded as zero.

use vstd::prelude::*;

verus! {

/// Filters for listing all guest machines of a connection.
#[derive(Clone, Copy, Debug, PartialEq, Eq, Structural)]
pub struct ListAllDomainsFlags {
    pub bits: u32,
}

impl ListAllDomainsFlags {
    pub const ACTIVE: u32 = 1;

    pub const INACTIVE: u32 = 2;

    pub const PERSISTENT: u32 = 4;

    pub const TRANSIENT: u32 = 8;

    pub const RUNNING: u32 = 16;

    pub const PAUSED: u32 = 32;

    pub const SHUTOFF: u32 = 64;

    pub const OTHER: u32 = 128;

    pub const MANAGED_SAVE: u32 = 256;

    pub const NO_MANAGED_SAVE: u32 = 512;

    pub const AUTOSTART: u32 = 1024;

    pub const NO_AUTOSTART: u32 = 2048;

    pub const HAS_SNAPSHOT: u32 = 4096;

    pub const NO_SNAPSHOT: u32 = 8192;

    /// A flag set holding exactly the given bits.
    pub fn new(bits: u32) -> (r: Self)
        ensures
            r.bits == bits,
    {
        ListAllDomainsFlags { bits }
    }

    /// The raw bit mask this flag set is encoded as on the wire.
    pub fn bits(&self) -> (r: u32)
        ensures
            r == self.bits,
    {
        self.bits
    }

    /// The union of two flag sets: their bits combined by bitwise or.
    pub fn union(self, other: Self) -> (r: Self)
        ensures
            r.bits == self.bits | other.bits,
    {
        ListAllDomainsFlags { bits: self.bits | other.bits }
    }
}

/// Filters for listing the storage pools of a connection.
#[derive(Clone, Copy, Debug, PartialEq, Eq, Structural)]
pub struct ListAllStoragePoolsFlags {
    pub bits: u32,
}

impl ListAllStoragePoolsFlags {
    pub const INACTIVE: u32 = 1;

    pub const ACTIVE: u32 = 2;

    pub const PERSISTENT: u32 = 4;

    pub const TRANSIENT: u32 = 8;

    pub const AUTOSTART: u32 = 16;

    pub const NO_AUTOSTART: u32 = 32;

    pub const DIR: u32 = 64;

    pub const FS: u32 = 128;

    pub const NETFS: u32 = 256;

    pub const LOGICAL: u32 = 512;

    pub const DISK: u32 = 1024;

    pub const ISCSI: u32 = 2048;

    pub const SCSI: u32 = 4096;

    pub const MPATH: u32 = 8192;

    pub const RBD: u32 = 16384;

    pub const SHEEPDOG: u32 = 32768;

    pub const GLUSTER: u32 = 65536;

    pub const ZFS: u32 = 131072;

    pub const VSTORAGE: u32 = 262144;

    /// A flag set holding exactly the given bits.
    pub fn new(bits: u32) -> (r: Self)
        ensures
            r.bits == bits,
    {
        ListAllStoragePoolsFlags { bits }
    }

    /// The raw bit mask this flag set is encoded as on the wire.
    pub fn bits(&self) -> (r: u32)
        ensures
            r == self.bits,
    {
        self.bits
    }

    /// The union of two flag sets: their bits combined by bitwise or.
    pub fn union(self, other: Self) -> (r: Self)
        ensures
            r.bits == self.bits | other.bits,
    {
        ListAllStoragePoolsFlags { bits: self.bits | other.bits }
    }
}

} // verus!
