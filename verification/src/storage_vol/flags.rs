//! The storage-volume type catalog, the wipe-algorithm catalog and flag
//! catalogs. Each flag is a power-of-two bit; a flag set combines flags by
//! bitwise or, and an absent flag set is encoded as zero.

use vstd::prelude::*;

verus! {

/// Options for creating a volume.
#[derive(Clone, Copy, Debug, PartialEq, Eq, Structural)]
pub struct StorageVolCreateFlags {
    pub bits: u32,
}

impl StorageVolCreateFlags {
    pub const PREALLOC_METADATA: u32 = 1;

    pub const REFLINK: u32 = 2;

    /// A flag set holding exactly the given bits.
    pub fn new(bits: u32) -> (r: Self)
        ensures
            r.bits == bits,
    {
        StorageVolCreateFlags { bits }
    }

    /// The raw bit mask this flag set is encoded as on the wire.
    pub fn bits(&self) -> (r: u32)
        ensures
            r == self.bits,
    {
        self.bits
    }

    /// The union of two flag sets: their bits combined by bitwise or.
    pub fn union(self, other: Self) -> (r: Self)
        ensures
            r.bits == self.bits | other.bits,
    {
        StorageVolCreateFlags { bits: self.bits | other.bits }
    }
}

/// Options for deleting a volume.
#[derive(Clone, Copy, Debug, PartialEq, Eq, Structural)]
pub struct StorageVolDeleteFlags {
    pub bits: u32,
}

impl StorageVolDeleteFlags {
    pub const NORMAL: u32 = 0;

    pub const ZEROED: u32 = 1;

    pub const WITH_SNAPSHOTS: u32 = 2;

    /// A flag set holding exactly the given bits.
    pub fn new(bits: u32) -> (r: Self)
        ensures
            r.bits == bits,
    {
        StorageVolDeleteFlags { bits }
    }

    /// The raw bit mask this flag set is encoded as on the wire.
    pub fn bits(&self) -> (r: u32)
        ensures
            r == self.bits,
    {
        self.bits
    }

    /// The union of two flag sets: their bits combined by bitwise or.
    pub fn union(self, other: Self) -> (r: Self)
        ensures
            r.bits == self.bits | other.bits,
    {
        StorageVolDeleteFlags { bits: self.bits | other.bits }
    }
}

/// Options for downloading from a volume.
#[derive(Clone, Copy, Debug, PartialEq, Eq, Structural)]
pub struct StorageVolDownloadFlags {
    pub bits: u32,
}

impl StorageVolDownloadFlags {
    pub const SPARSE_STREAM: u32 = 1;

    /// A flag set holding exactly the given bits.
    pub fn new(bits: u32) -> (r: Self)
        ensures
            r.bits == bits,
    {
        StorageVolDownloadFlags { bits }
    }

    /// The raw bit mask this flag set is encoded as on the wire.
    pub fn bits(&self) -> (r: u32)
        ensures
            r == self.bits,
    {
        self.bits
    }

    /// The union of two flag sets: their bits combined by bitwise or.
    pub fn union(self, other: Self) -> (r: Self)
        ensures
            r.bits == self.bits | other.bits,
    {
        StorageVolDownloadFlags { bits: self.bits | other.bits }
    }
}

/// Which measure an information query reports.
#[derive(Clone, Copy, Debug, PartialEq, Eq, Structural)]
pub struct StorageVolInfoFlags {
    pub bits: u32,
}

impl StorageVolInfoFlags {
    pub const USE_ALLOCATION: u32 = 0;

    pub const GET_PHYSICAL: u32 = 1;

    /// A flag set holding exactly the given bits.
    pub fn new(bits: u32) -> (r: Self)
        ensures
            r.bits == bits,
    {
        StorageVolInfoFlags { bits }
    }

    /// The raw bit mask this flag set is encoded as on the wire.
    pub fn bits(&self) -> (r: u32)
        ensures
            r == self.bits,
    {
        self.bits
    }

    /// The union of two flag sets: their bits combined by bitwise or.
    pub fn union(self, other: Self) -> (r: Self)
        ensures
            r.bits == self.bits | other.bits,
    {
        StorageVolInfoFlags { bits: self.bits | other.bits }
    }
}

/// Options for resizing a volume.
#[derive(Clone, Copy, Debug, PartialEq, Eq, Structural)]
pub struct StorageVolResizeFlags {
    pub bits: u32,
}

impl StorageVolResizeFlags {
    pub const ALLOCATE: u32 = 1;

    pub const DELTA: u32 = 2;

    pub const SHRINK: u32 = 4;

    /// A flag set holding exactly the given bits.
    pub fn new(bits: u32) -> (r: Self)
        ensures
            r.bits == bits,
    {
        StorageVolResizeFlags { bits }
    }

    /// The raw bit mask this flag set is encoded as on the wire.
    pub fn bits(&self) -> (r: u32)
        ensures
            r == self.bits,
    {
        self.bits
    }

    /// The union of two flag sets: their bits combined by bitwise or.
    pub fn union(self, other: Self) -> (r: Self)
        ensures
            r.bits == self.bits | other.bits,
    {
        StorageVolResizeFlags { bits: self.bits | other.bits }
    }
}

/// Options for uploading into a volume.
#[derive(Clone, Copy, Debug, PartialEq, Eq, Structural)]
pub struct StorageVolUploadFlags {
    pub bits: u32,
}

impl StorageVolUploadFlags {
    pub const SPARSE_STREAM: u32 = 1;

    /// A flag set holding exactly the given bits.
    pub fn new(bits: u32) -> (r: Self)
        ensures
            r.bits == bits,
    {
        StorageVolUploadFlags { bits }
    }

    /// The raw bit mask this flag set is encoded as on the wire.
    pub fn bits(&self) -> (r: u32)
        ensures
            r == self.bits,
    {
        self.bits
    }

    /// The union of two flag sets: their bits combined by bitwise or.
    pub fn union(self, other: Self) -> (r: Self)
        ensures
            r.bits == self.bits | other.bits,
    {
        StorageVolUploadFlags { bits: self.bits | other.bits }
    }
}

/// The kind of object backing a storage volume.
#[derive(Clone, Copy, Debug, PartialEq, Eq, Structural)]
pub enum StorageVolType {
    File,
    Block,
    Dir,
    Network,
    NetDir,
    Ploop,
    Last,
}

/// What [`StorageVolType::from_int`] returns for each raw type number: the
/// matching kind for the seven cataloged values, nothing for any other
/// number.
pub open spec fn vol_type_from(n: i32) -> Option<StorageVolType> {
    if n == 0 {
        Some(StorageVolType::File)
    } else if n == 1 {
        Some(StorageVolType::Block)
    } else if n == 2 {
        Some(StorageVolType::Dir)
    } else if n == 3 {
        Some(StorageVolType::Network)
    } else if n == 4 {
        Some(StorageVolType::NetDir)
    } else if n == 5 {
        Some(StorageVolType::Ploop)
    } else if n == 6 {
        Some(StorageVolType::Last)
    } else {
        None
    }
}

impl StorageVolType {
    /// Translates the raw type number reported by the remote side; numbers
    /// outside the catalog yield nothing.
    pub fn from_int(n: i32) -> (r: Option<Self>)
        ensures
            r == vol_type_from(n),
    {
        match n {
            0 => Some(StorageVolType::File),
            1 => Some(StorageVolType::Block),
            2 => Some(StorageVolType::Dir),
            3 => Some(StorageVolType::Network),
            4 => Some(StorageVolType::NetDir),
            5 => Some(StorageVolType::Ploop),
            6 => Some(StorageVolType::Last),
            _ => None,
        }
    }
}

/// The catalog of wipe procedures a volume can be scrubbed with.
#[derive(Clone, Copy, Debug, PartialEq, Eq, Structural)]
pub enum StorageVolWipeAlgorithm {
    /// 1-pass, all zeroes.
    Zero,
    /// 4-pass NNSA Policy Letter NAP-14.1-C (XVI-8).
    Nnsa,
    /// 4-pass DoD 5220.22-M section 8-306 procedure.
    Dod,
    /// 9-pass method recommended by the German Center of Security in
    /// Information Technologies.
    Bsi,
    /// The canonical 35-pass sequence.
    Gutmann,
    /// 7-pass method described by Bruce Schneier in "Applied Cryptography"
    /// (1996).
    Schneier,
    /// 7-pass random.
    Pfitzner7,
    /// 33-pass random.
    Pfitzner33,
    /// 1-pass random.
    Random,
    /// 1-pass, trim all data on the volume by using TRIM or DISCARD.
    Trim,
    /// The last algorithm this version of the catalog supports; the catalog
    /// grows over time.
    Last,
}

/// The raw number a wipe procedure is encoded as on the wire.
pub open spec fn wipe_algorithm_bits(a: StorageVolWipeAlgorithm) -> u32 {
    match a {
        StorageVolWipeAlgorithm::Zero => 0,
        StorageVolWipeAlgorithm::Nnsa => 1,
        StorageVolWipeAlgorithm::Dod => 2,
        StorageVolWipeAlgorithm::Bsi => 3,
        StorageVolWipeAlgorithm::Gutmann => 4,
        StorageVolWipeAlgorithm::Schneier => 5,
        StorageVolWipeAlgorithm::Pfitzner7 => 6,
        StorageVolWipeAlgorithm::Pfitzner33 => 7,
        StorageVolWipeAlgorithm::Random => 8,
        StorageVolWipeAlgorithm::Trim => 9,
        StorageVolWipeAlgorithm::Last => 10,
    }
}

impl StorageVolWipeAlgorithm {
    /// The raw number this wipe procedure is encoded as on the wire.
    pub fn bits(self) -> (r: u32)
        ensures
            r == wipe_algorithm_bits(self),
    {
        match self {
            StorageVolWipeAlgorithm::Zero => 0,
            StorageVolWipeAlgorithm::Nnsa => 1,
            StorageVolWipeAlgorithm::Dod => 2,
            StorageVolWipeAlgorithm::Bsi => 3,
            StorageVolWipeAlgorithm::Gutmann => 4,
            StorageVolWipeAlgorithm::Schneier => 5,
            StorageVolWipeAlgorithm::Pfitzner7 => 6,
            StorageVolWipeAlgorithm::Pfitzner33 => 7,
            StorageVolWipeAlgorithm::Random => 8,
            StorageVolWipeAlgorithm::Trim => 9,
            StorageVolWipeAlgorithm::Last => 10,
        }
    }
}

} // verus!
