//! Flag catalogs for guest-machine operations. Each flag is a power-of-two
//! bit; a flag set combines flags by bitwise or, and an absent flag set is
//! encoded as zero.

use vstd::prelude::*;

verus! {

/// Filters for bulk statistics over guest machines.
#[derive(Clone, Copy, Debug, PartialEq, Eq, Structural)]
pub struct GetAllDomainStatsFlags {
    pub bits: u32,
}

impl GetAllDomainStatsFlags {
    pub const ACTIVE: u32 = 1;

    pub const INACTIVE: u32 = 2;

    pub const PERSISTENT: u32 = 4;

    pub const TRANSIENT: u32 = 8;

    pub const RUNNING: u32 = 16;

    pub const PAUSED: u32 = 32;

    pub const SHUTOFF: u32 = 64;

    pub const OTHER: u32 = 128;

    /// Report statistics that can be obtained immediately without any
    /// blocking.
    pub const NOWAIT: u32 = 536870912;

    /// Include backing chain for block stats.
    pub const BACKING: u32 = 1073741824;

    /// Enforce requested stats.
    pub const ENFORCE_STATS: u32 = 2147483648;

    /// A flag set holding exactly the given bits.
    pub fn new(bits: u32) -> (r: Self)
        ensures
            r.bits == bits,
    {
        GetAllDomainStatsFlags { bits }
    }

    /// The raw bit mask this flag set is encoded as on the wire.
    pub fn bits(&self) -> (r: u32)
        ensures
            r == self.bits,
    {
        self.bits
    }

    /// The union of two flag sets: their bits combined by bitwise or.
    pub fn union(self, other: Self) -> (r: Self)
        ensures
            r.bits == self.bits | other.bits,
    {
        GetAllDomainStatsFlags { bits: self.bits | other.bits }
    }
}

/// Filters for listing all guest machines of a connection.
#[derive(Clone, Copy, Debug, PartialEq, Eq, Structural)]
pub struct ListAllDomainsFlags {
    pub bits: u32,
}

impl ListAllDomainsFlags {
    pub const ACTIVE: u32 = 1;

    pub const INACTIVE: u32 = 2;

    pub const PERSISTENT: u32 = 4;

    pub const TRANSIENT: u32 = 8;

    pub const RUNNING: u32 = 16;

    pub const PAUSED: u32 = 32;

    pub const SHUTOFF: u32 = 64;

    pub const OTHER: u32 = 128;

    pub const MANAGED_SAVE: u32 = 256;

    pub const NO_MANAGED_SAVE: u32 = 512;

    pub const AUTOSTART: u32 = 1024;

    pub const NO_AUTOSTART: u32 = 2048;

    pub const HAS_SNAPSHOT: u32 = 4096;

    pub const NO_SNAPSHOT: u32 = 8192;

    /// A flag set holding exactly the given bits.
    pub fn new(bits: u32) -> (r: Self)
        ensures
            r.bits == bits,
    {
        ListAllDomainsFlags { bits }
    }

    /// The raw bit mask this flag set is encoded as on the wire.
    pub fn bits(&self) -> (r: u32)
        ensures
            r == self.bits,
    {
        self.bits
    }

    /// The union of two flag sets: their bits combined by bitwise or.
    pub fn union(self, other: Self) -> (r: Self)
        ensures
            r.bits == self.bits | other.bits,
    {
        ListAllDomainsFlags { bits: self.bits | other.bits }
    }
}

/// Ways of launching a guest machine.
#[derive(Clone, Copy, Debug, PartialEq, Eq, Structural)]
pub struct DomainCreateFlags {
    pub bits: u32,
}

impl DomainCreateFlags {
    pub const NONE: u32 = 0;

    pub const PAUSED: u32 = 1;

    pub const AUTODESTROY: u32 = 2;

    pub const BYPASS_CACHE: u32 = 4;

    pub const FORCE_BOOT: u32 = 8;

    pub const VALIDATE: u32 = 16;

    /// A flag set holding exactly the given bits.
    pub fn new(bits: u32) -> (r: Self)
        ensures
            r.bits == bits,
    {
        DomainCreateFlags { bits }
    }

    /// The raw bit mask this flag set is encoded as on the wire.
    pub fn bits(&self) -> (r: u32)
        ensures
            r == self.bits,
    {
        self.bits
    }

    /// The union of two flag sets: their bits combined by bitwise or.
    pub fn union(self, other: Self) -> (r: Self)
        ensures
            r.bits == self.bits | other.bits,
    {
        DomainCreateFlags { bits: self.bits | other.bits }
    }
}

/// Detail selectors for a guest machine's description.
#[derive(Clone, Copy, Debug, PartialEq, Eq, Structural)]
pub struct XmlFlags {
    pub bits: u32,
}

impl XmlFlags {
    pub const SECURE: u32 = 1;

    pub const INACTIVE: u32 = 2;

    pub const UPDATE_CPU: u32 = 4;

    pub const MIGRATABLE: u32 = 8;

    /// A flag set holding exactly the given bits.
    pub fn new(bits: u32) -> (r: Self)
        ensures
            r.bits == bits,
    {
        XmlFlags { bits }
    }

    /// The raw bit mask this flag set is encoded as on the wire.
    pub fn bits(&self) -> (r: u32)
        ensures
            r == self.bits,
    {
        self.bits
    }

    /// The union of two flag sets: their bits combined by bitwise or.
    pub fn union(self, other: Self) -> (r: Self)
        ensures
            r.bits == self.bits | other.bits,
    {
        XmlFlags { bits: self.bits | other.bits }
    }
}

/// Options for defining a guest machine without starting it.
#[derive(Clone, Copy, Debug, PartialEq, Eq, Structural)]
pub struct DomainDefineFlags {
    pub bits: u32,
}

impl DomainDefineFlags {
    pub const VALIDATE: u32 = 1;

    /// A flag set holding exactly the given bits.
    pub fn new(bits: u32) -> (r: Self)
        ensures
            r.bits == bits,
    {
        DomainDefineFlags { bits }
    }

    /// The raw bit mask this flag set is encoded as on the wire.
    pub fn bits(&self) -> (r: u32)
        ensures
            r == self.bits,
    {
        self.bits
    }

    /// The union of two flag sets: their bits combined by bitwise or.
    pub fn union(self, other: Self) -> (r: Self)
        ensures
            r.bits == self.bits | other.bits,
    {
        DomainDefineFlags { bits: self.bits | other.bits }
    }
}

/// Ways of tearing a running guest machine down.
#[derive(Clone, Copy, Debug, PartialEq, Eq, Structural)]
pub struct DomainDestroyFlags {
    pub bits: u32,
}

impl DomainDestroyFlags {
    /// Default behavior - could lead to data loss!!
    pub const DEFAULT: u32 = 0;

    /// Only SIGTERM, no SIGKILL.
    pub const GRACEFUL: u32 = 1;

    /// A flag set holding exactly the given bits.
    pub fn new(bits: u32) -> (r: Self)
        ensures
            r.bits == bits,
    {
        DomainDestroyFlags { bits }
    }

    /// The raw bit mask this flag set is encoded as on the wire.
    pub fn bits(&self) -> (r: u32)
        ensures
            r == self.bits,
    {
        self.bits
    }

    /// The union of two flag sets: their bits combined by bitwise or.
    pub fn union(self, other: Self) -> (r: Self)
        ensures
            r.bits == self.bits | other.bits,
    {
        DomainDestroyFlags { bits: self.bits | other.bits }
    }
}

/// Ways of asking a guest machine to reboot.
#[derive(Clone, Copy, Debug, PartialEq, Eq, Structural)]
pub struct RebootFlags {
    pub bits: u32,
}

impl RebootFlags {
    /// Hypervisor choice.
    pub const DEFAULT: u32 = 0;

    /// Send ACPI event.
    pub const ACPI_POWER_BTN: u32 = 1;

    /// Use guest agent.
    pub const GUEST_AGENT: u32 = 2;

    /// Use initctl.
    pub const INITCTL: u32 = 4;

    /// Send a signal.
    pub const SIGNAL: u32 = 8;

    /// Use paravirt guest control.
    pub const PARAVIRT: u32 = 16;

    /// A flag set holding exactly the given bits.
    pub fn new(bits: u32) -> (r: Self)
        ensures
            r.bits == bits,
    {
        RebootFlags { bits }
    }

    /// The raw bit mask this flag set is encoded as on the wire.
    pub fn bits(&self) -> (r: u32)
        ensures
            r == self.bits,
    {
        self.bits
    }

    /// The union of two flag sets: their bits combined by bitwise or.
    pub fn union(self, other: Self) -> (r: Self)
        ensures
            r.bits == self.bits | other.bits,
    {
        RebootFlags { bits: self.bits | other.bits }
    }
}

/// Which configuration a memory change applies to.
#[derive(Clone, Copy, Debug, PartialEq, Eq, Structural)]
pub struct DomainMemoryModFlags {
    pub bits: u32,
}

impl DomainMemoryModFlags {
    pub const CURRENT: u32 = 0;

    pub const LIVE: u32 = 1;

    pub const CONFIG: u32 = 2;

    pub const MAXIMUM: u32 = 4;

    /// A flag set holding exactly the given bits.
    pub fn new(bits: u32) -> (r: Self)
        ensures
            r.bits == bits,
    {
        DomainMemoryModFlags { bits }
    }

    /// The raw bit mask this flag set is encoded as on the wire.
    pub fn bits(&self) -> (r: u32)
        ensures
            r == self.bits,
    {
        self.bits
    }

    /// The union of two flag sets: their bits combined by bitwise or.
    pub fn union(self, other: Self) -> (r: Self)
        ensures
            r.bits == self.bits | other.bits,
    {
        DomainMemoryModFlags { bits: self.bits | other.bits }
    }
}

/// Which configuration a generic change applies to.
#[derive(Clone, Copy, Debug, PartialEq, Eq, Structural)]
pub struct DomainModificationImpact {
    pub bits: u32,
}

impl DomainModificationImpact {
    pub const CURRENT: u32 = 0;

    pub const LIVE: u32 = 1;

    pub const CONFIG: u32 = 2;

    /// A flag set holding exactly the given bits.
    pub fn new(bits: u32) -> (r: Self)
        ensures
            r.bits == bits,
    {
        DomainModificationImpact { bits }
    }

    /// The raw bit mask this flag set is encoded as on the wire.
    pub fn bits(&self) -> (r: u32)
        ensures
            r == self.bits,
    {
        self.bits
    }

    /// The union of two flag sets: their bits combined by bitwise or.
    pub fn union(self, other: Self) -> (r: Self)
        ensures
            r.bits == self.bits | other.bits,
    {
        DomainModificationImpact { bits: self.bits | other.bits }
    }
}

/// Which virtual-CPU setting a change applies to.
#[derive(Clone, Copy, Debug, PartialEq, Eq, Structural)]
pub struct DomainVcpuFlags {
    pub bits: u32,
}

impl DomainVcpuFlags {
    pub const CURRENT: u32 = 0;

    pub const LIVE: u32 = 1;

    pub const CONFIG: u32 = 2;

    pub const MAXIMUM: u32 = 4;

    pub const GUEST: u32 = 8;

    pub const HOTPLUGGABLE: u32 = 16;

    /// A flag set holding exactly the given bits.
    pub fn new(bits: u32) -> (r: Self)
        ensures
            r.bits == bits,
    {
        DomainVcpuFlags { bits }
    }

    /// The raw bit mask this flag set is encoded as on the wire.
    pub fn bits(&self) -> (r: u32)
        ensures
            r == self.bits,
    {
        self.bits
    }

    /// The union of two flag sets: their bits combined by bitwise or.
    pub fn union(self, other: Self) -> (r: Self)
        ensures
            r.bits == self.bits | other.bits,
    {
        DomainVcpuFlags { bits: self.bits | other.bits }
    }
}

/// Options for saving and restoring a guest machine image.
#[derive(Clone, Copy, Debug, PartialEq, Eq, Structural)]
pub struct DomainSaveRestoreFlags {
    pub bits: u32,
}

impl DomainSaveRestoreFlags {
    /// Avoid file system cache pollution.
    pub const BYPASS_CACHE: u32 = 1;

    /// Favor running over paused.
    pub const RUNNING: u32 = 2;

    /// Favor paused over running.
    pub const PAUSED: u32 = 4;

    /// A flag set holding exactly the given bits.
    pub fn new(bits: u32) -> (r: Self)
        ensures
            r.bits == bits,
    {
        DomainSaveRestoreFlags { bits }
    }

    /// The raw bit mask this flag set is encoded as on the wire.
    pub fn bits(&self) -> (r: u32)
        ensures
            r == self.bits,
    {
        self.bits
    }

    /// The union of two flag sets: their bits combined by bitwise or.
    pub fn union(self, other: Self) -> (r: Self)
        ensures
            r.bits == self.bits | other.bits,
    {
        DomainSaveRestoreFlags { bits: self.bits | other.bits }
    }
}

} // verus!
