//! The wrapper for guest machines, the typed results its queries return,
//! and the catalog of guest-machine flag sets.

use vstd::prelude::*;

use crate::connect::Connect;
use crate::error::Error;
use crate::ops;
use crate::remote::{
    invalid_result, no_call, pushed, pushed2, remote_error_result, CallRecord, FillStrOp, HandleOp,
    IntOp, ObjectKind, RawDomainInfo, Remote, RemoteIfaces, SlotView, StrOp, WordOp,
};

pub mod flags;

use crate::domain::flags::{
    DomainCreateFlags, DomainDefineFlags, DomainDestroyFlags, DomainMemoryModFlags,
    DomainSaveRestoreFlags, DomainVcpuFlags, RebootFlags, XmlFlags,
};

verus! {

/// Traffic counters for one network interface of a guest machine. A counter
/// the hypervisor does not support is reported as `-1`.
#[derive(Clone, Debug)]
pub struct InterfaceStats {
    pub rx_bytes: i64,
    pub rx_packets: i64,
    pub rx_errs: i64,
    pub rx_drop: i64,
    pub tx_bytes: i64,
    pub tx_packets: i64,
    pub tx_errs: i64,
    pub tx_drop: i64,
}

/// Where an interface-address query takes its answer from.
#[derive(Clone, Copy, Debug, PartialEq, Eq, Structural)]
pub enum InterfaceAddressSource {
    Lease,
    Agent,
    Arp,
    Last,
}

/// The raw number a source is encoded as on the wire.
pub open spec fn source_bits(s: InterfaceAddressSource) -> u32 {
    match s {
        InterfaceAddressSource::Lease => 0,
        InterfaceAddressSource::Agent => 1,
        InterfaceAddressSource::Arp => 2,
        InterfaceAddressSource::Last => 3,
    }
}

impl InterfaceAddressSource {
    /// The raw number this source is encoded as on the wire.
    pub fn bits(self) -> (r: u32)
        ensures
            r == source_bits(self),
    {
        match self {
            InterfaceAddressSource::Lease => 0,
            InterfaceAddressSource::Agent => 1,
            InterfaceAddressSource::Arp => 2,
            InterfaceAddressSource::Last => 3,
        }
    }
}

/// The family of an address reported for a guest interface.
#[derive(Clone, Copy, Debug, PartialEq, Eq, Structural)]
pub enum IpAddrType {
    V4,
    V6,
    Last,
}

/// One address reported for a guest interface, already deep-copied into
/// owned values.
#[derive(Debug)]
pub struct DomainIpAddress {
    pub addr: String,
    pub prefix: u32,
}

/// One network interface of a guest machine, with its addresses, already
/// deep-copied into owned values.
#[derive(Debug)]
pub struct DomainInterface {
    pub name: String,
    pub hwaddr: String,
    pub addrs: Vec<DomainIpAddress>,
}

/// The running state of a guest machine.
#[derive(Clone, Copy, Debug, PartialEq, Eq, Structural)]
pub enum DomainState {
    NoState,
    Running,
    Blocked,
    Paused,
    Shutdown,
    Shutoff,
    Crashed,
    PmSuspended,
}

/// What [`DomainState::new`] returns for each raw state number: the matching
/// state for the eight cataloged values, nothing for any other number.
pub open spec fn domain_state_from(n: u8) -> Option<DomainState> {
    if n == 0 {
        Some(DomainState::NoState)
    } else if n == 1 {
        Some(DomainState::Running)
    } else if n == 2 {
        Some(DomainState::Blocked)
    } else if n == 3 {
        Some(DomainState::Paused)
    } else if n == 4 {
        Some(DomainState::Shutdown)
    } else if n == 5 {
        Some(DomainState::Shutoff)
    } else if n == 6 {
        Some(DomainState::Crashed)
    } else if n == 7 {
        Some(DomainState::PmSuspended)
    } else {
        None
    }
}

impl DomainState {
    /// Translates the raw state number reported by the remote side; numbers
    /// outside the catalog yield nothing.
    pub fn new(n: u8) -> (r: Option<Self>)
        ensures
            r == domain_state_from(n),
    {
        match n {
            0 => Some(DomainState::NoState),
            1 => Some(DomainState::Running),
            2 => Some(DomainState::Blocked),
            3 => Some(DomainState::Paused),
            4 => Some(DomainState::Shutdown),
            5 => Some(DomainState::Shutoff),
            6 => Some(DomainState::Crashed),
            7 => Some(DomainState::PmSuspended),
            _ => None,
        }
    }
}

/// The wrapper owning the handle of one guest machine. It is live until its
/// one release, and every operation attempted after release fails fast
/// without a remote call.
#[derive(Debug)]
pub struct Domain {
    ptr: Option<u64>,
}

impl Domain {
    /// The handle state: present while live, absent once released.
    pub closed spec fn raw(&self) -> Option<u64> {
        self.ptr
    }

    /// The wrapper still owns its handle and its one release obligation.
    pub open spec fn is_live(&self) -> bool {
        self.raw() is Some
    }

    /// The wrapper was released; its handle is gone for good.
    pub open spec fn is_released(&self) -> bool {
        !self.is_live()
    }

    /// The owned handle of a live wrapper.
    pub open spec fn handle(&self) -> u64 {
        self.raw()->0
    }

    /// Stores a handle obtained from a lookup, define or create call as a
    /// live wrapper. Only that family of operations calls this.
    pub fn new(ptr: u64) -> (d: Domain)
        ensures
            d.is_live(),
            d.handle() == ptr,
    {
        Domain { ptr: Some(ptr) }
    }

    /// The raw handle, for handing to an adapter; the wrapper must still be
    /// live.
    pub fn as_ptr(&self) -> (r: u64)
        requires
            self.is_live(),
        ensures
            r == self.handle(),
    {
        self.ptr.unwrap()
    }

    /// Releases the local proxy for the guest machine. A live wrapper
    /// issues the release call exactly once and becomes released even if
    /// that call fails; a released wrapper answers success without any
    /// remote call, so calling this twice never releases twice.
    pub fn free<R: Remote>(&mut self, remote: &mut R) -> (r: Result<(), Error>)
        ensures
            final(self).is_released(),
            ops::release_post(
                old(self).raw(),
                ObjectKind::Domain,
                old(remote).history(),
                final(remote).history(),
                final(remote).error_slot(),
                r,
            ),
    {
        ops::run_release(remote, &mut self.ptr, ObjectKind::Domain)
    }
}

/// The summary a guest-machine information query returns: running state,
/// memory ceiling and use in KBytes, virtual CPU count and consumed CPU time
/// in nanoseconds.
#[derive(Clone, Debug)]
pub struct DomainInfo {
    /// The running state.
    pub state: DomainState,
    /// The maximum memory in KBytes allowed.
    pub max_mem: u64,
    /// The memory in KBytes used by the domain.
    pub memory: u64,
    /// The number of virtual CPUs for the domain.
    pub nr_virt_cpu: u32,
    /// The CPU time used in nanoseconds.
    pub cpu_time: u64,
}

/// The information record built from a raw answer whose state number is
/// within the catalog.
pub open spec fn info_of(raw: RawDomainInfo) -> DomainInfo {
    DomainInfo {
        state: domain_state_from(raw.state)->0,
        max_mem: raw.max_mem,
        memory: raw.memory,
        nr_virt_cpu: raw.nr_virt_cpu,
        cpu_time: raw.cpu_time,
    }
}

/// A wrapper-producing result, seen as the raw handle it owns; used to
/// restate the generic lookup contract for guest results.
pub open spec fn domain_result(r: Result<Domain, Error>) -> Result<u64, Error> {
    match r {
        Ok(d) => Ok(d.handle()),
        Err(e) => Err(e),
    }
}

/// The zero encoding of an absent reboot flag set.
pub open spec fn opt_reboot_bits(f: Option<RebootFlags>) -> u32 {
    match f {
        None => 0,
        Some(f) => f.bits,
    }
}

/// Contract of the information query: one call; a success is the returned
/// raw record with its cataloged state number translated.
pub open spec fn info_post(
    live: bool,
    handle: u64,
    h0: Seq<CallRecord>,
    h1: Seq<CallRecord>,
    slot: SlotView,
    out: Result<DomainInfo, Error>,
) -> bool {
    if live {
        match out {
            Err(_) => {
                &&& pushed(h0, h1, CallRecord::DomainInfoQuery { handle, ok: false })
                &&& remote_error_result(slot, out)
            },
            Ok(info) => exists|raw: RawDomainInfo|
                #![auto]
                {
                    &&& pushed(h0, h1, CallRecord::DomainInfoQuery { handle, ok: true })
                    &&& raw.state <= 7
                    &&& info == info_of(raw)
                },
        }
    } else {
        no_call(h0, h1) && invalid_result(out)
    }
}

/// Contract of the state query: one call; a success is the cataloged state
/// together with the raw reason number.
pub open spec fn state_post(
    live: bool,
    handle: u64,
    h0: Seq<CallRecord>,
    h1: Seq<CallRecord>,
    slot: SlotView,
    out: Result<(DomainState, i32), Error>,
) -> bool {
    if live {
        match out {
            Err(_) => {
                &&& pushed(h0, h1, CallRecord::DomainStateQuery { handle, flags: 0, ok: false })
                &&& remote_error_result(slot, out)
            },
            Ok(p) => exists|raw: (i32, i32)|
                #![auto]
                {
                    &&& pushed(h0, h1, CallRecord::DomainStateQuery { handle, flags: 0, ok: true })
                    &&& 0 <= raw.0 <= 7
                    &&& p.0 == domain_state_from(raw.0 as u8)->0
                    &&& p.1 == raw.1
                },
        }
    } else {
        no_call(h0, h1) && invalid_result(out)
    }
}

/// Contract of the running-identifier query: one call; the all-ones answer
/// means the guest has no running identifier, every other answer is it.
pub open spec fn id_post(
    live: bool,
    handle: u64,
    h0: Seq<CallRecord>,
    h1: Seq<CallRecord>,
    out: Result<Option<u32>, Error>,
) -> bool {
    if live {
        exists|ret: u32|
            {
                &&& #[trigger] pushed(h0, h1, CallRecord::DomainId { handle, ret })
                &&& out == Ok::<Option<u32>, Error>(
                    if ret == u32::MAX {
                        None
                    } else {
                        Some(ret)
                    },
                )
            }
    } else {
        no_call(h0, h1) && invalid_result(out)
    }
}

/// Contract of restoring a guest image through a connection.
pub open spec fn restore_post(
    live: bool,
    handle: u64,
    has_dxml: bool,
    flags: u32,
    h0: Seq<CallRecord>,
    h1: Seq<CallRecord>,
    slot: SlotView,
    out: Result<(), Error>,
) -> bool {
    if live {
        exists|ret: i32|
            {
                &&& #[trigger] pushed(h0, h1, CallRecord::Restore { handle, has_dxml, flags, ret })
                &&& if ret == -1 {
                    remote_error_result(slot, out)
                } else {
                    out == Ok::<(), Error>(())
                }
            }
    } else {
        no_call(h0, h1) && invalid_result(out)
    }
}

/// Contract of the per-interface traffic query: one call into a
/// caller-supplied record, so nothing remains to free.
pub open spec fn iface_stats_post(
    live: bool,
    handle: u64,
    h0: Seq<CallRecord>,
    h1: Seq<CallRecord>,
    slot: SlotView,
    out: Result<InterfaceStats, Error>,
) -> bool {
    if live {
        &&& pushed(h0, h1, CallRecord::IfaceStatsQuery { handle, ok: out is Ok })
        &&& (out is Err ==> remote_error_result(slot, out))
    } else {
        no_call(h0, h1) && invalid_result(out)
    }
}

/// Contract of the interface-address query: one call; on success the
/// returned descriptions — exactly as many as the answer's count — and
/// exactly one free of the outer array allocation.
pub open spec fn iface_addrs_post(
    live: bool,
    handle: u64,
    source: u32,
    h0: Seq<CallRecord>,
    h1: Seq<CallRecord>,
    slot: SlotView,
    out: Result<Vec<DomainInterface>, Error>,
) -> bool {
    if live {
        match out {
            Err(_) => {
                &&& pushed(h0, h1, CallRecord::IfaceAddrs { handle, source, ret_id: 0, count: 0 })
                &&& remote_error_result(slot, out)
            },
            Ok(v) => exists|arr: RemoteIfaces|
                #![auto]
                {
                    &&& arr.id != 0
                    &&& pushed2(
                        h0,
                        h1,
                        CallRecord::IfaceAddrs {
                            handle,
                            source,
                            ret_id: arr.id,
                            count: arr.items@.len() as usize,
                        },
                        CallRecord::FreeBuf { id: arr.id },
                    )
                    &&& v == arr.items
                },
        }
    } else {
        no_call(h0, h1) && invalid_result(out)
    }
}

impl Domain {
    /// Obtains an independent connection wrapper from a guest wrapper. The
    /// new handle carries its own release obligation; releasing it does not
    /// touch this guest.
    pub fn get_connect<R: Remote>(&self, remote: &mut R) -> (r: Result<Connect, Error>)
        ensures
            ops::handle_post(
                self.is_live(),
                self.handle(),
                HandleOp::DomainGetConnect,
                0,
                0,
                old(remote).history(),
                final(remote).history(),
                final(remote).error_slot(),
                crate::connect::connect_result(r),
            ),
            r matches Ok(c) ==> c.is_live(),
    {
        match ops::run_handle_op(remote, self.ptr, HandleOp::DomainGetConnect, "", 0, 0) {
            Ok(h) => Ok(Connect::new(h)),
            Err(e) => Err(e),
        }
    }

    /// Looks a guest up by its running identifier; a null answer — for
    /// instance an identifier no guest has — fails with the captured error
    /// snapshot, and no wrapper is produced.
    pub fn lookup_by_id<R: Remote>(conn: &Connect, remote: &mut R, id: u32) -> (r: Result<
        Domain,
        Error,
    >)
        ensures
            ops::handle_post(
                conn.is_live(),
                conn.handle(),
                HandleOp::DomainLookupById,
                id as i64,
                0,
                old(remote).history(),
                final(remote).history(),
                final(remote).error_slot(),
                domain_result(r),
            ),
            r matches Ok(d) ==> d.is_live(),
    {
        match ops::run_handle_op(
            remote,
            conn.raw_opt(),
            HandleOp::DomainLookupById,
            "",
            id as i64,
            0,
        ) {
            Ok(h) => Ok(Domain::new(h)),
            Err(e) => Err(e),
        }
    }

    /// Looks a guest up by name; a null answer — a name no guest bears —
    /// fails with the captured error snapshot, and no wrapper is produced.
    pub fn lookup_by_name<R: Remote>(conn: &Connect, remote: &mut R, id: &str) -> (r: Result<
        Domain,
        Error,
    >)
        ensures
            ops::handle_post(
                conn.is_live(),
                conn.handle(),
                HandleOp::DomainLookupByName,
                0,
                0,
                old(remote).history(),
                final(remote).history(),
                final(remote).error_slot(),
                domain_result(r),
            ),
            r matches Ok(d) ==> d.is_live(),
    {
        match ops::run_handle_op(remote, conn.raw_opt(), HandleOp::DomainLookupByName, id, 0, 0) {
            Ok(h) => Ok(Domain::new(h)),
            Err(e) => Err(e),
        }
    }

    /// Looks a guest up by its textual identifier, with the same contract as
    /// a lookup by name.
    pub fn lookup_by_uuid_string<R: Remote>(conn: &Connect, remote: &mut R, uuid: &str) -> (r:
        Result<Domain, Error>)
        ensures
            ops::handle_post(
                conn.is_live(),
                conn.handle(),
                HandleOp::DomainLookupByUuid,
                0,
                0,
                old(remote).history(),
                final(remote).history(),
                final(remote).error_slot(),
                domain_result(r),
            ),
            r matches Ok(d) ==> d.is_live(),
    {
        match ops::run_handle_op(remote, conn.raw_opt(), HandleOp::DomainLookupByUuid, uuid, 0, 0) {
            Ok(h) => Ok(Domain::new(h)),
            Err(e) => Err(e),
        }
    }

    /// Launches a new transient guest from a description, handing back the
    /// wrapper that owns the fresh handle.
    pub fn create_xml<R: Remote>(
        conn: &Connect,
        remote: &mut R,
        xml: &str,
        flags: DomainCreateFlags,
    ) -> (r: Result<Domain, Error>)
        ensures
            ops::handle_post(
                conn.is_live(),
                conn.handle(),
                HandleOp::DomainCreateXml,
                0,
                flags.bits,
                old(remote).history(),
                final(remote).history(),
                final(remote).error_slot(),
                domain_result(r),
            ),
            r matches Ok(d) ==> d.is_live(),
    {
        match ops::run_handle_op(
            remote,
            conn.raw_opt(),
            HandleOp::DomainCreateXml,
            xml,
            0,
            flags.bits(),
        ) {
            Ok(h) => Ok(Domain::new(h)),
            Err(e) => Err(e),
        }
    }

    /// Defines a persistent guest from a description without starting it.
    pub fn define_xml<R: Remote>(conn: &Connect, remote: &mut R, xml: &str) -> (r: Result<
        Domain,
        Error,
    >)
        ensures
            ops::handle_post(
                conn.is_live(),
                conn.handle(),
                HandleOp::DomainDefineXml,
                0,
                0,
                old(remote).history(),
                final(remote).history(),
                final(remote).error_slot(),
                domain_result(r),
            ),
            r matches Ok(d) ==> d.is_live(),
    {
        match ops::run_handle_op(remote, conn.raw_opt(), HandleOp::DomainDefineXml, xml, 0, 0) {
            Ok(h) => Ok(Domain::new(h)),
            Err(e) => Err(e),
        }
    }

    /// Defines a persistent guest from a description without starting it,
    /// with explicit options.
    pub fn define_xml_flags<R: Remote>(
        conn: &Connect,
        remote: &mut R,
        xml: &str,
        flags: DomainDefineFlags,
    ) -> (r: Result<Domain, Error>)
        ensures
            ops::handle_post(
                conn.is_live(),
                conn.handle(),
                HandleOp::DomainDefineXmlFlags,
                0,
                flags.bits,
                old(remote).history(),
                final(remote).history(),
                final(remote).error_slot(),
                domain_result(r),
            ),
            r matches Ok(d) ==> d.is_live(),
    {
        match ops::run_handle_op(
            remote,
            conn.raw_opt(),
            HandleOp::DomainDefineXmlFlags,
            xml,
            0,
            flags.bits(),
        ) {
            Ok(h) => Ok(Domain::new(h)),
            Err(e) => Err(e),
        }
    }

    /// The guest's name, copied from a buffer borrowed from the guest
    /// object: no free call is issued on it.
    pub fn get_name<R: Remote>(&self, remote: &mut R) -> (r: Result<String, Error>)
        ensures
            ops::str_post(
                self.is_live(),
                self.handle(),
                StrOp::DomainGetName,
                0,
                old(remote).history(),
                final(remote).history(),
                final(remote).error_slot(),
                r,
            ),
    {
        ops::run_str_op(remote, self.ptr, StrOp::DomainGetName, 0)
    }

    /// The guest's information record.
    pub fn get_info<R: Remote>(&self, remote: &mut R) -> (r: Result<DomainInfo, Error>)
        ensures
            info_post(
                self.is_live(),
                self.handle(),
                old(remote).history(),
                final(remote).history(),
                final(remote).error_slot(),
                r,
            ),
    {
        match self.ptr {
            None => Err(Error::invalid()),
            Some(h) => {
                let answer = remote.domain_info_op(h);
                match answer {
                    None => Err(ops::capture(remote)),
                    Some(raw) => {
                        let state = DomainState::new(raw.state);
                        match state {
                            Some(s) => {
                                let info = DomainInfo {
                                    state: s,
                                    max_mem: raw.max_mem,
                                    memory: raw.memory,
                                    nr_virt_cpu: raw.nr_virt_cpu,
                                    cpu_time: raw.cpu_time,
                                };
                                proof {
                                    assert(info == info_of(raw));
                                }
                                Ok(info)
                            },
                            None => {
                                proof {
                                    assert(false);
                                }
                                Err(Error::invalid())
                            },
                        }
                    },
                }
            },
        }
    }

    /// The guest's running state and the raw reason number it was entered
    /// for.
    pub fn get_state<R: Remote>(&self, remote: &mut R) -> (r: Result<(DomainState, i32), Error>)
        ensures
            state_post(
                self.is_live(),
                self.handle(),
                old(remote).history(),
                final(remote).history(),
                final(remote).error_slot(),
                r,
            ),
    {
        match self.ptr {
            None => Err(Error::invalid()),
            Some(h) => {
                let answer = remote.domain_state_op(h, 0);
                match answer {
                    None => Err(ops::capture(remote)),
                    Some((st, reason)) => {
                        let state = DomainState::new(st as u8);
                        match state {
                            Some(s) => Ok((s, reason)),
                            None => {
                                proof {
                                    assert(false);
                                }
                                Err(Error::invalid())
                            },
                        }
                    },
                }
            },
        }
    }

    /// Get the type of domain operating system. The answer is an owned
    /// buffer: it is copied and then freed exactly once.
    pub fn get_os_type<R: Remote>(&self, remote: &mut R) -> (r: Result<String, Error>)
        ensures
            ops::str_post(
                self.is_live(),
                self.handle(),
                StrOp::DomainGetOsType,
                0,
                old(remote).history(),
                final(remote).history(),
                final(remote).error_slot(),
                r,
            ),
    {
        ops::run_str_op(remote, self.ptr, StrOp::DomainGetOsType, 0)
    }

    /// Get the hostname for that domain. The answer is an owned buffer: it
    /// is copied and then freed exactly once.
    pub fn get_hostname<R: Remote>(&self, remote: &mut R, flags: u32) -> (r: Result<String, Error>)
        ensures
            ops::str_post(
                self.is_live(),
                self.handle(),
                StrOp::DomainGetHostname,
                flags,
                old(remote).history(),
                final(remote).history(),
                final(remote).error_slot(),
                r,
            ),
    {
        ops::run_str_op(remote, self.ptr, StrOp::DomainGetHostname, flags)
    }

    /// Get the UUID for a domain as string, through the caller's own small
    /// buffer.
    ///
    /// For more information about UUID see RFC4122.
    pub fn get_uuid_string<R: Remote>(&self, remote: &mut R) -> (r: Result<String, Error>)
        ensures
            ops::fill_post(
                self.is_live(),
                self.handle(),
                FillStrOp::DomainGetUuid,
                old(remote).history(),
                final(remote).history(),
                final(remote).error_slot(),
                r,
            ),
    {
        ops::run_fill_str_op(remote, self.ptr, FillStrOp::DomainGetUuid)
    }

    /// The hypervisor identifier of a running guest, or nothing when the
    /// guest has none.
    pub fn get_id<R: Remote>(&self, remote: &mut R) -> (r: Result<Option<u32>, Error>)
        ensures
            id_post(
                self.is_live(),
                self.handle(),
                old(remote).history(),
                final(remote).history(),
                r,
            ),
    {
        match self.ptr {
            None => Err(Error::invalid()),
            Some(h) => {
                let ret = remote.domain_id(h);
                if ret == u32::MAX {
                    Ok(None)
                } else {
                    Ok(Some(ret))
                }
            },
        }
    }

    /// Provide an XML description of the domain. The description may be
    /// reused later to relaunch the domain with `create_xml()`. The answer
    /// is an owned buffer: it is copied and then freed exactly once.
    pub fn get_xml_desc<R: Remote>(&self, remote: &mut R, flags: XmlFlags) -> (r: Result<
        String,
        Error,
    >)
        ensures
            ops::str_post(
                self.is_live(),
                self.handle(),
                StrOp::DomainGetXmlDesc,
                flags.bits,
                old(remote).history(),
                final(remote).history(),
                final(remote).error_slot(),
                r,
            ),
    {
        ops::run_str_op(remote, self.ptr, StrOp::DomainGetXmlDesc, flags.bits())
    }

    /// Launch a defined domain. If the call succeeds the domain moves from
    /// the defined to the running domains pools.
    pub fn create<R: Remote>(&self, remote: &mut R) -> (r: Result<(), Error>)
        ensures
            ops::unit_post(
                self.is_live(),
                self.handle(),
                IntOp::DomainCreate,
                0,
                0,
                0,
                old(remote).history(),
                final(remote).history(),
                final(remote).error_slot(),
                r,
            ),
    {
        ops::run_unit_op(remote, self.ptr, IntOp::DomainCreate, 0, 0, 0)
    }

    /// Launch a defined domain with explicit options.
    pub fn create_with_flags<R: Remote>(&self, remote: &mut R, flags: DomainCreateFlags) -> (r:
        Result<(), Error>)
        ensures
            ops::unit_post(
                self.is_live(),
                self.handle(),
                IntOp::DomainCreateWithFlags,
                0,
                0,
                flags.bits,
                old(remote).history(),
                final(remote).history(),
                final(remote).error_slot(),
                r,
            ),
    {
        ops::run_unit_op(remote, self.ptr, IntOp::DomainCreateWithFlags, 0, 0, flags.bits())
    }

    /// Destroy the domain. The running instance is shutdown if not down
    /// already and all resources used by it are given back to the
    /// hypervisor. This does not release the wrapper's own handle.
    pub fn destroy<R: Remote>(&self, remote: &mut R) -> (r: Result<(), Error>)
        ensures
            ops::unit_post(
                self.is_live(),
                self.handle(),
                IntOp::DomainDestroy,
                0,
                0,
                0,
                old(remote).history(),
                final(remote).history(),
                final(remote).error_slot(),
                r,
            ),
    {
        ops::run_unit_op(remote, self.ptr, IntOp::DomainDestroy, 0, 0, 0)
    }

    /// Destroy the domain with explicit options.
    pub fn destroy_flags<R: Remote>(&self, remote: &mut R, flags: DomainDestroyFlags) -> (r: Result<
        u32,
        Error,
    >)
        ensures
            ops::u32_post(
                self.is_live(),
                self.handle(),
                IntOp::DomainDestroyFlags,
                0,
                0,
                flags.bits,
                old(remote).history(),
                final(remote).history(),
                final(remote).error_slot(),
                r,
            ),
    {
        ops::run_u32_op(remote, self.ptr, IntOp::DomainDestroyFlags, 0, 0, flags.bits())
    }

    /// Shutdown a domain: the guest OS is asked to stop, and may ignore the
    /// request. The wrapper stays usable.
    pub fn shutdown<R: Remote>(&self, remote: &mut R) -> (r: Result<(), Error>)
        ensures
            ops::unit_post(
                self.is_live(),
                self.handle(),
                IntOp::DomainShutdown,
                0,
                0,
                0,
                old(remote).history(),
                final(remote).history(),
                final(remote).error_slot(),
                r,
            ),
    {
        ops::run_unit_op(remote, self.ptr, IntOp::DomainShutdown, 0, 0, 0)
    }

    /// Reboot a domain. Passing nothing encodes as the zero flag set, the
    /// hypervisor's default choice.
    pub fn reboot<R: Remote>(&self, remote: &mut R, flags: Option<RebootFlags>) -> (r: Result<
        (),
        Error,
    >)
        ensures
            ops::unit_post(
                self.is_live(),
                self.handle(),
                IntOp::DomainReboot,
                0,
                0,
                opt_reboot_bits(flags),
                old(remote).history(),
                final(remote).history(),
                final(remote).error_slot(),
                r,
            ),
    {
        let flags_value: u32 = match flags {
            None => 0,
            Some(f) => f.bits(),
        };
        ops::run_unit_op(remote, self.ptr, IntOp::DomainReboot, 0, 0, flags_value)
    }

    /// Suspend a domain: the guest is frozen without further access to CPU
    /// or I/O, but its memory stays allocated. Use `resume` to reactivate
    /// it.
    pub fn suspend<R: Remote>(&self, remote: &mut R) -> (r: Result<(), Error>)
        ensures
            ops::unit_post(
                self.is_live(),
                self.handle(),
                IntOp::DomainSuspend,
                0,
                0,
                0,
                old(remote).history(),
                final(remote).history(),
                final(remote).error_slot(),
                r,
            ),
    {
        ops::run_unit_op(remote, self.ptr, IntOp::DomainSuspend, 0, 0, 0)
    }

    /// Resume a suspended domain: the guest continues from where `suspend`
    /// froze it.
    pub fn resume<R: Remote>(&self, remote: &mut R) -> (r: Result<u32, Error>)
        ensures
            ops::u32_post(
                self.is_live(),
                self.handle(),
                IntOp::DomainResume,
                0,
                0,
                0,
                old(remote).history(),
                final(remote).history(),
                final(remote).error_slot(),
                r,
            ),
    {
        ops::run_u32_op(remote, self.ptr, IntOp::DomainResume, 0, 0, 0)
    }

    /// Determine if the domain is currently running.
    pub fn is_active<R: Remote>(&self, remote: &mut R) -> (r: Result<bool, Error>)
        ensures
            ops::bool_post(
                self.is_live(),
                self.handle(),
                IntOp::DomainIsActive,
                0,
                0,
                0,
                old(remote).history(),
                final(remote).history(),
                final(remote).error_slot(),
                r,
            ),
    {
        ops::run_bool_op(remote, self.ptr, IntOp::DomainIsActive, 0, 0, 0)
    }

    /// Undefine a domain: a running guest becomes transient, an inactive
    /// one has its configuration removed.
    pub fn undefine<R: Remote>(&self, remote: &mut R) -> (r: Result<(), Error>)
        ensures
            ops::unit_post(
                self.is_live(),
                self.handle(),
                IntOp::DomainUndefine,
                0,
                0,
                0,
                old(remote).history(),
                final(remote).history(),
                final(remote).error_slot(),
                r,
            ),
    {
        ops::run_unit_op(remote, self.ptr, IntOp::DomainUndefine, 0, 0, 0)
    }

    /// Whether the guest's definition was updated since it started.
    pub fn is_updated<R: Remote>(&self, remote: &mut R) -> (r: Result<bool, Error>)
        ensures
            ops::bool_post(
                self.is_live(),
                self.handle(),
                IntOp::DomainIsUpdated,
                0,
                0,
                0,
                old(remote).history(),
                final(remote).history(),
                final(remote).error_slot(),
                r,
            ),
    {
        ops::run_bool_op(remote, self.ptr, IntOp::DomainIsUpdated, 0, 0, 0)
    }

    /// Whether the guest starts automatically with the host.
    pub fn get_autostart<R: Remote>(&self, remote: &mut R) -> (r: Result<bool, Error>)
        ensures
            ops::autostart_post(
                self.is_live(),
                self.handle(),
                ObjectKind::Domain,
                old(remote).history(),
                final(remote).history(),
                final(remote).error_slot(),
                r,
            ),
    {
        ops::run_autostart(remote, self.ptr, ObjectKind::Domain)
    }

    /// Changes whether the guest starts automatically with the host.
    pub fn set_autostart<R: Remote>(&self, remote: &mut R, autostart: bool) -> (r: Result<
        bool,
        Error,
    >)
        ensures
            ops::bool_post(
                self.is_live(),
                self.handle(),
                IntOp::DomainSetAutostart,
                if autostart {
                    1
                } else {
                    0
                },
                0,
                0,
                old(remote).history(),
                final(remote).history(),
                final(remote).error_slot(),
                r,
            ),
    {
        let arg: u64 = if autostart {
            1
        } else {
            0
        };
        ops::run_bool_op(remote, self.ptr, IntOp::DomainSetAutostart, arg, 0, 0)
    }

    /// Raises or lowers the guest's memory ceiling, in KBytes.
    pub fn set_max_memory<R: Remote>(&self, remote: &mut R, memory: u64) -> (r: Result<(), Error>)
        ensures
            ops::unit_post(
                self.is_live(),
                self.handle(),
                IntOp::DomainSetMaxMemory,
                memory,
                0,
                0,
                old(remote).history(),
                final(remote).history(),
                final(remote).error_slot(),
                r,
            ),
    {
        ops::run_unit_op(remote, self.ptr, IntOp::DomainSetMaxMemory, memory, 0, 0)
    }

    /// The guest's memory ceiling in KBytes; the zero answer is the failure
    /// sentinel of this call.
    pub fn get_max_memory<R: Remote>(&self, remote: &mut R) -> (r: Result<u64, Error>)
        ensures
            ops::word_post(
                self.is_live(),
                self.handle(),
                WordOp::DomainGetMaxMemory,
                old(remote).history(),
                final(remote).history(),
                final(remote).error_slot(),
                r,
            ),
    {
        ops::run_word_op(remote, self.ptr, WordOp::DomainGetMaxMemory)
    }

    /// The most virtual CPUs this guest can be given; the zero answer is
    /// the failure sentinel of this call.
    pub fn get_max_vcpus<R: Remote>(&self, remote: &mut R) -> (r: Result<u64, Error>)
        ensures
            ops::word_post(
                self.is_live(),
                self.handle(),
                WordOp::DomainGetMaxVcpus,
                old(remote).history(),
                final(remote).history(),
                final(remote).error_slot(),
                r,
            ),
    {
        ops::run_word_op(remote, self.ptr, WordOp::DomainGetMaxVcpus)
    }

    /// Changes the guest's current memory allocation, in KBytes.
    pub fn set_memory<R: Remote>(&self, remote: &mut R, memory: u64) -> (r: Result<(), Error>)
        ensures
            ops::unit_post(
                self.is_live(),
                self.handle(),
                IntOp::DomainSetMemory,
                memory,
                0,
                0,
                old(remote).history(),
                final(remote).history(),
                final(remote).error_slot(),
                r,
            ),
    {
        ops::run_unit_op(remote, self.ptr, IntOp::DomainSetMemory, memory, 0, 0)
    }

    /// Changes the guest's memory allocation, in KBytes, for the chosen
    /// configuration.
    pub fn set_memory_flags<R: Remote>(
        &self,
        remote: &mut R,
        memory: u64,
        flags: DomainMemoryModFlags,
    ) -> (r: Result<(), Error>)
        ensures
            ops::unit_post(
                self.is_live(),
                self.handle(),
                IntOp::DomainSetMemoryFlags,
                memory,
                0,
                flags.bits,
                old(remote).history(),
                final(remote).history(),
                final(remote).error_slot(),
                r,
            ),
    {
        ops::run_unit_op(remote, self.ptr, IntOp::DomainSetMemoryFlags, memory, 0, flags.bits())
    }

    /// Changes how often the guest refreshes its memory statistics, in
    /// seconds.
    pub fn set_memory_stats_period<R: Remote>(
        &self,
        remote: &mut R,
        period: i32,
        flags: DomainMemoryModFlags,
    ) -> (r: Result<(), Error>)
        ensures
            ops::unit_post(
                self.is_live(),
                self.handle(),
                IntOp::DomainSetMemoryStatsPeriod,
                0,
                period as i64,
                flags.bits,
                old(remote).history(),
                final(remote).history(),
                final(remote).error_slot(),
                r,
            ),
    {
        ops::run_unit_op(
            remote,
            self.ptr,
            IntOp::DomainSetMemoryStatsPeriod,
            0,
            period as i64,
            flags.bits(),
        )
    }

    /// Changes the guest's number of virtual CPUs.
    pub fn set_vcpus<R: Remote>(&self, remote: &mut R, vcpus: u32) -> (r: Result<(), Error>)
        ensures
            ops::unit_post(
                self.is_live(),
                self.handle(),
                IntOp::DomainSetVcpus,
                vcpus as u64,
                0,
                0,
                old(remote).history(),
                final(remote).history(),
                final(remote).error_slot(),
                r,
            ),
    {
        ops::run_unit_op(remote, self.ptr, IntOp::DomainSetVcpus, vcpus as u64, 0, 0)
    }

    /// Changes the guest's number of virtual CPUs for the chosen
    /// configuration.
    pub fn set_vcpus_flags<R: Remote>(
        &self,
        remote: &mut R,
        vcpus: u32,
        flags: DomainVcpuFlags,
    ) -> (r: Result<(), Error>)
        ensures
            ops::unit_post(
                self.is_live(),
                self.handle(),
                IntOp::DomainSetVcpusFlags,
                vcpus as u64,
                0,
                flags.bits,
                old(remote).history(),
                final(remote).history(),
                final(remote).error_slot(),
                r,
            ),
    {
        ops::run_unit_op(remote, self.ptr, IntOp::DomainSetVcpusFlags, vcpus as u64, 0, flags.bits())
    }

    /// Restores a guest machine from a saved image on the given host path.
    pub fn domain_restore<R: Remote>(conn: &Connect, remote: &mut R, path: &str) -> (r: Result<
        (),
        Error,
    >)
        ensures
            restore_post(
                conn.is_live(),
                conn.handle(),
                false,
                0,
                old(remote).history(),
                final(remote).history(),
                final(remote).error_slot(),
                r,
            ),
    {
        match conn.raw_opt() {
            None => Err(Error::invalid()),
            Some(h) => {
                let ret = remote.restore_op(h, path, None, 0);
                if ret == -1 {
                    Err(ops::capture(remote))
                } else {
                    Ok(())
                }
            },
        }
    }

    /// Restores a guest machine from a saved image, optionally with an
    /// adjusted description and explicit options.
    pub fn domain_restore_flags<R: Remote>(
        conn: &Connect,
        remote: &mut R,
        path: &str,
        dxml: Option<&str>,
        flags: DomainSaveRestoreFlags,
    ) -> (r: Result<(), Error>)
        ensures
            restore_post(
                conn.is_live(),
                conn.handle(),
                dxml is Some,
                flags.bits,
                old(remote).history(),
                final(remote).history(),
                final(remote).error_slot(),
                r,
            ),
    {
        match conn.raw_opt() {
            None => Err(Error::invalid()),
            Some(h) => {
                let ret = remote.restore_op(h, path, dxml, flags.bits());
                if ret == -1 {
                    Err(ops::capture(remote))
                } else {
                    Ok(())
                }
            },
        }
    }

    /// The traffic counters of one guest interface, named by its path.
    pub fn interface_stats<R: Remote>(&self, remote: &mut R, path: &str) -> (r: Result<
        InterfaceStats,
        Error,
    >)
        ensures
            iface_stats_post(
                self.is_live(),
                self.handle(),
                old(remote).history(),
                final(remote).history(),
                final(remote).error_slot(),
                r,
            ),
    {
        match self.ptr {
            None => Err(Error::invalid()),
            Some(h) => {
                let answer = remote.iface_stats_op(h, path);
                match answer {
                    None => Err(ops::capture(remote)),
                    Some(stats) => Ok(stats),
                }
            },
        }
    }

    /// The guest's interfaces with their addresses, from the chosen source.
    /// On success the remote-allocated outer array is freed exactly once,
    /// after its contents were deep-copied.
    pub fn interface_addresses<R: Remote>(
        &self,
        remote: &mut R,
        source: InterfaceAddressSource,
    ) -> (r: Result<Vec<DomainInterface>, Error>)
        ensures
            iface_addrs_post(
                self.is_live(),
                self.handle(),
                source_bits(source),
                old(remote).history(),
                final(remote).history(),
                final(remote).error_slot(),
                r,
            ),
    {
        match self.ptr {
            None => Err(Error::invalid()),
            Some(h) => {
                let source_value = source.bits();
                let answer = remote.iface_addrs_op(h, source_value);
                match answer {
                    None => Err(ops::capture(remote)),
                    Some(arr) => {
                        let ghost garr = arr;
                        let RemoteIfaces { id, items } = arr;
                        remote.free_buf(id);
                        proof {
                            assert(pushed2(
                                old(remote).history(),
                                remote.history(),
                                CallRecord::IfaceAddrs {
                                    handle: h,
                                    source: source_value,
                                    ret_id: garr.id,
                                    count: garr.items@.len() as usize,
                                },
                                CallRecord::FreeBuf { id: garr.id },
                            ));
                        }
                        Ok(items)
                    },
                }
            },
        }
    }
}

} // verus!
