//! The boundary with the remote control library.
//!
//! Every native call the library can issue is a method of the [`Remote`]
//! trait. A trait implementation performs the call and answers with plain
//! values; the trait's contracts state only what holds of every outcome —
//! chiefly that each call appends exactly one matching record to the call
//! history — never that a call succeeds, since success is the remote side's
//! decision. The history and the error slot are the two specification-level
//! views through which the library's own contracts speak about the boundary.

use vstd::prelude::*;

use crate::domain::{DomainInterface, InterfaceStats};
use crate::error::{is_invalid_error, Error, ErrorKind, ErrorLevel};

verus! {

/// Size of the caller-supplied buffer for a textual object identifier,
/// terminator included: a returned identifier has at most one character
/// fewer.
pub const UUID_STRING_CAPACITY: usize = 37;

/// The kinds of remote object a wrapper can own a handle to.
#[derive(Clone, Copy, Debug, PartialEq, Eq, Structural)]
pub enum ObjectKind {
    Connect,
    Domain,
    Interface,
    Secret,
    StoragePool,
    StorageVol,
    Stream,
}

/// The calls that look an object up, define it or create it and answer with
/// a fresh handle (zero standing for the null answer).
#[derive(Clone, Copy, Debug, PartialEq, Eq, Structural)]
pub enum HandleOp {
    DomainGetConnect,
    DomainLookupById,
    DomainLookupByName,
    DomainLookupByUuid,
    DomainCreateXml,
    DomainDefineXml,
    DomainDefineXmlFlags,
    InterfaceGetConnect,
    InterfaceLookupByName,
    InterfaceLookupByMac,
    InterfaceDefineXml,
    SecretGetConnect,
    SecretDefineXml,
    SecretLookupByUuid,
    SecretLookupByUsage,
    PoolGetConnect,
    PoolDefineXml,
    PoolCreateXml,
    PoolLookupByName,
    PoolLookupByVolume,
    PoolLookupByUuid,
    VolGetConnect,
    VolLookupByKey,
    VolLookupByPath,
}

/// The calls that answer with a plain integer, `-1` standing for failure.
#[derive(Clone, Copy, Debug, PartialEq, Eq, Structural)]
pub enum IntOp {
    DomainCreate,
    DomainCreateWithFlags,
    DomainDestroy,
    DomainDestroyFlags,
    DomainShutdown,
    DomainReboot,
    DomainSuspend,
    DomainResume,
    DomainIsActive,
    DomainIsUpdated,
    DomainUndefine,
    DomainSetAutostart,
    DomainSetMaxMemory,
    DomainSetMemory,
    DomainSetMemoryFlags,
    DomainSetMemoryStatsPeriod,
    DomainSetVcpus,
    DomainSetVcpusFlags,
    InterfaceCreate,
    InterfaceDestroy,
    InterfaceUndefine,
    InterfaceIsActive,
    SecretGetUsageType,
    SecretUndefine,
    PoolCreate,
    PoolBuild,
    PoolDestroy,
    PoolDelete,
    PoolUndefine,
    PoolIsActive,
    PoolIsPersistent,
    PoolRefresh,
    PoolNumOfVolumes,
    PoolSetAutostart,
    VolDelete,
    VolWipe,
    VolWipePattern,
    VolResize,
    StreamFinish,
    StreamAbort,
}

/// The calls that answer with an unsigned machine word, zero standing for
/// failure.
#[derive(Clone, Copy, Debug, PartialEq, Eq, Structural)]
pub enum WordOp {
    DomainGetMaxMemory,
    DomainGetMaxVcpus,
}

/// The calls that answer with a text buffer (null standing for failure).
/// Whether the buffer is owned by the caller or borrowed from the remote
/// object is recorded per operation in the marshaling table.
#[derive(Clone, Copy, Debug, PartialEq, Eq, Structural)]
pub enum StrOp {
    DomainGetName,
    DomainGetOsType,
    DomainGetHostname,
    DomainGetXmlDesc,
    InterfaceGetName,
    InterfaceGetMac,
    InterfaceGetXmlDesc,
    SecretGetName,
    SecretGetUsageId,
    SecretGetXmlDesc,
    PoolGetName,
    PoolGetXmlDesc,
    VolGetName,
    VolGetKey,
    VolGetPath,
    VolGetXmlDesc,
}

/// The calls that fill a small caller-supplied text buffer of
/// [`UUID_STRING_CAPACITY`] bytes; no remote allocation changes hands.
#[derive(Clone, Copy, Debug, PartialEq, Eq, Structural)]
pub enum FillStrOp {
    DomainGetUuid,
    SecretGetUuid,
    PoolGetUuid,
}

/// The two bulk-data directions between a storage volume and a stream.
#[derive(Clone, Copy, Debug, PartialEq, Eq, Structural)]
pub enum TransferOp {
    VolDownload,
    VolUpload,
}

/// A remote-allocated text buffer: an opaque nonzero identifier standing for
/// its address, and its contents already decoded.
#[derive(Debug)]
pub struct RemoteBuf {
    pub id: u64,
    pub text: String,
}

/// A remote-allocated byte buffer.
#[derive(Debug)]
pub struct RemoteBytes {
    pub id: u64,
    pub data: Vec<u8>,
}

/// A remote-allocated array of object handles: the identifier of the outer
/// array allocation — to be freed exactly once by the marshaler — and the
/// handle values, whose release obligations pass to the wrappers built from
/// them.
#[derive(Debug)]
pub struct RemoteHandles {
    pub id: u64,
    pub handles: Vec<u64>,
}

/// A remote-allocated array of interface descriptions, every string already
/// deep-copied; only the outer allocation remains to be freed.
#[derive(Debug)]
pub struct RemoteIfaces {
    pub id: u64,
    pub items: Vec<DomainInterface>,
}

/// The raw fields of a guest-machine information answer, before the state
/// number is translated.
#[derive(Clone, Copy, Debug)]
pub struct RawDomainInfo {
    pub state: u8,
    pub max_mem: u64,
    pub memory: u64,
    pub nr_virt_cpu: u32,
    pub cpu_time: u64,
}

/// The raw fields of a storage-pool information answer.
#[derive(Clone, Copy, Debug)]
pub struct RawPoolInfo {
    pub state: i32,
    pub capacity: u64,
    pub allocation: u64,
    pub available: u64,
}

/// The raw fields of a storage-volume information answer.
#[derive(Clone, Copy, Debug)]
pub struct RawVolInfo {
    pub vol_type: i32,
    pub capacity: u64,
    pub allocation: u64,
}

/// The abstract content of the remote side's "most recent error" slot: the
/// fields the next capture would copy.
pub struct SlotView {
    pub code: i32,
    pub domain: i32,
    pub message: Seq<char>,
    pub level: ErrorLevel,
}

/// One native call as it entered the history: which call, with which
/// arguments that the lifecycle rules care about, and what came back.
#[derive(Clone, Copy, Debug, PartialEq, Eq, Structural)]
pub enum CallRecord {
    Open { read_only: bool, ret: u64 },
    Handle { op: HandleOp, parent: u64, num: i64, flags: u32, ret: u64 },
    Int { op: IntOp, handle: u64, arg: u64, sarg: i64, flags: u32, ret: i32 },
    Word { op: WordOp, handle: u64, ret: u64 },
    DomainId { handle: u64, ret: u32 },
    AutostartGet { kind: ObjectKind, handle: u64, ret: i32 },
    Str { op: StrOp, handle: u64, flags: u32, ret_id: u64 },
    FillStr { op: FillStrOp, handle: u64, ok: bool },
    IntList { handle: u64, capacity: usize, ok: bool, count: usize },
    StrList { handle: u64, capacity: usize, ok: bool, count: usize },
    HandleList { handle: u64, flags: u32, ret_id: u64, count: usize },
    IfaceAddrs { handle: u64, source: u32, ret_id: u64, count: usize },
    IfaceStatsQuery { handle: u64, ok: bool },
    DomainInfoQuery { handle: u64, ok: bool },
    DomainStateQuery { handle: u64, flags: u32, ok: bool },
    PoolInfoQuery { handle: u64, ok: bool },
    VolInfoQuery { handle: u64, flagged: bool, flags: u32, ok: bool },
    Bytes { handle: u64, flags: u32, ret_id: u64, count: usize },
    SetValue { handle: u64, len: usize, flags: u32, ret: i32 },
    Send { handle: u64, len: usize, ret: i32 },
    Recv { handle: u64, size: usize, ok: bool },
    Restore { handle: u64, has_dxml: bool, flags: u32, ret: i32 },
    Transfer {
        op: TransferOp,
        vol: u64,
        stream: u64,
        offset: u64,
        length: u64,
        flags: u32,
        ret: i32,
    },
    Release { kind: ObjectKind, handle: u64, ret: i32 },
    FreeBuf { id: u64 },
}

/// Holds when no native call was issued between the two histories.
pub open spec fn no_call(h0: Seq<CallRecord>, h1: Seq<CallRecord>) -> bool {
    h1 == h0
}

/// Holds when exactly the given call was issued between the two histories.
pub open spec fn pushed(h0: Seq<CallRecord>, h1: Seq<CallRecord>, rec: CallRecord) -> bool {
    h1 == h0.push(rec)
}

/// Holds when exactly the two given calls were issued, in order, between the
/// two histories.
pub open spec fn pushed2(
    h0: Seq<CallRecord>,
    h1: Seq<CallRecord>,
    rec1: CallRecord,
    rec2: CallRecord,
) -> bool {
    h1 == h0.push(rec1).push(rec2)
}

/// Holds when the error is a faithful owned copy of the given slot content.
pub open spec fn matches_slot(e: Error, s: SlotView) -> bool {
    &&& e@.kind == ErrorKind::Remote
    &&& e@.code == s.code
    &&& e@.domain == s.domain
    &&& e@.message == s.message
    &&& e@.level == s.level
}

/// Holds when a fallible operation answered with the local fail-fast error
/// for a released wrapper.
pub open spec fn invalid_result<T>(r: Result<T, Error>) -> bool {
    r matches Err(e) && is_invalid_error(e)
}

/// Holds when a fallible operation surfaced the remote side's error slot as
/// it stood when the operation returned.
pub open spec fn remote_error_result<T>(slot: SlotView, out: Result<T, Error>) -> bool {
    out matches Err(e) && matches_slot(e, slot)
}

/// The identifier field a text answer enters the history with: the buffer's
/// identifier, or zero for the null answer.
pub open spec fn buf_ret_id(r: Option<RemoteBuf>) -> u64 {
    match r {
        None => 0,
        Some(b) => b.id,
    }
}

/// The identifier a handle-array answer enters the history with.
pub open spec fn handles_ret_id(r: Option<RemoteHandles>) -> u64 {
    match r {
        None => 0,
        Some(a) => a.id,
    }
}

/// The element count a handle-array answer enters the history with.
pub open spec fn handles_count(r: Option<RemoteHandles>) -> usize {
    match r {
        None => 0,
        Some(a) => a.handles@.len() as usize,
    }
}

/// The identifier an interface-array answer enters the history with.
pub open spec fn ifaces_ret_id(r: Option<RemoteIfaces>) -> u64 {
    match r {
        None => 0,
        Some(a) => a.id,
    }
}

/// The element count an interface-array answer enters the history with.
pub open spec fn ifaces_count(r: Option<RemoteIfaces>) -> usize {
    match r {
        None => 0,
        Some(a) => a.items@.len() as usize,
    }
}

/// The identifier a byte-buffer answer enters the history with.
pub open spec fn bytes_ret_id(r: Option<RemoteBytes>) -> u64 {
    match r {
        None => 0,
        Some(b) => b.id,
    }
}

/// The byte count a byte-buffer answer enters the history with.
pub open spec fn bytes_count(r: Option<RemoteBytes>) -> usize {
    match r {
        None => 0,
        Some(b) => b.data@.len() as usize,
    }
}

/// The element count a bounded-list answer enters the history with.
pub open spec fn list_count<T>(r: Option<Vec<T>>) -> usize {
    match r {
        None => 0,
        Some(v) => v@.len() as usize,
    }
}

/// The synchronous boundary with the remote control library.
///
/// Each method issues one native call and appends one matching record to the
/// history; nothing is promised about which outcome comes back. An
/// implementation over the real control library performs the foreign call
/// and translates its raw buffers; [`crate::script::ScriptedRemote`] replays
/// prepared outcomes instead.
pub trait Remote: Sized {
    /// Every native call issued so far, in order, with its outcome. An
    /// adapter over the real control library may leave this default — its
    /// calls are not observable anyway; a verified implementation gives it
    /// the real record.
    open spec fn history(&self) -> Seq<CallRecord> {
        Seq::empty()
    }

    /// The fields currently held by the remote side's "most recent error"
    /// slot. The slot is shared mutable state: a later failing call may
    /// overwrite it, which is why every capture happens immediately after
    /// the failing call.
    open spec fn error_slot(&self) -> SlotView {
        SlotView { code: 0, domain: 0, message: Seq::empty(), level: ErrorLevel::NONE }
    }

    /// Copies the current error slot into an owned snapshot. Issues no
    /// remote round trip.
    fn last_error(&self) -> (e: Error)
        ensures
            matches_slot(e, self.error_slot()),
    ;

    /// Opens a connection to the daemon named by the URI; zero stands for
    /// the null (failure) answer.
    fn open(&mut self, uri: &str, read_only: bool) -> (h: u64)
        ensures
            pushed(old(self).history(), final(self).history(), CallRecord::Open { read_only, ret: h }),
    ;

    /// Looks up, defines or creates an object under the given parent handle;
    /// zero stands for the null (failure) answer.
    fn handle_op(&mut self, op: HandleOp, parent: u64, key: &str, num: i64, flags: u32) -> (h: u64)
        ensures
            pushed(old(self).history(), final(self).history(), CallRecord::Handle { op, parent, num, flags, ret: h }),
    ;

    /// Issues a call that answers with a plain integer; `-1` stands for
    /// failure, any other answer is at least zero.
    fn int_op(&mut self, op: IntOp, handle: u64, arg: u64, sarg: i64, flags: u32) -> (r: i32)
        ensures
            pushed(old(self).history(), final(self).history(), CallRecord::Int { op, handle, arg, sarg, flags, ret: r }),
            r >= -1,
    ;

    /// Issues a call that answers with an unsigned machine word; zero stands
    /// for failure.
    fn word_op(&mut self, op: WordOp, handle: u64) -> (r: u64)
        ensures
            pushed(old(self).history(), final(self).history(), CallRecord::Word { op, handle, ret: r }),
    ;

    /// Asks for the running identifier of a guest machine; the all-ones
    /// answer stands for "none".
    fn domain_id(&mut self, handle: u64) -> (r: u32)
        ensures
            pushed(old(self).history(), final(self).history(), CallRecord::DomainId { handle, ret: r }),
    ;

    /// Asks whether an object starts automatically; `-1` stands for failure,
    /// otherwise the answer is zero or one.
    fn autostart_get(&mut self, kind: ObjectKind, handle: u64) -> (r: i32)
        ensures
            pushed(old(self).history(), final(self).history(), CallRecord::AutostartGet { kind, handle, ret: r }),
            -1 <= r <= 1,
    ;

    /// Issues a call that answers with a text buffer; the null answer stands
    /// for failure, and a returned buffer carries a nonzero identifier.
    fn str_op(&mut self, op: StrOp, handle: u64, flags: u32) -> (r: Option<RemoteBuf>)
        ensures
            pushed(
                old(self).history(),
                final(self).history(),
                CallRecord::Str { op, handle, flags, ret_id: buf_ret_id(r) },
            ),
            r matches Some(b) ==> b.id != 0,
    ;

    /// Issues a call that fills a caller-supplied buffer of
    /// [`UUID_STRING_CAPACITY`] bytes with a terminated identifier.
    fn fill_str_op(&mut self, op: FillStrOp, handle: u64) -> (r: Option<String>)
        ensures
            pushed(old(self).history(), final(self).history(), CallRecord::FillStr { op, handle, ok: r is Some }),
            r matches Some(s) ==> s@.len() < UUID_STRING_CAPACITY,
    ;

    /// Issues a bounded list call for numeric identifiers. The remote side
    /// writes at most `capacity` entries into the caller's buffer; a larger
    /// true count is truncated at that boundary.
    fn int_list_op(&mut self, handle: u64, capacity: usize) -> (r: Option<Vec<u32>>)
        ensures
            pushed(
                old(self).history(),
                final(self).history(),
                CallRecord::IntList { handle, capacity, ok: r is Some, count: list_count(r) },
            ),
            r matches Some(v) ==> v@.len() <= capacity,
    ;

    /// Issues a bounded list call for names. Each returned entry is a
    /// remote-allocated text buffer that the marshaler must free after
    /// copying; a true count larger than `capacity` is truncated.
    fn str_list_op(&mut self, handle: u64, capacity: usize) -> (r: Option<Vec<RemoteBuf>>)
        ensures
            pushed(
                old(self).history(),
                final(self).history(),
                CallRecord::StrList { handle, capacity, ok: r is Some, count: list_count(r) },
            ),
            r matches Some(v) ==> v@.len() <= capacity && (forall|i: int|
                0 <= i < v@.len() ==> #[trigger] v@[i].id != 0),
    ;

    /// Issues the call that answers with a remote-allocated array of guest
    /// handles; the outer array identifier is nonzero and must be freed
    /// exactly once by the marshaler.
    fn handle_list_op(&mut self, handle: u64, flags: u32) -> (r: Option<RemoteHandles>)
        ensures
            pushed(
                old(self).history(),
                final(self).history(),
                CallRecord::HandleList {
                    handle,
                    flags,
                    ret_id: handles_ret_id(r),
                    count: handles_count(r),
                },
            ),
            r matches Some(a) ==> a.id != 0,
    ;

    /// Issues the call that answers with a remote-allocated array of
    /// interface descriptions, every string already deep-copied; the outer
    /// array identifier is nonzero and must be freed exactly once.
    fn iface_addrs_op(&mut self, handle: u64, source: u32) -> (r: Option<RemoteIfaces>)
        ensures
            pushed(
                old(self).history(),
                final(self).history(),
                CallRecord::IfaceAddrs {
                    handle,
                    source,
                    ret_id: ifaces_ret_id(r),
                    count: ifaces_count(r),
                },
            ),
            r matches Some(a) ==> a.id != 0,
    ;

    /// Asks for the traffic counters of one guest interface; the answer is
    /// written into a caller-supplied record, so nothing remains to free.
    fn iface_stats_op(&mut self, handle: u64, path: &str) -> (r: Option<InterfaceStats>)
        ensures
            pushed(old(self).history(), final(self).history(), CallRecord::IfaceStatsQuery { handle, ok: r is Some }),
    ;

    /// Asks for the guest-machine information record; a returned state
    /// number is within the eight-value catalog.
    fn domain_info_op(&mut self, handle: u64) -> (r: Option<RawDomainInfo>)
        ensures
            pushed(old(self).history(), final(self).history(), CallRecord::DomainInfoQuery { handle, ok: r is Some }),
            r matches Some(i) ==> i.state <= 7,
    ;

    /// Asks for the running state and the reason it was entered; a returned
    /// state number is within the eight-value catalog.
    fn domain_state_op(&mut self, handle: u64, flags: u32) -> (r: Option<(i32, i32)>)
        ensures
            pushed(
                old(self).history(),
                final(self).history(),
                CallRecord::DomainStateQuery { handle, flags, ok: r is Some },
            ),
            r matches Some(p) ==> 0 <= p.0 <= 7,
    ;

    /// Asks for the storage-pool information record; a returned state number
    /// is within the six-value catalog.
    fn pool_info_op(&mut self, handle: u64) -> (r: Option<RawPoolInfo>)
        ensures
            pushed(old(self).history(), final(self).history(), CallRecord::PoolInfoQuery { handle, ok: r is Some }),
            r matches Some(i) ==> 0 <= i.state <= 5,
    ;

    /// Asks for the storage-volume information record; a returned type
    /// number is within the seven-value catalog.
    fn vol_info_op(&mut self, handle: u64, flagged: bool, flags: u32) -> (r: Option<RawVolInfo>)
        ensures
            pushed(
                old(self).history(),
                final(self).history(),
                CallRecord::VolInfoQuery { handle, flagged, flags, ok: r is Some },
            ),
            r matches Some(i) ==> 0 <= i.vol_type <= 6,
    ;

    /// Asks for the value of a secret as a remote-allocated byte buffer.
    fn bytes_op(&mut self, handle: u64, flags: u32) -> (r: Option<RemoteBytes>)
        ensures
            pushed(
                old(self).history(),
                final(self).history(),
                CallRecord::Bytes { handle, flags, ret_id: bytes_ret_id(r), count: bytes_count(r) },
            ),
            r matches Some(b) ==> b.id != 0,
    ;

    /// Hands a byte value to a secret; `-1` stands for failure.
    fn set_value_op(&mut self, handle: u64, value: &[u8], flags: u32) -> (r: i32)
        ensures
            pushed(
                old(self).history(),
                final(self).history(),
                CallRecord::SetValue { handle, len: value@.len() as usize, flags, ret: r },
            ),
            r >= -1,
    ;

    /// Writes data into a stream; the answer is the number of bytes
    /// accepted, or `-1` for failure.
    fn send_op(&mut self, handle: u64, data: &str) -> (r: i32)
        ensures
            pushed(
                old(self).history(),
                final(self).history(),
                CallRecord::Send { handle, len: data@.len() as usize, ret: r },
            ),
            r == -1 || (0 <= r && r <= data@.len()),
    ;

    /// Reads at most `size` bytes from a stream into a caller-supplied
    /// buffer; nothing remains to free.
    fn recv_op(&mut self, handle: u64, size: usize) -> (r: Option<String>)
        ensures
            pushed(old(self).history(), final(self).history(), CallRecord::Recv { handle, size, ok: r is Some }),
            r matches Some(s) ==> s@.len() <= size,
    ;

    /// Restores a guest machine from a saved image on the given path,
    /// optionally with an adjusted description; `-1` stands for failure.
    fn restore_op(&mut self, handle: u64, path: &str, dxml: Option<&str>, flags: u32) -> (r: i32)
        ensures
            pushed(
                old(self).history(),
                final(self).history(),
                CallRecord::Restore { handle, has_dxml: dxml is Some, flags, ret: r },
            ),
            r >= -1,
    ;

    /// Moves bulk data between a storage volume and a stream; `-1` stands
    /// for failure.
    fn transfer_op(
        &mut self,
        op: TransferOp,
        vol: u64,
        stream: u64,
        offset: u64,
        length: u64,
        flags: u32,
    ) -> (r: i32)
        ensures
            pushed(
                old(self).history(),
                final(self).history(),
                CallRecord::Transfer { op, vol, stream, offset, length, flags, ret: r },
            ),
            r >= -1,
    ;

    /// Releases the local proxy behind a handle; `-1` stands for failure.
    /// The remote object itself is destroyed only by its own explicit
    /// operation, never by this call.
    fn release_op(&mut self, kind: ObjectKind, handle: u64) -> (r: i32)
        ensures
            pushed(old(self).history(), final(self).history(), CallRecord::Release { kind, handle, ret: r }),
            r >= -1,
    ;

    /// Frees one remote-allocated buffer or outer array by its identifier.
    fn free_buf(&mut self, id: u64)
        ensures
            pushed(old(self).history(), final(self).history(), CallRecord::FreeBuf { id }),
    ;
}

} // verus!
