//! The wrapper for a connection to the control daemon, and the list
//! operations that hang off it.

use vstd::prelude::*;

use crate::domain::Domain;
use crate::error::Error;
use crate::marshal::free_records;
use crate::ops;
use crate::remote::{
    invalid_result, no_call, pushed, pushed2, remote_error_result, CallRecord, ObjectKind, Remote,
    RemoteHandles, SlotView,
};

pub mod flags;

use crate::connect::flags::ListAllDomainsFlags;

verus! {

/// How many running-guest identifiers the bounded list call can hand back
/// in one answer. A connection with more running guests than this has the
/// overflow silently truncated at this boundary: that is the fixed-buffer
/// convention of the underlying call, made explicit here.
pub const ACTIVE_DOMAINS_CAPACITY: usize = 512;

/// How many defined-guest names the bounded list call can hand back in one
/// answer; a larger true count is truncated at this boundary.
pub const DEFINED_DOMAINS_CAPACITY: usize = 1024;

/// A wrapper-producing result, seen as the raw handle it owns; used to
/// restate the generic lookup contract for connection results.
pub open spec fn connect_result(r: Result<Connect, Error>) -> Result<u64, Error> {
    match r {
        Ok(c) => Ok(c.handle()),
        Err(e) => Err(e),
    }
}

/// The zero encoding of an absent flag set for guest listing.
pub open spec fn opt_domain_flags_bits(f: Option<ListAllDomainsFlags>) -> u32 {
    match f {
        None => 0,
        Some(f) => f.bits,
    }
}

/// Contract of opening a connection: exactly one open call is issued, the
/// null answer surfaces the captured error slot and no wrapper is produced,
/// any other answer becomes a live wrapper owning that handle.
pub open spec fn open_post(
    read_only: bool,
    h0: Seq<CallRecord>,
    h1: Seq<CallRecord>,
    slot: SlotView,
    out: Result<Connect, Error>,
) -> bool {
    exists|ret: u64|
        {
            &&& #[trigger] pushed(h0, h1, CallRecord::Open { read_only, ret })
            &&& if ret == 0 {
                remote_error_result(slot, out)
            } else {
                out matches Ok(c) && c.is_live() && c.handle() == ret
            }
        }
}

/// Contract of listing all guests: one list call; on success one wrapper
/// per returned handle — exactly as many as the answer's count — and exactly
/// one free of the outer array allocation, with no release issued on any
/// element handle.
pub open spec fn list_all_domains_post(
    live: bool,
    handle: u64,
    flags: u32,
    h0: Seq<CallRecord>,
    h1: Seq<CallRecord>,
    slot: SlotView,
    out: Result<Vec<Domain>, Error>,
) -> bool {
    if live {
        match out {
            Err(_) => {
                &&& pushed(h0, h1, CallRecord::HandleList { handle, flags, ret_id: 0, count: 0 })
                &&& remote_error_result(slot, out)
            },
            Ok(ds) => exists|arr: RemoteHandles|
                #![auto]
                {
                    &&& arr.id != 0
                    &&& pushed2(
                        h0,
                        h1,
                        CallRecord::HandleList {
                            handle,
                            flags,
                            ret_id: arr.id,
                            count: arr.handles@.len() as usize,
                        },
                        CallRecord::FreeBuf { id: arr.id },
                    )
                    &&& ds@.len() == arr.handles@.len()
                    &&& forall|i: int|
                        0 <= i < ds@.len() ==> (#[trigger] ds@[i]).is_live() && ds@[i].handle()
                            == arr.handles@[i]
                },
        }
    } else {
        no_call(h0, h1) && invalid_result(out)
    }
}

/// Contract of a bounded numeric list call: one call; on success the
/// returned identifiers, at most the buffer capacity many.
pub open spec fn int_list_post(
    live: bool,
    handle: u64,
    capacity: usize,
    h0: Seq<CallRecord>,
    h1: Seq<CallRecord>,
    slot: SlotView,
    out: Result<Vec<u32>, Error>,
) -> bool {
    if live {
        match out {
            Err(_) => {
                &&& pushed(h0, h1, CallRecord::IntList { handle, capacity, ok: false, count: 0 })
                &&& remote_error_result(slot, out)
            },
            Ok(v) => {
                &&& pushed(
                    h0,
                    h1,
                    CallRecord::IntList { handle, capacity, ok: true, count: v@.len() as usize },
                )
                &&& v@.len() <= capacity
            },
        }
    } else {
        no_call(h0, h1) && invalid_result(out)
    }
}

/// Contract of a bounded name list call: one call; on success a copy of
/// each returned name, at most the buffer capacity many, and exactly one
/// free per returned name buffer, in order, after its copy.
pub open spec fn str_list_post(
    live: bool,
    handle: u64,
    capacity: usize,
    h0: Seq<CallRecord>,
    h1: Seq<CallRecord>,
    slot: SlotView,
    out: Result<Vec<String>, Error>,
) -> bool {
    if live {
        match out {
            Err(_) => {
                &&& pushed(h0, h1, CallRecord::StrList { handle, capacity, ok: false, count: 0 })
                &&& remote_error_result(slot, out)
            },
            Ok(names) => exists|bufs: Seq<crate::remote::RemoteBuf>|
                #![auto]
                {
                    &&& h1 == h0.push(
                        CallRecord::StrList {
                            handle,
                            capacity,
                            ok: true,
                            count: bufs.len() as usize,
                        },
                    ) + free_records(bufs)
                    &&& names@.len() == bufs.len()
                    &&& bufs.len() <= capacity
                    &&& forall|i: int| 0 <= i < bufs.len() ==> #[trigger] names@[i]@ == bufs[i].text@
                },
        }
    } else {
        no_call(h0, h1) && invalid_result(out)
    }
}

/// Law of the handle-array marshaler: a successful listing of all guests
/// builds exactly as many wrappers as the answer's reported count, frees
/// exactly one allocation — the outer array — and releases no handle at
/// all, so every element handle stays owned by its new wrapper.
pub proof fn lemma_list_all_domains_discipline(
    handle: u64,
    flags: u32,
    h0: Seq<CallRecord>,
    h1: Seq<CallRecord>,
    slot: SlotView,
    out: Result<Vec<Domain>, Error>,
)
    requires
        list_all_domains_post(true, handle, flags, h0, h1, slot, out),
        out is Ok,
    ensures
        crate::marshal::free_count(h1) == crate::marshal::free_count(h0) + 1,
        crate::marshal::release_count(h1) == crate::marshal::release_count(h0),
        h1.len() == h0.len() + 2 && (h1[h0.len() as int] matches CallRecord::HandleList {
            count,
            ..
        } && out->Ok_0@.len() as usize == count),
{
    let ds = out->Ok_0;
    let arr = choose|arr: RemoteHandles|
        #![auto]
        {
            &&& arr.id != 0
            &&& pushed2(
                h0,
                h1,
                CallRecord::HandleList {
                    handle,
                    flags,
                    ret_id: arr.id,
                    count: arr.handles@.len() as usize,
                },
                CallRecord::FreeBuf { id: arr.id },
            )
            &&& ds@.len() == arr.handles@.len()
            &&& forall|i: int|
                0 <= i < ds@.len() ==> (#[trigger] ds@[i]).is_live() && ds@[i].handle()
                    == arr.handles@[i]
        };
    let list_rec = CallRecord::HandleList {
        handle,
        flags,
        ret_id: arr.id,
        count: arr.handles@.len() as usize,
    };
    crate::marshal::lemma_free_count_push(h0, list_rec);
    crate::marshal::lemma_free_count_push(h0.push(list_rec), CallRecord::FreeBuf { id: arr.id });
    crate::marshal::lemma_release_count_push(h0, list_rec);
    crate::marshal::lemma_release_count_push(h0.push(list_rec), CallRecord::FreeBuf { id: arr.id });
}

/// Law of the bounded name-list marshaler: a successful listing of defined
/// guests frees exactly one allocation per returned name — each name buffer
/// once, after its copy — and releases no handle.
pub proof fn lemma_list_defined_domains_discipline(
    handle: u64,
    capacity: usize,
    h0: Seq<CallRecord>,
    h1: Seq<CallRecord>,
    slot: SlotView,
    out: Result<Vec<String>, Error>,
)
    requires
        str_list_post(true, handle, capacity, h0, h1, slot, out),
        out is Ok,
    ensures
        crate::marshal::free_count(h1) == crate::marshal::free_count(h0) + out->Ok_0@.len(),
        crate::marshal::release_count(h1) == crate::marshal::release_count(h0),
{
    let names = out->Ok_0;
    let bufs = choose|bufs: Seq<crate::remote::RemoteBuf>|
        #![auto]
        {
            &&& h1 == h0.push(
                CallRecord::StrList { handle, capacity, ok: true, count: bufs.len() as usize },
            ) + free_records(bufs)
            &&& names@.len() == bufs.len()
            &&& bufs.len() <= capacity
            &&& forall|i: int| 0 <= i < bufs.len() ==> #[trigger] names@[i]@ == bufs[i].text@
        };
    let list_rec = CallRecord::StrList { handle, capacity, ok: true, count: bufs.len() as usize };
    crate::marshal::lemma_free_count_push(h0, list_rec);
    crate::marshal::lemma_release_count_push(h0, list_rec);
    crate::marshal::lemma_free_count_concat_frees(h0.push(list_rec), bufs);
}

/// The wrapper owning the handle of one connection to the control daemon.
#[derive(Debug)]
pub struct Connect {
    ptr: Option<u64>,
}

impl Connect {
    /// The handle state: present while live, absent once closed.
    pub closed spec fn raw(&self) -> Option<u64> {
        self.ptr
    }

    /// The wrapper still owns its handle and its one release obligation.
    pub open spec fn is_live(&self) -> bool {
        self.raw() is Some
    }

    /// The wrapper was closed; its handle is gone for good.
    pub open spec fn is_released(&self) -> bool {
        !self.is_live()
    }

    /// The owned handle of a live wrapper.
    pub open spec fn handle(&self) -> u64 {
        self.raw()->0
    }

    /// Stores a handle obtained from an open call as a live wrapper. Only
    /// the open family of operations calls this.
    pub fn new(ptr: u64) -> (c: Connect)
        ensures
            c.is_live(),
            c.handle() == ptr,
    {
        Connect { ptr: Some(ptr) }
    }

    /// The raw handle, for handing to an adapter; the wrapper must still be
    /// live.
    pub fn as_ptr(&self) -> (r: u64)
        requires
            self.is_live(),
        ensures
            r == self.handle(),
    {
        self.ptr.unwrap()
    }

    /// The handle state, for the operations of the other wrappers that run
    /// against this connection.
    pub(crate) fn raw_opt(&self) -> (r: Option<u64>)
        ensures
            r == self.raw(),
    {
        self.ptr
    }

    /// Opens a connection to the daemon named by the URI. The null answer —
    /// for instance for a malformed URI the daemon rejects — surfaces the
    /// captured error snapshot, and no wrapper is produced.
    pub fn open<R: Remote>(remote: &mut R, uri: &str) -> (r: Result<Connect, Error>)
        ensures
            open_post(
                false,
                old(remote).history(),
                final(remote).history(),
                final(remote).error_slot(),
                r,
            ),
    {
        let h = remote.open(uri, false);
        if h == 0 {
            Err(ops::capture(remote))
        } else {
            Ok(Connect::new(h))
        }
    }

    /// Opens a read-only connection to the daemon named by the URI, with
    /// the same contract as [`Connect::open`].
    pub fn open_read_only<R: Remote>(remote: &mut R, uri: &str) -> (r: Result<Connect, Error>)
        ensures
            open_post(
                true,
                old(remote).history(),
                final(remote).history(),
                final(remote).error_slot(),
                r,
            ),
    {
        let h = remote.open(uri, true);
        if h == 0 {
            Err(ops::capture(remote))
        } else {
            Ok(Connect::new(h))
        }
    }

    /// Releases the local proxy for the connection. A live wrapper issues
    /// the release call exactly once and becomes released even if that call
    /// fails; a released wrapper answers success without any remote call.
    pub fn close<R: Remote>(&mut self, remote: &mut R) -> (r: Result<(), Error>)
        ensures
            final(self).is_released(),
            ops::release_post(
                old(self).raw(),
                ObjectKind::Connect,
                old(remote).history(),
                final(remote).history(),
                final(remote).error_slot(),
                r,
            ),
    {
        ops::run_release(remote, &mut self.ptr, ObjectKind::Connect)
    }

    /// Lists all guest machines of this connection, filtered by the given
    /// flag set (absent encodes as zero). On success one live wrapper is
    /// built per returned handle — taking over that handle's release
    /// obligation — and the remote-allocated outer array is freed exactly
    /// once; the element handles themselves are never released here.
    pub fn list_all_domains<R: Remote>(
        &self,
        remote: &mut R,
        flags: Option<ListAllDomainsFlags>,
    ) -> (r: Result<Vec<Domain>, Error>)
        ensures
            list_all_domains_post(
                self.is_live(),
                self.handle(),
                opt_domain_flags_bits(flags),
                old(remote).history(),
                final(remote).history(),
                final(remote).error_slot(),
                r,
            ),
    {
        let flags_value: u32 = match flags {
            None => 0,
            Some(f) => f.bits(),
        };
        match self.ptr {
            None => Err(Error::invalid()),
            Some(h) => {
                let answer = remote.handle_list_op(h, flags_value);
                match answer {
                    None => Err(ops::capture(remote)),
                    Some(arr) => {
                        let ghost garr = arr;
                        let RemoteHandles { id, handles } = arr;
                        let mut ds: Vec<Domain> = Vec::new();
                        let mut i: usize = 0;
                        while i < handles.len()
                            invariant
                                i <= handles@.len(),
                                ds@.len() == i,
                                forall|j: int|
                                    0 <= j < i ==> (#[trigger] ds@[j]).is_live() && ds@[j].handle()
                                        == handles@[j],
                            decreases handles@.len() - i,
                        {
                            ds.push(Domain::new(handles[i]));
                            i = i + 1;
                        }
                        remote.free_buf(id);
                        proof {
                            assert(pushed2(
                                old(remote).history(),
                                remote.history(),
                                CallRecord::HandleList {
                                    handle: h,
                                    flags: flags_value,
                                    ret_id: garr.id,
                                    count: garr.handles@.len() as usize,
                                },
                                CallRecord::FreeBuf { id: garr.id },
                            ));
                        }
                        Ok(ds)
                    },
                }
            },
        }
    }

    /// Lists the numeric identifiers of the running guest machines, through
    /// the bounded buffer of [`ACTIVE_DOMAINS_CAPACITY`] entries.
    pub fn list_active_domains<R: Remote>(&self, remote: &mut R) -> (r: Result<Vec<u32>, Error>)
        ensures
            int_list_post(
                self.is_live(),
                self.handle(),
                ACTIVE_DOMAINS_CAPACITY,
                old(remote).history(),
                final(remote).history(),
                final(remote).error_slot(),
                r,
            ),
    {
        match self.ptr {
            None => Err(Error::invalid()),
            Some(h) => {
                let answer = remote.int_list_op(h, ACTIVE_DOMAINS_CAPACITY);
                match answer {
                    None => Err(ops::capture(remote)),
                    Some(ids) => Ok(ids),
                }
            },
        }
    }

    /// Lists the names of the defined guest machines, through the bounded
    /// buffer of [`DEFINED_DOMAINS_CAPACITY`] entries. Every returned name
    /// buffer is owned: each is copied and then freed exactly once.
    pub fn list_defined_domains<R: Remote>(&self, remote: &mut R) -> (r: Result<Vec<String>, Error>)
        ensures
            str_list_post(
                self.is_live(),
                self.handle(),
                DEFINED_DOMAINS_CAPACITY,
                old(remote).history(),
                final(remote).history(),
                final(remote).error_slot(),
                r,
            ),
    {
        match self.ptr {
            None => Err(Error::invalid()),
            Some(h) => {
                let answer = remote.str_list_op(h, DEFINED_DOMAINS_CAPACITY);
                match answer {
                    None => Err(ops::capture(remote)),
                    Some(bufs) => {
                        let names = crate::marshal::take_texts(remote, bufs);
                        Ok(names)
                    },
                }
            },
        }
    }
}

} // verus!
