//! The wrapper for data streams, the transport for bulk uploads and
//! downloads.

use vstd::prelude::*;

use crate::error::{Error, ErrorKind};
use crate::ops;
use crate::remote::{
    invalid_result, no_call, pushed, pushed2, remote_error_result, CallRecord, IntOp, ObjectKind,
    Remote, SlotView,
};

pub mod flags;

verus! {

/// Size of the caller-supplied receive buffer: a single receive hands back
/// at most this many bytes, and a read may not ask for more.
pub const STREAM_RECV_CAPACITY: usize = 2048;

/// Contract of ending a stream with a finish or abort call. The ending call
/// and the release of the handle are issued in that order, exactly once
/// each; the result carries the ending call's failure first, else the
/// release's, else success. The ending call's error is captured at its own
/// moment of failure, before the release runs.
pub open spec fn stream_end_post(
    was: Option<u64>,
    op: IntOp,
    h0: Seq<CallRecord>,
    h1: Seq<CallRecord>,
    slot: SlotView,
    out: Result<(), Error>,
) -> bool {
    match was {
        None => no_call(h0, h1) && invalid_result(out),
        Some(h) => exists|ret: i32, rret: i32|
            #![auto]
            {
                &&& pushed2(
                    h0,
                    h1,
                    CallRecord::Int { op, handle: h, arg: 0, sarg: 0, flags: 0, ret },
                    CallRecord::Release { kind: ObjectKind::Stream, handle: h, ret: rret },
                )
                &&& (ret == -1 ==> (out matches Err(e) && e@.kind == ErrorKind::Remote))
                &&& (ret != -1 && rret == -1 ==> remote_error_result(slot, out))
                &&& (ret != -1 && rret != -1 ==> out == Ok::<(), Error>(()))
            },
    }
}

/// Contract of sending into a stream: one call carrying exactly the data's
/// length; a success answer is how many bytes were accepted, at most that
/// length.
pub open spec fn send_post(
    live: bool,
    handle: u64,
    len: nat,
    h0: Seq<CallRecord>,
    h1: Seq<CallRecord>,
    slot: SlotView,
    out: Result<u32, Error>,
) -> bool {
    if live {
        exists|ret: i32|
            {
                &&& #[trigger] pushed(h0, h1, CallRecord::Send { handle, len: len as usize, ret })
                &&& if ret == -1 {
                    remote_error_result(slot, out)
                } else {
                    0 <= ret <= len && out == Ok::<u32, Error>(ret as u32)
                }
            }
    } else {
        no_call(h0, h1) && invalid_result(out)
    }
}

/// Contract of receiving from a stream into the caller's own buffer: one
/// call, nothing left to free, a success of at most the asked-for size.
pub open spec fn recv_post(
    live: bool,
    handle: u64,
    size: usize,
    h0: Seq<CallRecord>,
    h1: Seq<CallRecord>,
    slot: SlotView,
    out: Result<String, Error>,
) -> bool {
    if live {
        &&& pushed(h0, h1, CallRecord::Recv { handle, size, ok: out is Ok })
        &&& match out {
            Ok(s) => s@.len() <= size,
            Err(_) => remote_error_result(slot, out),
        }
    } else {
        no_call(h0, h1) && invalid_result(out)
    }
}

/// The wrapper owning the handle of one data stream. It is live until its
/// one release, and every operation attempted after release fails fast
/// without a remote call.
#[derive(Debug)]
pub struct Stream {
    ptr: Option<u64>,
}

impl Stream {
    /// The handle state: present while live, absent once released.
    pub closed spec fn raw(&self) -> Option<u64> {
        self.ptr
    }

    /// The wrapper still owns its handle and its one release obligation.
    pub open spec fn is_live(&self) -> bool {
        self.raw() is Some
    }

    /// The wrapper was released; its handle is gone for good.
    pub open spec fn is_released(&self) -> bool {
        !self.is_live()
    }

    /// The owned handle of a live wrapper.
    pub open spec fn handle(&self) -> u64 {
        self.raw()->0
    }

    /// Stores a handle obtained from a stream-creating call as a live
    /// wrapper.
    pub fn new(ptr: u64) -> (s: Stream)
        ensures
            s.is_live(),
            s.handle() == ptr,
    {
        Stream { ptr: Some(ptr) }
    }

    /// The raw handle, for handing to an adapter; the wrapper must still be
    /// live.
    pub fn as_ptr(&self) -> (r: u64)
        requires
            self.is_live(),
        ensures
            r == self.handle(),
    {
        self.ptr.unwrap()
    }

    /// The handle state, for the operations of the other wrappers that run
    /// against this stream.
    pub(crate) fn raw_opt(&self) -> (r: Option<u64>)
        ensures
            r == self.raw(),
    {
        self.ptr
    }

    /// Releases the local proxy for the stream. A live wrapper issues the
    /// release call exactly once and becomes released even if that call
    /// fails; a released wrapper answers success without any remote call.
    pub fn free<R: Remote>(&mut self, remote: &mut R) -> (r: Result<(), Error>)
        ensures
            final(self).is_released(),
            ops::release_post(
                old(self).raw(),
                ObjectKind::Stream,
                old(remote).history(),
                final(remote).history(),
                final(remote).error_slot(),
                r,
            ),
    {
        ops::run_release(remote, &mut self.ptr, ObjectKind::Stream)
    }

    /// Ends the stream after all data was exchanged, then releases its
    /// handle; the stream is consumed either way.
    pub fn finish<R: Remote>(self, remote: &mut R) -> (r: Result<(), Error>)
        ensures
            stream_end_post(
                self.raw(),
                IntOp::StreamFinish,
                old(remote).history(),
                final(remote).history(),
                final(remote).error_slot(),
                r,
            ),
    {
        self.end_with(remote, IntOp::StreamFinish)
    }

    /// Ends the stream discarding any data in flight, then releases its
    /// handle; the stream is consumed either way.
    pub fn abort<R: Remote>(self, remote: &mut R) -> (r: Result<(), Error>)
        ensures
            stream_end_post(
                self.raw(),
                IntOp::StreamAbort,
                old(remote).history(),
                final(remote).history(),
                final(remote).error_slot(),
                r,
            ),
    {
        self.end_with(remote, IntOp::StreamAbort)
    }

    /// The one ending routine both `finish` and `abort` converge on.
    fn end_with<R: Remote>(self, remote: &mut R, op: IntOp) -> (r: Result<(), Error>)
        ensures
            stream_end_post(
                self.raw(),
                op,
                old(remote).history(),
                final(remote).history(),
                final(remote).error_slot(),
                r,
            ),
    {
        let mut s = self;
        match s.ptr {
            None => Err(Error::invalid()),
            Some(h) => {
                let ret = remote.int_op(op, h, 0, 0, 0);
                let first: Option<Error> = if ret == -1 {
                    Some(ops::capture(remote))
                } else {
                    None
                };
                let ghost h_mid = remote.history();
                let rel = ops::run_release(remote, &mut s.ptr, ObjectKind::Stream);
                proof {
                    let rret = choose|rret: i32|
                        {
                            &&& #[trigger] pushed(
                                h_mid,
                                remote.history(),
                                CallRecord::Release {
                                    kind: ObjectKind::Stream,
                                    handle: h,
                                    ret: rret,
                                },
                            )
                            &&& if rret == -1 {
                                remote_error_result(remote.error_slot(), rel)
                            } else {
                                rel == Ok::<(), Error>(())
                            }
                        };
                    assert(pushed2(
                        old(remote).history(),
                        remote.history(),
                        CallRecord::Int { op, handle: h, arg: 0, sarg: 0, flags: 0, ret },
                        CallRecord::Release { kind: ObjectKind::Stream, handle: h, ret: rret },
                    ));
                }
                match first {
                    Some(e) => Err(e),
                    None => rel,
                }
            },
        }
    }

    /// Writes data into the stream, answering how many bytes were accepted.
    pub fn send<R: Remote>(&self, remote: &mut R, data: &str) -> (r: Result<u32, Error>)
        ensures
            send_post(
                self.is_live(),
                self.handle(),
                data@.len(),
                old(remote).history(),
                final(remote).history(),
                final(remote).error_slot(),
                r,
            ),
    {
        match self.ptr {
            None => Err(Error::invalid()),
            Some(h) => {
                let ret = remote.send_op(h, data);
                if ret == -1 {
                    Err(ops::capture(remote))
                } else {
                    Ok(ret as u32)
                }
            },
        }
    }

    /// Reads at most `size` bytes from the stream into the caller's own
    /// buffer of [`STREAM_RECV_CAPACITY`] bytes; nothing remains to free.
    pub fn recv<R: Remote>(&self, remote: &mut R, size: usize) -> (r: Result<String, Error>)
        requires
            size <= STREAM_RECV_CAPACITY,
        ensures
            recv_post(
                self.is_live(),
                self.handle(),
                size,
                old(remote).history(),
                final(remote).history(),
                final(remote).error_slot(),
                r,
            ),
    {
        match self.ptr {
            None => Err(Error::invalid()),
            Some(h) => {
                let answer = remote.recv_op(h, size);
                match answer {
                    None => Err(ops::capture(remote)),
                    Some(s) => Ok(s),
                }
            },
        }
    }
}

} // verus!
