//! The generic operation pattern every wrapper instantiates: gate on the
//! wrapper's lifecycle state, issue the native call, interpret the sentinel
//! failure answer, capture the error slot immediately on failure, and
//! marshal whatever buffer came back.
//!
//! Each runner's postcondition is a single predicate over the wrapper's
//! state, the call history before and after, the error slot at return time
//! and the produced result; the typed operations of the wrappers restate
//! exactly these predicates.

use vstd::prelude::*;

use crate::error::Error;
use crate::marshal;
use crate::remote::{
    invalid_result, matches_slot, no_call, pushed, pushed2, remote_error_result, CallRecord,
    FillStrOp, HandleOp, IntOp, ObjectKind, Remote, RemoteBuf, SlotView, StrOp, WordOp,
    UUID_STRING_CAPACITY,
};

verus! {

/// Whether a wrapper state still holds its handle.
pub open spec fn is_present(o: Option<u64>) -> bool {
    o is Some
}

/// The handle a present wrapper state holds.
pub open spec fn present_handle(o: Option<u64>) -> u64 {
    o->0
}

/// Contract of a lookup/define/create call: gated on the parent's lifecycle
/// state, exactly one matching call issued, the null answer turned into the
/// captured error slot and every other answer handed back as the new handle.
pub open spec fn handle_post(
    live: bool,
    parent: u64,
    op: HandleOp,
    num: i64,
    flags: u32,
    h0: Seq<CallRecord>,
    h1: Seq<CallRecord>,
    slot: SlotView,
    out: Result<u64, Error>,
) -> bool {
    if live {
        exists|ret: u64|
            {
                &&& #[trigger] pushed(h0, h1, CallRecord::Handle { op, parent, num, flags, ret })
                &&& if ret == 0 {
                    remote_error_result(slot, out)
                } else {
                    out == Ok::<u64, Error>(ret)
                }
            }
    } else {
        no_call(h0, h1) && invalid_result(out)
    }
}

/// Contract of an integer call whose result is dropped on success.
pub open spec fn unit_post(
    live: bool,
    handle: u64,
    op: IntOp,
    arg: u64,
    sarg: i64,
    flags: u32,
    h0: Seq<CallRecord>,
    h1: Seq<CallRecord>,
    slot: SlotView,
    out: Result<(), Error>,
) -> bool {
    if live {
        exists|ret: i32|
            {
                &&& #[trigger] pushed(h0, h1, CallRecord::Int { op, handle, arg, sarg, flags, ret })
                &&& if ret == -1 {
                    remote_error_result(slot, out)
                } else {
                    out == Ok::<(), Error>(())
                }
            }
    } else {
        no_call(h0, h1) && invalid_result(out)
    }
}

/// Contract of an integer call whose nonnegative success answer is handed
/// back as an unsigned number.
pub open spec fn u32_post(
    live: bool,
    handle: u64,
    op: IntOp,
    arg: u64,
    sarg: i64,
    flags: u32,
    h0: Seq<CallRecord>,
    h1: Seq<CallRecord>,
    slot: SlotView,
    out: Result<u32, Error>,
) -> bool {
    if live {
        exists|ret: i32|
            {
                &&& #[trigger] pushed(h0, h1, CallRecord::Int { op, handle, arg, sarg, flags, ret })
                &&& if ret == -1 {
                    remote_error_result(slot, out)
                } else {
                    ret >= 0 && out == Ok::<u32, Error>(ret as u32)
                }
            }
    } else {
        no_call(h0, h1) && invalid_result(out)
    }
}

/// Contract of an integer call whose success answer means "true exactly when
/// one".
pub open spec fn bool_post(
    live: bool,
    handle: u64,
    op: IntOp,
    arg: u64,
    sarg: i64,
    flags: u32,
    h0: Seq<CallRecord>,
    h1: Seq<CallRecord>,
    slot: SlotView,
    out: Result<bool, Error>,
) -> bool {
    if live {
        exists|ret: i32|
            {
                &&& #[trigger] pushed(h0, h1, CallRecord::Int { op, handle, arg, sarg, flags, ret })
                &&& if ret == -1 {
                    remote_error_result(slot, out)
                } else {
                    out == Ok::<bool, Error>(ret == 1)
                }
            }
    } else {
        no_call(h0, h1) && invalid_result(out)
    }
}

/// Contract of a machine-word call, where zero is the failure sentinel.
pub open spec fn word_post(
    live: bool,
    handle: u64,
    op: WordOp,
    h0: Seq<CallRecord>,
    h1: Seq<CallRecord>,
    slot: SlotView,
    out: Result<u64, Error>,
) -> bool {
    if live {
        exists|ret: u64|
            {
                &&& #[trigger] pushed(h0, h1, CallRecord::Word { op, handle, ret })
                &&& if ret == 0 {
                    remote_error_result(slot, out)
                } else {
                    out == Ok::<u64, Error>(ret)
                }
            }
    } else {
        no_call(h0, h1) && invalid_result(out)
    }
}

/// Contract of an autostart query: `-1` surfaces the error slot, zero and
/// one are the flag value.
pub open spec fn autostart_post(
    live: bool,
    handle: u64,
    kind: ObjectKind,
    h0: Seq<CallRecord>,
    h1: Seq<CallRecord>,
    slot: SlotView,
    out: Result<bool, Error>,
) -> bool {
    if live {
        exists|ret: i32|
            {
                &&& #[trigger] pushed(h0, h1, CallRecord::AutostartGet { kind, handle, ret })
                &&& if ret == -1 {
                    remote_error_result(slot, out)
                } else {
                    out == Ok::<bool, Error>(ret == 1)
                }
            }
    } else {
        no_call(h0, h1) && invalid_result(out)
    }
}

/// Contract of a text-returning call. The null answer surfaces the error
/// slot; otherwise the result is a copy of the returned buffer, and the
/// marshaling table decides whether exactly one free call follows the copy
/// (owned buffer) or none at all (borrowed buffer).
pub open spec fn str_post(
    live: bool,
    handle: u64,
    op: StrOp,
    flags: u32,
    h0: Seq<CallRecord>,
    h1: Seq<CallRecord>,
    slot: SlotView,
    out: Result<String, Error>,
) -> bool {
    if live {
        match out {
            Err(_) => {
                &&& pushed(h0, h1, CallRecord::Str { op, handle, flags, ret_id: 0 })
                &&& remote_error_result(slot, out)
            },
            Ok(s) => exists|buf: RemoteBuf|
                #![auto]
                {
                    &&& buf.id != 0
                    &&& s@ == buf.text@
                    &&& if marshal::str_op_owned(op) {
                        pushed2(
                            h0,
                            h1,
                            CallRecord::Str { op, handle, flags, ret_id: buf.id },
                            CallRecord::FreeBuf { id: buf.id },
                        )
                    } else {
                        pushed(h0, h1, CallRecord::Str { op, handle, flags, ret_id: buf.id })
                    }
                },
        }
    } else {
        no_call(h0, h1) && invalid_result(out)
    }
}

/// Contract of a call that fills the caller's own small text buffer: no
/// remote allocation changes hands, so no free call ever follows.
pub open spec fn fill_post(
    live: bool,
    handle: u64,
    op: FillStrOp,
    h0: Seq<CallRecord>,
    h1: Seq<CallRecord>,
    slot: SlotView,
    out: Result<String, Error>,
) -> bool {
    if live {
        &&& pushed(h0, h1, CallRecord::FillStr { op, handle, ok: out is Ok })
        &&& match out {
            Ok(s) => s@.len() < UUID_STRING_CAPACITY,
            Err(_) => remote_error_result(slot, out),
        }
    } else {
        no_call(h0, h1) && invalid_result(out)
    }
}

/// Contract of release. A wrapper that still holds its handle issues exactly
/// one release call — surfacing the error slot if the call fails, but
/// marking the handle absent either way, so the call is never retried. A
/// wrapper already released issues nothing and succeeds.
pub open spec fn release_post(
    was: Option<u64>,
    kind: ObjectKind,
    h0: Seq<CallRecord>,
    h1: Seq<CallRecord>,
    slot: SlotView,
    out: Result<(), Error>,
) -> bool {
    match was {
        None => no_call(h0, h1) && out == Ok::<(), Error>(()),
        Some(h) => exists|ret: i32|
            {
                &&& #[trigger] pushed(h0, h1, CallRecord::Release { kind, handle: h, ret })
                &&& if ret == -1 {
                    remote_error_result(slot, out)
                } else {
                    out == Ok::<(), Error>(())
                }
            },
    }
}

/// Copies the remote error slot into an owned snapshot, immediately after a
/// failing call and before any other call on the same context.
pub fn capture<R: Remote>(remote: &R) -> (e: Error)
    ensures
        matches_slot(e, remote.error_slot()),
{
    remote.last_error()
}

/// Runs one lookup/define/create call against a parent wrapper state.
pub fn run_handle_op<R: Remote>(
    remote: &mut R,
    ptr: Option<u64>,
    op: HandleOp,
    key: &str,
    num: i64,
    flags: u32,
) -> (out: Result<u64, Error>)
    ensures
        handle_post(
            is_present(ptr),
            present_handle(ptr),
            op,
            num,
            flags,
            old(remote).history(),
            final(remote).history(),
            final(remote).error_slot(),
            out,
        ),
{
    match ptr {
        None => Err(Error::invalid()),
        Some(h) => {
            let ret = remote.handle_op(op, h, key, num, flags);
            if ret == 0 {
                Err(capture(remote))
            } else {
                Ok(ret)
            }
        },
    }
}

/// Runs one integer call and drops the success answer.
pub fn run_unit_op<R: Remote>(
    remote: &mut R,
    ptr: Option<u64>,
    op: IntOp,
    arg: u64,
    sarg: i64,
    flags: u32,
) -> (out: Result<(), Error>)
    ensures
        unit_post(
            is_present(ptr),
            present_handle(ptr),
            op,
            arg,
            sarg,
            flags,
            old(remote).history(),
            final(remote).history(),
            final(remote).error_slot(),
            out,
        ),
{
    match ptr {
        None => Err(Error::invalid()),
        Some(h) => {
            let ret = remote.int_op(op, h, arg, sarg, flags);
            if ret == -1 {
                Err(capture(remote))
            } else {
                Ok(())
            }
        },
    }
}

/// Runs one integer call and hands the nonnegative success answer back as an
/// unsigned number.
pub fn run_u32_op<R: Remote>(
    remote: &mut R,
    ptr: Option<u64>,
    op: IntOp,
    arg: u64,
    sarg: i64,
    flags: u32,
) -> (out: Result<u32, Error>)
    ensures
        u32_post(
            is_present(ptr),
            present_handle(ptr),
            op,
            arg,
            sarg,
            flags,
            old(remote).history(),
            final(remote).history(),
            final(remote).error_slot(),
            out,
        ),
{
    match ptr {
        None => Err(Error::invalid()),
        Some(h) => {
            let ret = remote.int_op(op, h, arg, sarg, flags);
            if ret == -1 {
                Err(capture(remote))
            } else {
                Ok(ret as u32)
            }
        },
    }
}

/// Runs one integer call and reads the success answer as "true exactly when
/// one".
pub fn run_bool_op<R: Remote>(
    remote: &mut R,
    ptr: Option<u64>,
    op: IntOp,
    arg: u64,
    sarg: i64,
    flags: u32,
) -> (out: Result<bool, Error>)
    ensures
        bool_post(
            is_present(ptr),
            present_handle(ptr),
            op,
            arg,
            sarg,
            flags,
            old(remote).history(),
            final(remote).history(),
            final(remote).error_slot(),
            out,
        ),
{
    match ptr {
        None => Err(Error::invalid()),
        Some(h) => {
            let ret = remote.int_op(op, h, arg, sarg, flags);
            if ret == -1 {
                Err(capture(remote))
            } else {
                Ok(ret == 1)
            }
        },
    }
}

/// Runs one machine-word call, with zero as the failure sentinel.
pub fn run_word_op<R: Remote>(remote: &mut R, ptr: Option<u64>, op: WordOp) -> (out: Result<
    u64,
    Error,
>)
    ensures
        word_post(
            is_present(ptr),
            present_handle(ptr),
            op,
            old(remote).history(),
            final(remote).history(),
            final(remote).error_slot(),
            out,
        ),
{
    match ptr {
        None => Err(Error::invalid()),
        Some(h) => {
            let ret = remote.word_op(op, h);
            if ret == 0 {
                Err(capture(remote))
            } else {
                Ok(ret)
            }
        },
    }
}

/// Runs one autostart query.
pub fn run_autostart<R: Remote>(remote: &mut R, ptr: Option<u64>, kind: ObjectKind) -> (out:
    Result<bool, Error>)
    ensures
        autostart_post(
            is_present(ptr),
            present_handle(ptr),
            kind,
            old(remote).history(),
            final(remote).history(),
            final(remote).error_slot(),
            out,
        ),
{
    match ptr {
        None => Err(Error::invalid()),
        Some(h) => {
            let ret = remote.autostart_get(kind, h);
            if ret == -1 {
                Err(capture(remote))
            } else {
                Ok(ret == 1)
            }
        },
    }
}

/// Runs one text-returning call and marshals the answer by the ownership
/// table.
pub fn run_str_op<R: Remote>(remote: &mut R, ptr: Option<u64>, op: StrOp, flags: u32) -> (out:
    Result<String, Error>)
    ensures
        str_post(
            is_present(ptr),
            present_handle(ptr),
            op,
            flags,
            old(remote).history(),
            final(remote).history(),
            final(remote).error_slot(),
            out,
        ),
{
    match ptr {
        None => Err(Error::invalid()),
        Some(h) => {
            let answer = remote.str_op(op, h, flags);
            match answer {
                None => Err(capture(remote)),
                Some(buf) => {
                    let ghost gbuf = buf;
                    let mode = marshal::ownership_of(op);
                    let s = marshal::take_text(remote, buf, mode);
                    proof {
                        if marshal::str_op_owned(op) {
                            assert(pushed2(
                                old(remote).history(),
                                remote.history(),
                                CallRecord::Str { op, handle: h, flags, ret_id: gbuf.id },
                                CallRecord::FreeBuf { id: gbuf.id },
                            ));
                        } else {
                            assert(pushed(
                                old(remote).history(),
                                remote.history(),
                                CallRecord::Str { op, handle: h, flags, ret_id: gbuf.id },
                            ));
                        }
                    }
                    Ok(s)
                },
            }
        },
    }
}

/// Runs one call that fills the caller's own small text buffer.
pub fn run_fill_str_op<R: Remote>(remote: &mut R, ptr: Option<u64>, op: FillStrOp) -> (out: Result<
    String,
    Error,
>)
    ensures
        fill_post(
            is_present(ptr),
            present_handle(ptr),
            op,
            old(remote).history(),
            final(remote).history(),
            final(remote).error_slot(),
            out,
        ),
{
    match ptr {
        None => Err(Error::invalid()),
        Some(h) => {
            let answer = remote.fill_str_op(op, h);
            match answer {
                None => Err(capture(remote)),
                Some(s) => Ok(s),
            }
        },
    }
}

/// Releases a wrapper state: the one routine both explicit release and any
/// scope-exit safety net converge on. The handle is marked absent whatever
/// the call answers, so release is never issued twice for one handle.
pub fn run_release<R: Remote>(remote: &mut R, ptr: &mut Option<u64>, kind: ObjectKind) -> (out:
    Result<(), Error>)
    ensures
        *final(ptr) is None,
        release_post(
            *old(ptr),
            kind,
            old(remote).history(),
            final(remote).history(),
            final(remote).error_slot(),
            out,
        ),
{
    let cur: Option<u64> = *ptr;
    match cur {
        None => Ok(()),
        Some(h) => {
            *ptr = None;
            let ret = remote.release_op(kind, h);
            if ret == -1 {
                Err(capture(remote))
            } else {
                Ok(())
            }
        },
    }
}

} // verus!

