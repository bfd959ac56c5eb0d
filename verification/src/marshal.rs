//! Marshaling conventions for remote-allocated buffers: whether each
//! text-returning call hands the caller an owned buffer (to be freed exactly
//! once after copying) or a borrowed one (never freed), and the copy
//! routines that act on that table.

use vstd::prelude::*;

use crate::error::Error;
use crate::ops::str_post;
use crate::remote::{no_call, pushed, CallRecord, Remote, RemoteBuf, SlotView, StrOp};

verus! {

/// Who is responsible for the memory behind a buffer the remote side handed
/// back.
#[derive(Clone, Copy, Debug, PartialEq, Eq, Structural)]
pub enum BufferOwnership {
    /// The caller must free the buffer, exactly once, after copying it.
    Owned,
    /// The buffer belongs to the remote object and must never be freed by
    /// the caller; it is only copied.
    Borrowed,
}

/// The ownership table: which text-returning calls hand back a buffer the
/// caller must free. The mode is fixed per operation — it is never inferred
/// from context.
pub open spec fn str_op_owned(op: StrOp) -> bool {
    match op {
        StrOp::DomainGetName => false,
        StrOp::DomainGetOsType => true,
        StrOp::DomainGetHostname => true,
        StrOp::DomainGetXmlDesc => true,
        StrOp::InterfaceGetName => false,
        StrOp::InterfaceGetMac => false,
        StrOp::InterfaceGetXmlDesc => true,
        StrOp::SecretGetName => true,
        StrOp::SecretGetUsageId => true,
        StrOp::SecretGetXmlDesc => true,
        StrOp::PoolGetName => false,
        StrOp::PoolGetXmlDesc => true,
        StrOp::VolGetName => false,
        StrOp::VolGetKey => false,
        StrOp::VolGetPath => true,
        StrOp::VolGetXmlDesc => true,
    }
}

/// Looks an operation up in the ownership table.
pub fn ownership_of(op: StrOp) -> (m: BufferOwnership)
    ensures
        (m is Owned) == str_op_owned(op),
{
    match op {
        StrOp::DomainGetName => BufferOwnership::Borrowed,
        StrOp::DomainGetOsType => BufferOwnership::Owned,
        StrOp::DomainGetHostname => BufferOwnership::Owned,
        StrOp::DomainGetXmlDesc => BufferOwnership::Owned,
        StrOp::InterfaceGetName => BufferOwnership::Borrowed,
        StrOp::InterfaceGetMac => BufferOwnership::Borrowed,
        StrOp::InterfaceGetXmlDesc => BufferOwnership::Owned,
        StrOp::SecretGetName => BufferOwnership::Owned,
        StrOp::SecretGetUsageId => BufferOwnership::Owned,
        StrOp::SecretGetXmlDesc => BufferOwnership::Owned,
        StrOp::PoolGetName => BufferOwnership::Borrowed,
        StrOp::PoolGetXmlDesc => BufferOwnership::Owned,
        StrOp::VolGetName => BufferOwnership::Borrowed,
        StrOp::VolGetKey => BufferOwnership::Borrowed,
        StrOp::VolGetPath => BufferOwnership::Owned,
        StrOp::VolGetXmlDesc => BufferOwnership::Owned,
    }
}

/// Takes possession of a text buffer's contents. For an owned buffer exactly
/// one free call is issued, after the copy; for a borrowed buffer no free
/// call is issued at all.
pub fn take_text<R: Remote>(remote: &mut R, buf: RemoteBuf, mode: BufferOwnership) -> (s: String)
    ensures
        s@ == buf.text@,
        mode is Owned ==> pushed(
            old(remote).history(),
            final(remote).history(),
            CallRecord::FreeBuf { id: buf.id },
        ),
        mode is Borrowed ==> no_call(old(remote).history(), final(remote).history()),
{
    let RemoteBuf { id, text } = buf;
    match mode {
        BufferOwnership::Owned => remote.free_buf(id),
        BufferOwnership::Borrowed => {},
    }
    text
}

/// The free records that copying a whole list of owned buffers must issue:
/// one per element, in element order.
pub open spec fn free_records(bufs: Seq<RemoteBuf>) -> Seq<CallRecord> {
    bufs.map(|i: int, b: RemoteBuf| CallRecord::FreeBuf { id: b.id })
}

/// Copies every element of a list of owned text buffers and frees each one,
/// exactly once, immediately after its copy.
pub fn take_texts<R: Remote>(remote: &mut R, bufs: Vec<RemoteBuf>) -> (names: Vec<String>)
    ensures
        names@.len() == bufs@.len(),
        forall|i: int| 0 <= i < bufs@.len() ==> #[trigger] names@[i]@ == bufs@[i].text@,
        final(remote).history() == old(remote).history() + free_records(bufs@),
{
    let ghost h0 = remote.history();
    let mut names: Vec<String> = Vec::new();
    let mut i: usize = 0;
    while i < bufs.len()
        invariant
            i <= bufs@.len(),
            names@.len() == i,
            forall|j: int| 0 <= j < i ==> #[trigger] names@[j]@ == bufs@[j].text@,
            remote.history() == h0 + free_records(bufs@.take(i as int)),
        decreases bufs@.len() - i,
    {
        let s = bufs[i].text.clone();
        remote.free_buf(bufs[i].id);
        names.push(s);
        i = i + 1;
        proof {
            assert(remote.history() =~= h0 + free_records(bufs@.take(i as int)));
        }
    }
    proof {
        assert(bufs@.take(bufs@.len() as int) =~= bufs@);
    }
    names
}

/// How many free calls a history holds.
pub open spec fn free_count(h: Seq<CallRecord>) -> nat
    decreases h.len(),
{
    if h.len() == 0 {
        0
    } else {
        free_count(h.drop_last()) + if h.last() is FreeBuf {
            1nat
        } else {
            0nat
        }
    }
}

/// How many release calls a history holds.
pub open spec fn release_count(h: Seq<CallRecord>) -> nat
    decreases h.len(),
{
    if h.len() == 0 {
        0
    } else {
        release_count(h.drop_last()) + if h.last() is Release {
            1nat
        } else {
            0nat
        }
    }
}

/// Appending one record raises the free count by one for a free call and by
/// nothing else.
pub proof fn lemma_free_count_push(h: Seq<CallRecord>, r: CallRecord)
    ensures
        free_count(h.push(r)) == free_count(h) + if r is FreeBuf {
            1int
        } else {
            0int
        },
{
    assert(h.push(r).drop_last() =~= h);
}

/// Appending one record raises the release count by one for a release call
/// and by nothing else.
pub proof fn lemma_release_count_push(h: Seq<CallRecord>, r: CallRecord)
    ensures
        release_count(h.push(r)) == release_count(h) + if r is Release {
            1int
        } else {
            0int
        },
{
    assert(h.push(r).drop_last() =~= h);
}

/// Appending the free records of a buffer list raises the free count by the
/// list's length and the release count by nothing.
pub proof fn lemma_free_count_concat_frees(a: Seq<CallRecord>, bufs: Seq<RemoteBuf>)
    ensures
        free_count(a + free_records(bufs)) == free_count(a) + bufs.len(),
        release_count(a + free_records(bufs)) == release_count(a),
    decreases bufs.len(),
{
    if bufs.len() == 0 {
        assert(a + free_records(bufs) =~= a);
    } else {
        let fewer = bufs.drop_last();
        let last_rec = CallRecord::FreeBuf { id: bufs.last().id };
        assert(a + free_records(bufs) =~= (a + free_records(fewer)).push(last_rec));
        lemma_free_count_concat_frees(a, fewer);
        lemma_free_count_push(a + free_records(fewer), last_rec);
        lemma_release_count_push(a + free_records(fewer), last_rec);
    }
}

/// Law of the marshaling table: a text operation that succeeds issues
/// exactly one free call when the table marks the buffer owned, and none at
/// all when it marks it borrowed — and it never releases any handle.
pub proof fn lemma_string_free_discipline(
    handle: u64,
    op: StrOp,
    flags: u32,
    h0: Seq<CallRecord>,
    h1: Seq<CallRecord>,
    slot: SlotView,
    out: Result<String, Error>,
)
    requires
        str_post(true, handle, op, flags, h0, h1, slot, out),
        out is Ok,
    ensures
        free_count(h1) == free_count(h0) + if str_op_owned(op) {
            1int
        } else {
            0int
        },
        release_count(h1) == release_count(h0),
{
    let s = out->Ok_0;
    let buf = choose|buf: RemoteBuf|
        #![auto]
        {
            &&& buf.id != 0
            &&& s@ == buf.text@
            &&& if str_op_owned(op) {
                crate::remote::pushed2(
                    h0,
                    h1,
                    CallRecord::Str { op, handle, flags, ret_id: buf.id },
                    CallRecord::FreeBuf { id: buf.id },
                )
            } else {
                pushed(h0, h1, CallRecord::Str { op, handle, flags, ret_id: buf.id })
            }
        };
    let call_rec = CallRecord::Str { op, handle, flags, ret_id: buf.id };
    if str_op_owned(op) {
        lemma_free_count_push(h0, call_rec);
        lemma_free_count_push(h0.push(call_rec), CallRecord::FreeBuf { id: buf.id });
        lemma_release_count_push(h0, call_rec);
        lemma_release_count_push(h0.push(call_rec), CallRecord::FreeBuf { id: buf.id });
    } else {
        lemma_free_count_push(h0, call_rec);
        lemma_release_count_push(h0, call_rec);
    }
}

} // verus!
