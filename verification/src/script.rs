//! An in-memory stand-in for the remote control library: it replays a
//! prepared script of outcomes, records every call it receives, and holds an
//! explicit "most recent error" slot. It is the library's own, fully
//! verified implementation of the [`Remote`] boundary, there to drive the
//! wrapper layer without any daemon — in tests above all.

use vstd::prelude::*;

use crate::domain::InterfaceStats;
use crate::error::{Error, ErrorKind, ErrorLevel};
use crate::remote::{
    buf_ret_id, bytes_count, bytes_ret_id, handles_count, handles_ret_id, ifaces_count,
    ifaces_ret_id, list_count, matches_slot, pushed, CallRecord, FillStrOp, HandleOp, IntOp,
    ObjectKind, RawDomainInfo, RawPoolInfo, RawVolInfo, Remote, RemoteBuf, RemoteBytes,
    RemoteHandles, RemoteIfaces, SlotView, StrOp, TransferOp, WordOp, UUID_STRING_CAPACITY,
};

verus! {

/// One prepared outcome. Each call of the scripted remote consumes the
/// front of the script; a missing or mismatched step plays as the call's
/// failure sentinel, and a step that breaks the boundary's conventions —
/// a zero buffer identifier, an out-of-catalog state number, an oversized
/// answer — is normalized to them before it is handed out.
pub enum Step {
    /// A handle answer, for opens and lookups; zero is the null answer.
    Handle(u64),
    /// A plain integer answer; anything below `-1` plays as `-1`.
    Int(i32),
    /// A machine-word answer; zero is the failure sentinel.
    Word(u64),
    /// A running-identifier answer; the all-ones value means "none".
    Id(u32),
    /// An autostart answer: `-1`, zero or one.
    Tristate(i32),
    /// A text-buffer answer.
    Buf(Option<RemoteBuf>),
    /// A small fill-in answer for textual identifiers.
    Fill(Option<String>),
    /// A bounded numeric list answer.
    Ints(Option<Vec<u32>>),
    /// A bounded name list answer.
    Bufs(Option<Vec<RemoteBuf>>),
    /// A handle-array answer.
    Handles(Option<RemoteHandles>),
    /// An interface-array answer.
    Ifaces(Option<RemoteIfaces>),
    /// A traffic-counter answer.
    Stats(Option<InterfaceStats>),
    /// A guest information answer.
    DomInfo(Option<RawDomainInfo>),
    /// A guest state answer.
    DomState(Option<(i32, i32)>),
    /// A pool information answer.
    PoolInfo(Option<RawPoolInfo>),
    /// A volume information answer.
    VolInfo(Option<RawVolInfo>),
    /// A byte-buffer answer.
    Bytes(Option<RemoteBytes>),
    /// A receive answer.
    Text(Option<String>),
}

/// The scripted remote: a queue of prepared outcomes, the record of every
/// call issued so far, and the error slot a failing operation's snapshot is
/// captured from.
pub struct ScriptedRemote {
    steps: Vec<Step>,
    log: Vec<CallRecord>,
    code: i32,
    domain: i32,
    message: String,
    level: ErrorLevel,
}

impl ScriptedRemote {
    /// A remote with an empty script, an empty history and a zeroed error
    /// slot.
    pub fn new() -> (r: ScriptedRemote)
        ensures
            r.history() == Seq::<CallRecord>::empty(),
            r.error_slot() == (SlotView {
                code: 0,
                domain: 0,
                message: Seq::<char>::empty(),
                level: ErrorLevel::NONE,
            }),
    {
        ScriptedRemote {
            steps: Vec::new(),
            log: Vec::new(),
            code: 0,
            domain: 0,
            message: String::new(),
            level: ErrorLevel::NONE,
        }
    }

    /// Appends one prepared outcome to the script.
    pub fn push_step(&mut self, step: Step)
        ensures
            final(self).history() == old(self).history(),
            final(self).error_slot() == old(self).error_slot(),
    {
        self.steps.push(step);
    }

    /// Sets the error slot: the stand-in for the report a failing native
    /// call would leave there.
    pub fn set_slot(&mut self, code: i32, domain: i32, message: String, level: ErrorLevel)
        ensures
            final(self).history() == old(self).history(),
            final(self).error_slot() == (SlotView { code, domain, message: message@, level }),
    {
        self.code = code;
        self.domain = domain;
        self.message = message;
        self.level = level;
    }

    /// The record of every call issued so far, oldest first.
    pub fn log(&self) -> (r: &Vec<CallRecord>)
        ensures
            r@ == self.history(),
    {
        &self.log
    }

    /// Takes the next prepared outcome off the script, if any is left;
    /// neither the history nor the error slot moves.
    fn next_step(&mut self) -> (r: Option<Step>)
        ensures
            final(self).history() == old(self).history(),
            final(self).error_slot() == old(self).error_slot(),
    {
        if self.steps.len() == 0 {
            None
        } else {
            Some(self.steps.remove(0))
        }
    }
}

impl Remote for ScriptedRemote {
    closed spec fn history(&self) -> Seq<CallRecord> {
        self.log@
    }

    closed spec fn error_slot(&self) -> SlotView {
        SlotView { code: self.code, domain: self.domain, message: self.message@, level: self.level }
    }

    fn last_error(&self) -> (e: Error) {
        Error {
            kind: ErrorKind::Remote,
            code: self.code,
            domain: self.domain,
            message: self.message.clone(),
            level: self.level,
        }
    }

    fn open(&mut self, uri: &str, read_only: bool) -> (h: u64) {
        let ret: u64 = match self.next_step() {
            Some(Step::Handle(v)) => v,
            _ => 0,
        };
        self.log.push(CallRecord::Open { read_only, ret });
        ret
    }

    fn handle_op(&mut self, op: HandleOp, parent: u64, key: &str, num: i64, flags: u32) -> (h:
        u64) {
        let ret: u64 = match self.next_step() {
            Some(Step::Handle(v)) => v,
            _ => 0,
        };
        self.log.push(CallRecord::Handle { op, parent, num, flags, ret });
        ret
    }

    fn int_op(&mut self, op: IntOp, handle: u64, arg: u64, sarg: i64, flags: u32) -> (r: i32) {
        let ret: i32 = match self.next_step() {
            Some(Step::Int(v)) => if v < -1 {
                -1
            } else {
                v
            },
            _ => -1,
        };
        self.log.push(CallRecord::Int { op, handle, arg, sarg, flags, ret });
        ret
    }

    fn word_op(&mut self, op: WordOp, handle: u64) -> (r: u64) {
        let ret: u64 = match self.next_step() {
            Some(Step::Word(v)) => v,
            _ => 0,
        };
        self.log.push(CallRecord::Word { op, handle, ret });
        ret
    }

    fn domain_id(&mut self, handle: u64) -> (r: u32) {
        let ret: u32 = match self.next_step() {
            Some(Step::Id(v)) => v,
            _ => u32::MAX,
        };
        self.log.push(CallRecord::DomainId { handle, ret });
        ret
    }

    fn autostart_get(&mut self, kind: ObjectKind, handle: u64) -> (r: i32) {
        let ret: i32 = match self.next_step() {
            Some(Step::Tristate(v)) => if v < -1 {
                -1
            } else if v > 1 {
                1
            } else {
                v
            },
            _ => -1,
        };
        self.log.push(CallRecord::AutostartGet { kind, handle, ret });
        ret
    }

    fn str_op(&mut self, op: StrOp, handle: u64, flags: u32) -> (r: Option<RemoteBuf>) {
        let out: Option<RemoteBuf> = match self.next_step() {
            Some(Step::Buf(Some(b))) => if b.id == 0 {
                None
            } else {
                Some(b)
            },
            _ => None,
        };
        let rid: u64 = match &out {
            None => 0,
            Some(b) => b.id,
        };
        self.log.push(CallRecord::Str { op, handle, flags, ret_id: rid });
        out
    }

    fn fill_str_op(&mut self, op: FillStrOp, handle: u64) -> (r: Option<String>) {
        let out: Option<String> = match self.next_step() {
            Some(Step::Fill(Some(s))) => if s.unicode_len() < UUID_STRING_CAPACITY {
                Some(s)
            } else {
                None
            },
            _ => None,
        };
        let ok = out.is_some();
        self.log.push(CallRecord::FillStr { op, handle, ok });
        out
    }

    fn int_list_op(&mut self, handle: u64, capacity: usize) -> (r: Option<Vec<u32>>) {
        let out: Option<Vec<u32>> = match self.next_step() {
            Some(Step::Ints(Some(mut v))) => {
                if v.len() > capacity {
                    v.truncate(capacity);
                }
                Some(v)
            },
            _ => None,
        };
        let count: usize = match &out {
            None => 0,
            Some(v) => v.len(),
        };
        let ok = out.is_some();
        self.log.push(CallRecord::IntList { handle, capacity, ok, count });
        out
    }

    fn str_list_op(&mut self, handle: u64, capacity: usize) -> (r: Option<Vec<RemoteBuf>>) {
        let out: Option<Vec<RemoteBuf>> = match self.next_step() {
            Some(Step::Bufs(Some(mut v))) => {
                if v.len() > capacity {
                    v.truncate(capacity);
                }
                let mut all_nonzero = true;
                let mut i: usize = 0;
                while i < v.len()
                    invariant
                        i <= v@.len(),
                        all_nonzero <==> (forall|j: int| 0 <= j < i ==> #[trigger] v@[j].id != 0),
                    decreases v@.len() - i,
                {
                    if v[i].id == 0 {
                        all_nonzero = false;
                    }
                    i = i + 1;
                }
                if all_nonzero {
                    Some(v)
                } else {
                    None
                }
            },
            _ => None,
        };
        let count: usize = match &out {
            None => 0,
            Some(v) => v.len(),
        };
        let ok = out.is_some();
        self.log.push(CallRecord::StrList { handle, capacity, ok, count });
        out
    }

    fn handle_list_op(&mut self, handle: u64, flags: u32) -> (r: Option<RemoteHandles>) {
        let out: Option<RemoteHandles> = match self.next_step() {
            Some(Step::Handles(Some(a))) => if a.id == 0 {
                None
            } else {
                Some(a)
            },
            _ => None,
        };
        let rid: u64 = match &out {
            None => 0,
            Some(a) => a.id,
        };
        let count: usize = match &out {
            None => 0,
            Some(a) => a.handles.len(),
        };
        self.log.push(CallRecord::HandleList { handle, flags, ret_id: rid, count });
        out
    }

    fn iface_addrs_op(&mut self, handle: u64, source: u32) -> (r: Option<RemoteIfaces>) {
        let out: Option<RemoteIfaces> = match self.next_step() {
            Some(Step::Ifaces(Some(a))) => if a.id == 0 {
                None
            } else {
                Some(a)
            },
            _ => None,
        };
        let rid: u64 = match &out {
            None => 0,
            Some(a) => a.id,
        };
        let count: usize = match &out {
            None => 0,
            Some(a) => a.items.len(),
        };
        self.log.push(CallRecord::IfaceAddrs { handle, source, ret_id: rid, count });
        out
    }

    fn iface_stats_op(&mut self, handle: u64, path: &str) -> (r: Option<InterfaceStats>) {
        let out: Option<InterfaceStats> = match self.next_step() {
            Some(Step::Stats(o)) => o,
            _ => None,
        };
        let ok = out.is_some();
        self.log.push(CallRecord::IfaceStatsQuery { handle, ok });
        out
    }

    fn domain_info_op(&mut self, handle: u64) -> (r: Option<RawDomainInfo>) {
        let out: Option<RawDomainInfo> = match self.next_step() {
            Some(Step::DomInfo(Some(i))) => if i.state <= 7 {
                Some(i)
            } else {
                None
            },
            _ => None,
        };
        let ok = out.is_some();
        self.log.push(CallRecord::DomainInfoQuery { handle, ok });
        out
    }

    fn domain_state_op(&mut self, handle: u64, flags: u32) -> (r: Option<(i32, i32)>) {
        let out: Option<(i32, i32)> = match self.next_step() {
            Some(Step::DomState(Some(p))) => if 0 <= p.0 && p.0 <= 7 {
                Some(p)
            } else {
                None
            },
            _ => None,
        };
        let ok = out.is_some();
        self.log.push(CallRecord::DomainStateQuery { handle, flags, ok });
        out
    }

    fn pool_info_op(&mut self, handle: u64) -> (r: Option<RawPoolInfo>) {
        let out: Option<RawPoolInfo> = match self.next_step() {
            Some(Step::PoolInfo(Some(i))) => if 0 <= i.state && i.state <= 5 {
                Some(i)
            } else {
                None
            },
            _ => None,
        };
        let ok = out.is_some();
        self.log.push(CallRecord::PoolInfoQuery { handle, ok });
        out
    }

    fn vol_info_op(&mut self, handle: u64, flagged: bool, flags: u32) -> (r: Option<RawVolInfo>) {
        let out: Option<RawVolInfo> = match self.next_step() {
            Some(Step::VolInfo(Some(i))) => if 0 <= i.vol_type && i.vol_type <= 6 {
                Some(i)
            } else {
                None
            },
            _ => None,
        };
        let ok = out.is_some();
        self.log.push(CallRecord::VolInfoQuery { handle, flagged, flags, ok });
        out
    }

    fn bytes_op(&mut self, handle: u64, flags: u32) -> (r: Option<RemoteBytes>) {
        let out: Option<RemoteBytes> = match self.next_step() {
            Some(Step::Bytes(Some(b))) => if b.id == 0 {
                None
            } else {
                Some(b)
            },
            _ => None,
        };
        let rid: u64 = match &out {
            None => 0,
            Some(b) => b.id,
        };
        let count: usize = match &out {
            None => 0,
            Some(b) => b.data.len(),
        };
        self.log.push(CallRecord::Bytes { handle, flags, ret_id: rid, count });
        out
    }

    fn set_value_op(&mut self, handle: u64, value: &[u8], flags: u32) -> (r: i32) {
        let ret: i32 = match self.next_step() {
            Some(Step::Int(v)) => if v < -1 {
                -1
            } else {
                v
            },
            _ => -1,
        };
        let len = value.len();
        self.log.push(CallRecord::SetValue { handle, len, flags, ret });
        ret
    }

    fn send_op(&mut self, handle: u64, data: &str) -> (r: i32) {
        let cap = data.unicode_len();
        let ret: i32 = match self.next_step() {
            Some(Step::Int(v)) => if v < 0 {
                -1
            } else if cap >= 0x7fff_ffff {
                v
            } else if v <= cap as i32 {
                v
            } else {
                cap as i32
            },
            _ => -1,
        };
        self.log.push(CallRecord::Send { handle, len: cap, ret });
        ret
    }

    fn recv_op(&mut self, handle: u64, size: usize) -> (r: Option<String>) {
        let out: Option<String> = match self.next_step() {
            Some(Step::Text(Some(s))) => if s.unicode_len() <= size {
                Some(s)
            } else {
                None
            },
            _ => None,
        };
        let ok = out.is_some();
        self.log.push(CallRecord::Recv { handle, size, ok });
        out
    }

    fn restore_op(&mut self, handle: u64, path: &str, dxml: Option<&str>, flags: u32) -> (r: i32) {
        let ret: i32 = match self.next_step() {
            Some(Step::Int(v)) => if v < -1 {
                -1
            } else {
                v
            },
            _ => -1,
        };
        let has_dxml = dxml.is_some();
        self.log.push(CallRecord::Restore { handle, has_dxml, flags, ret });
        ret
    }

    fn transfer_op(
        &mut self,
        op: TransferOp,
        vol: u64,
        stream: u64,
        offset: u64,
        length: u64,
        flags: u32,
    ) -> (r: i32) {
        let ret: i32 = match self.next_step() {
            Some(Step::Int(v)) => if v < -1 {
                -1
            } else {
                v
            },
            _ => -1,
        };
        self.log.push(CallRecord::Transfer { op, vol, stream, offset, length, flags, ret });
        ret
    }

    fn release_op(&mut self, kind: ObjectKind, handle: u64) -> (r: i32) {
        let ret: i32 = match self.next_step() {
            Some(Step::Int(v)) => if v < -1 {
                -1
            } else {
                v
            },
            _ => -1,
        };
        self.log.push(CallRecord::Release { kind, handle, ret });
        ret
    }

    fn free_buf(&mut self, id: u64) {
        self.log.push(CallRecord::FreeBuf { id });
    }
}

} // verus!
