//! Owned snapshots of failures reported by the remote side, and the
//! process-wide error channel through which a caller-supplied callback
//! observes them.

use vstd::prelude::*;

verus! {

/// Severity of a reported failure.
#[derive(Clone, Copy, Debug, PartialEq, Eq, Structural)]
pub enum ErrorLevel {
    NONE,
    /// A simple warning.
    WARNING,
    /// An error.
    ERROR,
}

/// How a failure arose: reported by the remote side, or caught locally
/// before any remote call was issued.
#[derive(Clone, Copy, Debug, PartialEq, Eq, Structural)]
pub enum ErrorKind {
    /// The remote call signaled failure through its sentinel return value;
    /// the snapshot fields were captured from the remote error slot.
    Remote,
    /// The operation was attempted on a wrapper whose handle had already
    /// been released; no remote call was performed.
    Invalid,
}

/// What an [`ErrorLevel`] value is, for a raw severity number.
pub open spec fn level_from_int(n: u32) -> ErrorLevel {
    if n == 1 {
        ErrorLevel::WARNING
    } else if n == 2 {
        ErrorLevel::ERROR
    } else {
        ErrorLevel::NONE
    }
}

impl From<u32> for ErrorLevel {
    /// Translates the raw severity number reported by the remote side;
    /// numbers outside the catalog fall back to `NONE`.
    fn from(n: u32) -> (r: ErrorLevel) {
        if n == 1 {
            ErrorLevel::WARNING
        } else if n == 2 {
            ErrorLevel::ERROR
        } else {
            ErrorLevel::NONE
        }
    }
}

impl vstd::std_specs::convert::FromSpecImpl<u32> for ErrorLevel {
    open spec fn obeys_from_spec() -> bool {
        true
    }

    open spec fn from_spec(n: u32) -> ErrorLevel {
        level_from_int(n)
    }
}

/// The mathematical value of an [`Error`]: its fields with the message
/// abstracted to its character sequence.
pub struct ErrorView {
    pub kind: ErrorKind,
    pub code: i32,
    pub domain: i32,
    pub message: Seq<char>,
    pub level: ErrorLevel,
}

/// An immutable, fully owned copy of a failure: the integer fault category,
/// the integer subsystem identifier, the human-readable text and the
/// severity. Once constructed it has no further dependency on any
/// remote-owned memory.
#[derive(Debug, PartialEq)]
pub struct Error {
    pub kind: ErrorKind,
    pub code: i32,
    pub domain: i32,
    pub message: String,
    pub level: ErrorLevel,
}

impl View for Error {
    type V = ErrorView;

    open spec fn view(&self) -> ErrorView {
        ErrorView {
            kind: self.kind,
            code: self.code,
            domain: self.domain,
            message: self.message@,
            level: self.level,
        }
    }
}

/// Holds when an error is the local fail-fast answer to an operation on a
/// wrapper whose handle was already released.
pub open spec fn is_invalid_error(e: Error) -> bool {
    e@.kind == ErrorKind::Invalid
}

impl Error {
    /// Deep-copies the fields reported by the remote side into an owned
    /// snapshot. The raw severity number is translated through
    /// [`level_from_int`].
    pub fn from_parts(code: i32, domain: i32, message: String, level: u32) -> (e: Error)
        ensures
            e@ == (ErrorView {
                kind: ErrorKind::Remote,
                code: code,
                domain: domain,
                message: message@,
                level: level_from_int(level),
            }),
    {
        Error {
            kind: ErrorKind::Remote,
            code,
            domain,
            message,
            level: ErrorLevel::from(level),
        }
    }

    /// The fail-fast error for an operation attempted after release; it
    /// carries no remote-reported fields.
    pub fn invalid() -> (e: Error)
        ensures
            is_invalid_error(e),
            e@.code == 0,
            e@.domain == 0,
            e@.level == ErrorLevel::NONE,
    {
        Error {
            kind: ErrorKind::Invalid,
            code: 0,
            domain: 0,
            message: String::new(),
            level: ErrorLevel::NONE,
        }
    }

    /// Copies the remote side's "most recent error" slot into an owned
    /// snapshot. Call it immediately after a failing operation, before any
    /// other call on the same context: the slot is shared mutable state
    /// that the next failing call overwrites.
    pub fn last_error<R: crate::remote::Remote>(remote: &R) -> (e: Error)
        ensures
            crate::remote::matches_slot(e, remote.error_slot()),
    {
        remote.last_error()
    }
}

/// The capability a caller hands to the error channel: a single abstract
/// "observe this failure" operation. The snapshots a callback has observed
/// are its specification-level view, so the channel's contracts can say
/// which callback an error reached.
pub trait ErrorCallback: Sized {
    /// Every snapshot this callback has observed, oldest first. An
    /// unverified callback at the foreign edge may leave this default; a
    /// verified one gives it the real record, which is what the channel's
    /// contracts speak about.
    open spec fn seen(&self) -> Seq<ErrorView> {
        Seq::empty()
    }

    /// Observes one failure snapshot.
    fn on_error(&mut self, e: &Error)
        ensures
            final(self).seen() == old(self).seen().push(e@),
    ;
}

/// A callback that records every snapshot it observes; the library's own
/// sink for the error channel, and the plainest way to watch failures in a
/// test or an application.
pub struct ErrorLog {
    entries: Vec<Error>,
}

impl ErrorLog {
    /// An empty log.
    pub fn new() -> (log: ErrorLog)
        ensures
            log.seen() == Seq::<ErrorView>::empty(),
    {
        let log = ErrorLog { entries: Vec::new() };
        proof {
            assert(log.seen() =~= Seq::<ErrorView>::empty());
        }
        log
    }

    /// The recorded snapshots, oldest first.
    pub fn entries(&self) -> (r: &Vec<Error>)
        ensures
            r@.len() == self.seen().len(),
            forall|i: int| 0 <= i < r@.len() ==> #[trigger] r@[i]@ == self.seen()[i],
    {
        &self.entries
    }
}

impl ErrorCallback for ErrorLog {
    closed spec fn seen(&self) -> Seq<ErrorView> {
        self.entries@.map_values(|e: Error| e@)
    }

    fn on_error(&mut self, e: &Error) {
        let copy = Error {
            kind: e.kind,
            code: e.code,
            domain: e.domain,
            message: e.message.clone(),
            level: e.level,
        };
        self.entries.push(copy);
        proof {
            assert(self.seen() =~= old(self).seen().push(e@));
        }
    }
}

/// The process-wide error channel: the explicit singleton slot holding at
/// most one installed callback. Installing hands the previous callback back
/// to the caller, so no two callbacks are ever reachable from the channel
/// at once and nothing is leaked. Replacement is a single-writer
/// operation: callers that share one channel across threads must serialize
/// access to it themselves.
pub struct ErrorChannel<C> {
    slot: Option<C>,
}

impl<C: ErrorCallback> ErrorChannel<C> {
    /// The installed callback, if one is installed.
    pub closed spec fn current(&self) -> Option<C> {
        self.slot
    }

    /// A channel with no callback installed: failures are then observable
    /// only through explicit captures at each call site.
    pub fn new() -> (c: ErrorChannel<C>)
        ensures
            c.current() is None,
    {
        ErrorChannel { slot: None }
    }

    /// Installs a callback, handing the previously installed one — whole
    /// and never invoked again by this channel — back to the caller.
    pub fn install(&mut self, callback: C) -> (prev: Option<C>)
        ensures
            final(self).current() == Some(callback),
            prev == old(self).current(),
    {
        let prev = self.slot.take();
        self.slot = Some(callback);
        prev
    }

    /// Removes the installed callback, if any, handing it back to the
    /// caller; the channel keeps no trace of it.
    pub fn uninstall(&mut self) -> (prev: Option<C>)
        ensures
            final(self).current() is None,
            prev == old(self).current(),
    {
        self.slot.take()
    }

    /// Delivers one snapshot to the installed callback — always the newest
    /// one, since installing replaces the slot — and answers whether any
    /// callback observed it.
    pub fn dispatch(&mut self, e: &Error) -> (hit: bool)
        ensures
            hit == (old(self).current() is Some),
            old(self).current() is None ==> final(self).current() is None,
            old(self).current() matches Some(cb) ==> (final(self).current() matches Some(cb2)
                && cb2.seen() == cb.seen().push(e@)),
    {
        match &mut self.slot {
            Some(cb) => {
                cb.on_error(e);
                true
            },
            None => false,
        }
    }
}

/// Installs a callback into the given error channel, handing the previous
/// one back; the channel invokes only the newest callback from then on.
pub fn set_error_func<C: ErrorCallback>(channel: &mut ErrorChannel<C>, f: C) -> (prev: Option<C>)
    ensures
        final(channel).current() == Some(f),
        prev == old(channel).current(),
{
    channel.install(f)
}

} // verus!
