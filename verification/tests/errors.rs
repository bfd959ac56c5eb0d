//! Error capture and the process-wide error channel: snapshots carry the
//! fields reported at the moment of failure, and only the newest installed
//! callback ever observes a failure.

use virt::connect::Connect;
use virt::domain::Domain;
use virt::error::{
    set_error_func, Error, ErrorChannel, ErrorKind, ErrorLevel, ErrorLog,
};
use virt::remote::CallRecord;
use virt::script::{ScriptedRemote, Step};

#[test]
fn open_with_rejected_uri_fails_with_remote_error_and_no_wrapper() {
    let mut r = ScriptedRemote::new();
    r.set_slot(45, 10, String::from("no connection driver available"), ErrorLevel::ERROR);
    r.push_step(Step::Handle(0));
    let out = Connect::open(&mut r, "");
    let e = out.unwrap_err();
    assert_eq!(e.kind, ErrorKind::Remote);
    assert_eq!(e.code, 45);
    assert_eq!(e.domain, 10);
    assert_eq!(e.message, "no connection driver available");
    assert_eq!(e.level, ErrorLevel::ERROR);
    assert_eq!(r.log().as_slice(), &[CallRecord::Open { read_only: false, ret: 0 }]);
}

#[test]
fn open_read_only_failure_has_the_same_contract() {
    let mut r = ScriptedRemote::new();
    r.set_slot(45, 10, String::from("malformed uri"), ErrorLevel::ERROR);
    r.push_step(Step::Handle(0));
    assert_eq!(Connect::open_read_only(&mut r, ":??").unwrap_err().code, 45);
    assert_eq!(r.log().as_slice(), &[CallRecord::Open { read_only: true, ret: 0 }]);
}

#[test]
fn lookup_by_missing_name_fails_with_nonempty_message() {
    let mut r = ScriptedRemote::new();
    r.push_step(Step::Handle(3));
    let conn = Connect::open(&mut r, "test:///default").unwrap();
    r.set_slot(42, 10, String::from("Domain not found: no domain with matching name"), ErrorLevel::ERROR);
    r.push_step(Step::Handle(0));
    let e = Domain::lookup_by_name(&conn, &mut r, "no-such-guest").unwrap_err();
    assert_eq!(e.kind, ErrorKind::Remote);
    assert_eq!(e.code, 42);
    assert!(!e.message.is_empty());
}

#[test]
fn snapshot_carries_the_fields_reported_at_the_moment_of_failure() {
    let mut r = ScriptedRemote::new();
    let d = Domain::new(7);
    r.set_slot(1, 1, String::from("first failure"), ErrorLevel::WARNING);
    r.push_step(Step::Int(-1));
    let first = d.suspend(&mut r).unwrap_err();
    assert_eq!(first.message, "first failure");
    assert_eq!(first.level, ErrorLevel::WARNING);
    // A later failure reports later fields; the first snapshot, being a
    // deep copy, is unaffected by the slot moving on.
    r.set_slot(2, 2, String::from("second failure"), ErrorLevel::ERROR);
    r.push_step(Step::Int(-1));
    let second = d.resume(&mut r).unwrap_err();
    assert_eq!(second.code, 2);
    assert_eq!(second.message, "second failure");
    assert_eq!(first.code, 1);
    assert_eq!(first.message, "first failure");
}

#[test]
fn last_error_copies_the_current_slot() {
    let mut r = ScriptedRemote::new();
    r.set_slot(9, 18, String::from("ambient"), ErrorLevel::WARNING);
    let e = Error::last_error(&r);
    assert_eq!(e.kind, ErrorKind::Remote);
    assert_eq!(e.code, 9);
    assert_eq!(e.domain, 18);
    assert_eq!(e.message, "ambient");
    assert_eq!(e.level, ErrorLevel::WARNING);
}

#[test]
fn from_parts_translates_the_raw_severity() {
    let e = Error::from_parts(5, 6, String::from("boom"), 2);
    assert_eq!(e.level, ErrorLevel::ERROR);
    assert_eq!(Error::from_parts(0, 0, String::new(), 1).level, ErrorLevel::WARNING);
    assert_eq!(Error::from_parts(0, 0, String::new(), 0).level, ErrorLevel::NONE);
    // A severity outside the catalog falls back to NONE.
    assert_eq!(Error::from_parts(0, 0, String::new(), 7).level, ErrorLevel::NONE);
    assert_eq!(ErrorLevel::from(2u32), ErrorLevel::ERROR);
}

#[test]
fn dispatch_reaches_only_the_newest_callback() {
    let mut channel: ErrorChannel<ErrorLog> = ErrorChannel::new();
    assert!(channel.install(ErrorLog::new()).is_none());
    // Installing a replacement hands the old callback back whole...
    let old = channel.install(ErrorLog::new()).unwrap();
    let e = Error::from_parts(7, 1, String::from("observed"), 2);
    assert!(channel.dispatch(&e));
    // ...so the failure reached only the newest callback.
    assert_eq!(old.entries().len(), 0);
    let newest = channel.uninstall().unwrap();
    assert_eq!(newest.entries().len(), 1);
    assert_eq!(newest.entries()[0].message, "observed");
    assert_eq!(newest.entries()[0].code, 7);
}

#[test]
fn uninstalled_channel_observes_nothing() {
    let mut channel: ErrorChannel<ErrorLog> = ErrorChannel::new();
    let e = Error::from_parts(1, 1, String::from("unseen"), 2);
    assert!(!channel.dispatch(&e));
    channel.install(ErrorLog::new());
    let log = channel.uninstall().unwrap();
    assert!(!channel.dispatch(&e));
    assert_eq!(log.entries().len(), 0);
}

#[test]
fn set_error_func_replaces_the_previous_callback() {
    let mut channel: ErrorChannel<ErrorLog> = ErrorChannel::new();
    assert!(set_error_func(&mut channel, ErrorLog::new()).is_none());
    let prev = set_error_func(&mut channel, ErrorLog::new());
    assert!(prev.is_some());
    let e = Error::from_parts(3, 4, String::from("routed"), 1);
    assert!(channel.dispatch(&e));
    let current = channel.uninstall().unwrap();
    assert_eq!(current.entries().len(), 1);
    assert_eq!(current.entries()[0].domain, 4);
    assert_eq!(prev.unwrap().entries().len(), 0);
}

#[test]
fn dispatch_delivers_in_order_to_one_callback() {
    let mut channel: ErrorChannel<ErrorLog> = ErrorChannel::new();
    channel.install(ErrorLog::new());
    channel.dispatch(&Error::from_parts(1, 0, String::from("a"), 2));
    channel.dispatch(&Error::from_parts(2, 0, String::from("b"), 2));
    let log = channel.uninstall().unwrap();
    assert_eq!(log.entries().len(), 2);
    assert_eq!(log.entries()[0].message, "a");
    assert_eq!(log.entries()[1].message, "b");
}
