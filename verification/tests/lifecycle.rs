//! The handle lifecycle rules: release happens exactly once, and a released
//! wrapper refuses every operation without touching the remote side.

use virt::connect::Connect;
use virt::domain::Domain;
use virt::error::ErrorKind;
use virt::interface::Interface;
use virt::remote::{CallRecord, IntOp, ObjectKind, Remote};
use virt::script::{ScriptedRemote, Step};
use virt::secret::Secret;
use virt::storage_pool::StoragePool;
use virt::storage_vol::StorageVol;
use virt::stream::Stream;

#[test]
fn release_twice_issues_one_release_call() {
    let mut r = ScriptedRemote::new();
    r.push_step(Step::Int(0));
    let mut d = Domain::new(7);
    assert!(d.free(&mut r).is_ok());
    assert_eq!(
        r.log().as_slice(),
        &[CallRecord::Release { kind: ObjectKind::Domain, handle: 7, ret: 0 }]
    );
    // The second release is a no-op success: no new record appears.
    assert!(d.free(&mut r).is_ok());
    assert_eq!(r.log().len(), 1);
}

#[test]
fn release_twice_is_idempotent_for_every_wrapper_kind() {
    let mut r = ScriptedRemote::new();
    for _ in 0..6 {
        r.push_step(Step::Int(0));
    }
    let mut c = Connect::new(1);
    let mut d = Domain::new(2);
    let mut i = Interface::new(3);
    let mut s = Secret::new(4);
    let mut p = StoragePool::new(5);
    let mut v = StorageVol::new(6);
    assert!(c.close(&mut r).is_ok());
    assert!(d.free(&mut r).is_ok());
    assert!(i.free(&mut r).is_ok());
    assert!(s.free(&mut r).is_ok());
    assert!(p.free(&mut r).is_ok());
    assert!(v.free(&mut r).is_ok());
    assert_eq!(r.log().len(), 6);
    assert!(c.close(&mut r).is_ok());
    assert!(d.free(&mut r).is_ok());
    assert!(i.free(&mut r).is_ok());
    assert!(s.free(&mut r).is_ok());
    assert!(p.free(&mut r).is_ok());
    assert!(v.free(&mut r).is_ok());
    assert_eq!(r.log().len(), 6);
    for rec in r.log().iter() {
        assert!(matches!(rec, CallRecord::Release { .. }));
    }
}

#[test]
fn stream_free_twice_issues_one_release_call() {
    let mut r = ScriptedRemote::new();
    r.push_step(Step::Int(0));
    let mut st = Stream::new(9);
    assert!(st.free(&mut r).is_ok());
    assert!(st.free(&mut r).is_ok());
    assert_eq!(
        r.log().as_slice(),
        &[CallRecord::Release { kind: ObjectKind::Stream, handle: 9, ret: 0 }]
    );
}

#[test]
fn failed_release_still_marks_released_and_is_not_retried() {
    let mut r = ScriptedRemote::new();
    r.set_slot(38, 7, String::from("release failed"), virt::error::ErrorLevel::ERROR);
    r.push_step(Step::Int(-1));
    let mut d = Domain::new(7);
    let e = d.free(&mut r).unwrap_err();
    assert_eq!(e.kind, ErrorKind::Remote);
    assert_eq!(e.code, 38);
    // Even after the failed release the handle is gone: no second attempt.
    assert!(d.free(&mut r).is_ok());
    assert_eq!(r.log().len(), 1);
}

#[test]
fn operation_after_release_fails_invalid_and_issues_no_call() {
    let mut r = ScriptedRemote::new();
    r.push_step(Step::Int(0));
    let mut d = Domain::new(7);
    assert!(d.free(&mut r).is_ok());
    let before = r.log().len();
    let e = d.suspend(&mut r).unwrap_err();
    assert_eq!(e.kind, ErrorKind::Invalid);
    let e = d.get_name(&mut r).unwrap_err();
    assert_eq!(e.kind, ErrorKind::Invalid);
    let e = d.get_info(&mut r).unwrap_err();
    assert_eq!(e.kind, ErrorKind::Invalid);
    let e = d.get_xml_desc(&mut r, virt::domain::flags::XmlFlags::new(0)).unwrap_err();
    assert_eq!(e.kind, ErrorKind::Invalid);
    let e = d.get_connect(&mut r).unwrap_err();
    assert_eq!(e.kind, ErrorKind::Invalid);
    assert_eq!(r.log().len(), before);
}

#[test]
fn every_wrapper_kind_refuses_operations_after_release() {
    let mut r = ScriptedRemote::new();
    for _ in 0..6 {
        r.push_step(Step::Int(0));
    }
    let mut c = Connect::new(1);
    let mut i = Interface::new(3);
    let mut s = Secret::new(4);
    let mut p = StoragePool::new(5);
    let mut v = StorageVol::new(6);
    let mut st = Stream::new(8);
    c.close(&mut r).unwrap();
    i.free(&mut r).unwrap();
    s.free(&mut r).unwrap();
    p.free(&mut r).unwrap();
    v.free(&mut r).unwrap();
    st.free(&mut r).unwrap();
    let before = r.log().len();
    assert_eq!(c.list_active_domains(&mut r).unwrap_err().kind, ErrorKind::Invalid);
    assert_eq!(i.is_active(&mut r).unwrap_err().kind, ErrorKind::Invalid);
    assert_eq!(s.get_usage_type(&mut r).unwrap_err().kind, ErrorKind::Invalid);
    assert_eq!(p.refresh(&mut r).unwrap_err().kind, ErrorKind::Invalid);
    assert_eq!(v.wipe(&mut r).unwrap_err().kind, ErrorKind::Invalid);
    assert_eq!(st.send(&mut r, "x").unwrap_err().kind, ErrorKind::Invalid);
    assert_eq!(r.log().len(), before);
}

#[test]
fn stream_finish_ends_and_releases_in_order() {
    let mut r = ScriptedRemote::new();
    r.push_step(Step::Int(0));
    r.push_step(Step::Int(0));
    let st = Stream::new(9);
    assert!(st.finish(&mut r).is_ok());
    assert_eq!(
        r.log().as_slice(),
        &[
            CallRecord::Int {
                op: IntOp::StreamFinish,
                handle: 9,
                arg: 0,
                sarg: 0,
                flags: 0,
                ret: 0
            },
            CallRecord::Release { kind: ObjectKind::Stream, handle: 9, ret: 0 },
        ]
    );
}

#[test]
fn stream_abort_reports_the_ending_failure_first() {
    let mut r = ScriptedRemote::new();
    r.set_slot(1, 2, String::from("abort refused"), virt::error::ErrorLevel::ERROR);
    r.push_step(Step::Int(-1));
    r.push_step(Step::Int(0));
    let st = Stream::new(9);
    let e = st.abort(&mut r).unwrap_err();
    assert_eq!(e.kind, ErrorKind::Remote);
    assert_eq!(e.message, "abort refused");
    // The handle was still released, exactly once.
    assert_eq!(r.log().len(), 2);
    assert!(matches!(r.log()[1], CallRecord::Release { handle: 9, .. }));
}

#[test]
fn lookup_failure_produces_no_wrapper_and_leaves_parent_usable() {
    let mut r = ScriptedRemote::new();
    let conn = Connect::new(1);
    r.push_step(Step::Handle(0));
    assert!(Domain::lookup_by_id(&conn, &mut r, 4).is_err());
    // The connection itself is untouched and still answers.
    r.push_step(Step::Handle(77));
    let d = Domain::lookup_by_id(&conn, &mut r, 4).unwrap();
    assert_eq!(d.as_ptr(), 77);
}
