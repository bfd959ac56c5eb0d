//! Marshaling discipline: handle arrays, owned and borrowed text buffers,
//! byte buffers and the bounded fixed-capacity list calls.

use virt::connect::{Connect, ACTIVE_DOMAINS_CAPACITY, DEFINED_DOMAINS_CAPACITY};
use virt::domain::Domain;
use virt::error::ErrorKind;
use virt::remote::{CallRecord, RemoteBuf, RemoteBytes, RemoteHandles, StrOp};
use virt::script::{ScriptedRemote, Step};
use virt::secret::Secret;
use virt::storage_vol::StorageVol;

fn free_records(r: &ScriptedRemote) -> usize {
    r.log().iter().filter(|rec| matches!(rec, CallRecord::FreeBuf { .. })).count()
}

fn release_records(r: &ScriptedRemote) -> usize {
    r.log().iter().filter(|rec| matches!(rec, CallRecord::Release { .. })).count()
}

#[test]
fn handle_array_builds_one_wrapper_per_entry_and_frees_outer_array_once() {
    let mut r = ScriptedRemote::new();
    let conn = Connect::new(5);
    r.push_step(Step::Handles(Some(RemoteHandles { id: 99, handles: vec![11, 22, 33] })));
    let domains = conn.list_all_domains(&mut r, None).unwrap();
    assert_eq!(domains.len(), 3);
    assert_eq!(domains[0].as_ptr(), 11);
    assert_eq!(domains[1].as_ptr(), 22);
    assert_eq!(domains[2].as_ptr(), 33);
    assert_eq!(
        r.log().as_slice(),
        &[
            CallRecord::HandleList { handle: 5, flags: 0, ret_id: 99, count: 3 },
            CallRecord::FreeBuf { id: 99 },
        ]
    );
    // Exactly one free — the outer array — and no handle released.
    assert_eq!(free_records(&r), 1);
    assert_eq!(release_records(&r), 0);
}

#[test]
fn handle_array_failure_frees_nothing() {
    let mut r = ScriptedRemote::new();
    let conn = Connect::new(5);
    r.set_slot(1, 10, String::from("listing failed"), virt::error::ErrorLevel::ERROR);
    r.push_step(Step::Handles(None));
    let e = conn.list_all_domains(&mut r, None).unwrap_err();
    assert_eq!(e.kind, ErrorKind::Remote);
    assert_eq!(free_records(&r), 0);
}

#[test]
fn borrowed_string_is_copied_and_never_freed() {
    let mut r = ScriptedRemote::new();
    let d = Domain::new(7);
    r.push_step(Step::Buf(Some(RemoteBuf { id: 40, text: String::from("guest-a") })));
    let name = d.get_name(&mut r).unwrap();
    assert_eq!(name, "guest-a");
    assert_eq!(
        r.log().as_slice(),
        &[CallRecord::Str { op: StrOp::DomainGetName, handle: 7, flags: 0, ret_id: 40 }]
    );
    assert_eq!(free_records(&r), 0);
}

#[test]
fn owned_string_is_copied_and_freed_exactly_once() {
    let mut r = ScriptedRemote::new();
    let d = Domain::new(7);
    r.push_step(Step::Buf(Some(RemoteBuf { id: 41, text: String::from("hvm") })));
    let os = d.get_os_type(&mut r).unwrap();
    assert_eq!(os, "hvm");
    assert_eq!(
        r.log().as_slice(),
        &[
            CallRecord::Str { op: StrOp::DomainGetOsType, handle: 7, flags: 0, ret_id: 41 },
            CallRecord::FreeBuf { id: 41 },
        ]
    );
}

#[test]
fn owned_byte_buffer_is_copied_and_freed_exactly_once() {
    let mut r = ScriptedRemote::new();
    let s = Secret::new(4);
    r.push_step(Step::Bytes(Some(RemoteBytes { id: 50, data: vec![1, 2, 3, 4] })));
    let value = s.get_value(&mut r, 0).unwrap();
    assert_eq!(value, vec![1, 2, 3, 4]);
    assert_eq!(
        r.log().as_slice(),
        &[
            CallRecord::Bytes { handle: 4, flags: 0, ret_id: 50, count: 4 },
            CallRecord::FreeBuf { id: 50 },
        ]
    );
}

#[test]
fn volume_key_is_borrowed_and_path_is_owned() {
    let mut r = ScriptedRemote::new();
    let v = StorageVol::new(6);
    r.push_step(Step::Buf(Some(RemoteBuf { id: 60, text: String::from("key-1") })));
    assert_eq!(v.get_key(&mut r).unwrap(), "key-1");
    assert_eq!(free_records(&r), 0);
    r.push_step(Step::Buf(Some(RemoteBuf { id: 61, text: String::from("/var/lib/img") })));
    assert_eq!(v.get_path(&mut r).unwrap(), "/var/lib/img");
    assert_eq!(free_records(&r), 1);
}

#[test]
fn name_list_frees_every_returned_buffer_after_copying() {
    let mut r = ScriptedRemote::new();
    let conn = Connect::new(5);
    r.push_step(Step::Bufs(Some(vec![
        RemoteBuf { id: 71, text: String::from("one") },
        RemoteBuf { id: 72, text: String::from("two") },
    ])));
    let names = conn.list_defined_domains(&mut r).unwrap();
    assert_eq!(names, vec![String::from("one"), String::from("two")]);
    assert_eq!(
        r.log().as_slice(),
        &[
            CallRecord::StrList {
                handle: 5,
                capacity: DEFINED_DOMAINS_CAPACITY,
                ok: true,
                count: 2
            },
            CallRecord::FreeBuf { id: 71 },
            CallRecord::FreeBuf { id: 72 },
        ]
    );
}

#[test]
fn bounded_list_reports_a_full_buffer_as_exactly_capacity() {
    let mut r = ScriptedRemote::new();
    let conn = Connect::new(5);
    let ids: Vec<u32> = (0..ACTIVE_DOMAINS_CAPACITY as u32).collect();
    r.push_step(Step::Ints(Some(ids)));
    let listed = conn.list_active_domains(&mut r).unwrap();
    assert_eq!(listed.len(), ACTIVE_DOMAINS_CAPACITY);
}

#[test]
fn bounded_list_truncates_one_past_capacity_at_the_boundary() {
    // One more answer than the fixed buffer holds is the documented
    // truncation boundary: the overflow is silently cut off.
    let mut r = ScriptedRemote::new();
    let conn = Connect::new(5);
    let ids: Vec<u32> = (0..(ACTIVE_DOMAINS_CAPACITY as u32 + 1)).collect();
    r.push_step(Step::Ints(Some(ids)));
    let listed = conn.list_active_domains(&mut r).unwrap();
    assert_eq!(listed.len(), ACTIVE_DOMAINS_CAPACITY);
    assert_eq!(listed[ACTIVE_DOMAINS_CAPACITY - 1], ACTIVE_DOMAINS_CAPACITY as u32 - 1);
}

#[test]
fn empty_bounded_list_is_a_success_with_count_zero() {
    let mut r = ScriptedRemote::new();
    let conn = Connect::new(5);
    r.push_step(Step::Ints(Some(Vec::new())));
    assert_eq!(conn.list_active_domains(&mut r).unwrap().len(), 0);
}
