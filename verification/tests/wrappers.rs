//! The typed operations of the wrappers: sentinel interpretation, catalog
//! translation, flag encoding and the remaining query shapes.

use virt::connect::flags::ListAllDomainsFlags;
use virt::connect::Connect;
use virt::domain::flags::{DomainMemoryModFlags, RebootFlags, XmlFlags};
use virt::domain::{
    Domain, DomainInterface, DomainIpAddress, DomainState, InterfaceAddressSource, InterfaceStats,
};
use virt::error::ErrorKind;
use virt::interface::Interface;
use virt::remote::{
    CallRecord, IntOp, RawDomainInfo, RawPoolInfo, RawVolInfo, RemoteBuf, RemoteIfaces,
};
use virt::script::{ScriptedRemote, Step};
use virt::secret::Secret;
use virt::storage_pool::flags::StoragePoolState;
use virt::storage_pool::StoragePool;
use virt::storage_vol::flags::{StorageVolType, StorageVolWipeAlgorithm};
use virt::storage_vol::StorageVol;
use virt::stream::Stream;

#[test]
fn open_produces_a_live_wrapper_owning_the_returned_handle() {
    let mut r = ScriptedRemote::new();
    r.push_step(Step::Handle(12));
    let conn = Connect::open(&mut r, "test:///default").unwrap();
    assert_eq!(conn.as_ptr(), 12);
    assert_eq!(r.log().as_slice(), &[CallRecord::Open { read_only: false, ret: 12 }]);
}

#[test]
fn lookups_hand_each_wrapper_its_own_handle() {
    let mut r = ScriptedRemote::new();
    let conn = Connect::new(1);
    r.push_step(Step::Handle(21));
    assert_eq!(Domain::lookup_by_name(&conn, &mut r, "a").unwrap().as_ptr(), 21);
    r.push_step(Step::Handle(22));
    assert_eq!(Interface::lookup_by_name(&conn, &mut r, "eth0").unwrap().as_ptr(), 22);
    r.push_step(Step::Handle(23));
    assert_eq!(Secret::lookup_by_uuid_string(&conn, &mut r, "u").unwrap().as_ptr(), 23);
    r.push_step(Step::Handle(24));
    assert_eq!(StoragePool::lookup_by_name(&conn, &mut r, "default").unwrap().as_ptr(), 24);
    r.push_step(Step::Handle(25));
    assert_eq!(StorageVol::lookup_by_key(&conn, &mut r, "k").unwrap().as_ptr(), 25);
}

#[test]
fn get_connect_yields_an_independent_connection_wrapper() {
    let mut r = ScriptedRemote::new();
    let d = Domain::new(7);
    r.push_step(Step::Handle(31));
    let mut c = d.get_connect(&mut r).unwrap();
    assert_eq!(c.as_ptr(), 31);
    // Closing the obtained connection releases only its own handle.
    r.push_step(Step::Int(0));
    c.close(&mut r).unwrap();
    assert!(matches!(
        r.log()[1],
        CallRecord::Release { handle: 31, .. }
    ));
}

#[test]
fn unit_and_bool_operations_interpret_the_sentinel() {
    let mut r = ScriptedRemote::new();
    let d = Domain::new(7);
    r.push_step(Step::Int(0));
    assert!(d.create(&mut r).is_ok());
    r.push_step(Step::Int(1));
    assert_eq!(d.is_active(&mut r).unwrap(), true);
    r.push_step(Step::Int(0));
    assert_eq!(d.is_active(&mut r).unwrap(), false);
    r.set_slot(55, 10, String::from("not allowed"), virt::error::ErrorLevel::ERROR);
    r.push_step(Step::Int(-1));
    let e = d.destroy(&mut r).unwrap_err();
    assert_eq!(e.kind, ErrorKind::Remote);
    assert_eq!(e.code, 55);
}

#[test]
fn resume_and_destroy_flags_hand_back_the_raw_answer() {
    let mut r = ScriptedRemote::new();
    let d = Domain::new(7);
    r.push_step(Step::Int(0));
    assert_eq!(d.resume(&mut r).unwrap(), 0);
    r.push_step(Step::Int(0));
    let flags = virt::domain::flags::DomainDestroyFlags::new(
        virt::domain::flags::DomainDestroyFlags::GRACEFUL,
    );
    assert_eq!(d.destroy_flags(&mut r, flags).unwrap(), 0);
    assert!(matches!(
        r.log()[1],
        CallRecord::Int { op: IntOp::DomainDestroyFlags, flags: 1, .. }
    ));
}

#[test]
fn reboot_encodes_an_absent_flag_set_as_zero() {
    let mut r = ScriptedRemote::new();
    let d = Domain::new(7);
    r.push_step(Step::Int(0));
    d.reboot(&mut r, None).unwrap();
    r.push_step(Step::Int(0));
    let combined = RebootFlags::new(RebootFlags::ACPI_POWER_BTN).union(RebootFlags::new(
        RebootFlags::GUEST_AGENT,
    ));
    d.reboot(&mut r, Some(combined)).unwrap();
    assert!(matches!(r.log()[0], CallRecord::Int { op: IntOp::DomainReboot, flags: 0, .. }));
    assert!(matches!(r.log()[1], CallRecord::Int { op: IntOp::DomainReboot, flags: 3, .. }));
}

#[test]
fn list_all_domains_encodes_an_absent_filter_as_zero() {
    let mut r = ScriptedRemote::new();
    let conn = Connect::new(5);
    r.push_step(Step::Handles(None));
    let _ = conn.list_all_domains(&mut r, None);
    r.push_step(Step::Handles(None));
    let filter = ListAllDomainsFlags::new(ListAllDomainsFlags::ACTIVE | ListAllDomainsFlags::PAUSED);
    let _ = conn.list_all_domains(&mut r, Some(filter));
    assert!(matches!(r.log()[0], CallRecord::HandleList { flags: 0, .. }));
    assert!(matches!(r.log()[1], CallRecord::HandleList { flags: 33, .. }));
}

#[test]
fn domain_state_catalog_translates_each_number_once() {
    assert_eq!(DomainState::new(0), Some(DomainState::NoState));
    assert_eq!(DomainState::new(1), Some(DomainState::Running));
    assert_eq!(DomainState::new(5), Some(DomainState::Shutoff));
    assert_eq!(DomainState::new(7), Some(DomainState::PmSuspended));
    assert_eq!(DomainState::new(8), None);
    assert_eq!(StoragePoolState::from_int(2), Some(StoragePoolState::Running));
    assert_eq!(StoragePoolState::from_int(6), None);
    assert_eq!(StoragePoolState::from_int(-1), None);
    assert_eq!(StorageVolType::from_int(1), Some(StorageVolType::Block));
    assert_eq!(StorageVolType::from_int(7), None);
}

#[test]
fn get_info_translates_the_raw_record() {
    let mut r = ScriptedRemote::new();
    let d = Domain::new(7);
    r.push_step(Step::DomInfo(Some(RawDomainInfo {
        state: 1,
        max_mem: 4096,
        memory: 2048,
        nr_virt_cpu: 2,
        cpu_time: 777,
    })));
    let info = d.get_info(&mut r).unwrap();
    assert_eq!(info.state, DomainState::Running);
    assert_eq!(info.max_mem, 4096);
    assert_eq!(info.memory, 2048);
    assert_eq!(info.nr_virt_cpu, 2);
    assert_eq!(info.cpu_time, 777);
}

#[test]
fn get_state_hands_back_state_and_reason() {
    let mut r = ScriptedRemote::new();
    let d = Domain::new(7);
    r.push_step(Step::DomState(Some((3, 2))));
    let (state, reason) = d.get_state(&mut r).unwrap();
    assert_eq!(state, DomainState::Paused);
    assert_eq!(reason, 2);
}

#[test]
fn get_id_reads_the_all_ones_answer_as_none() {
    let mut r = ScriptedRemote::new();
    let d = Domain::new(7);
    r.push_step(Step::Id(u32::MAX));
    assert_eq!(d.get_id(&mut r).unwrap(), None);
    r.push_step(Step::Id(42));
    assert_eq!(d.get_id(&mut r).unwrap(), Some(42));
}

#[test]
fn uuid_queries_fill_the_local_buffer_without_any_free() {
    let mut r = ScriptedRemote::new();
    let d = Domain::new(7);
    r.push_step(Step::Fill(Some(String::from("004b96e1-2d78-c30f-5aa5-f03c87d21e69"))));
    let uuid = d.get_uuid_string(&mut r).unwrap();
    assert_eq!(uuid.len(), 36);
    assert!(r.log().iter().all(|rec| !matches!(rec, CallRecord::FreeBuf { .. })));
}

#[test]
fn memory_words_treat_zero_as_failure() {
    let mut r = ScriptedRemote::new();
    let d = Domain::new(7);
    r.push_step(Step::Word(8192));
    assert_eq!(d.get_max_memory(&mut r).unwrap(), 8192);
    r.set_slot(3, 10, String::from("no ceiling"), virt::error::ErrorLevel::ERROR);
    r.push_step(Step::Word(0));
    assert_eq!(d.get_max_memory(&mut r).unwrap_err().code, 3);
}

#[test]
fn memory_setters_carry_their_arguments_into_the_call() {
    let mut r = ScriptedRemote::new();
    let d = Domain::new(7);
    r.push_step(Step::Int(0));
    d.set_max_memory(&mut r, 9999).unwrap();
    assert!(matches!(
        r.log()[0],
        CallRecord::Int { op: IntOp::DomainSetMaxMemory, arg: 9999, .. }
    ));
    r.push_step(Step::Int(0));
    d.set_memory_stats_period(&mut r, -1, DomainMemoryModFlags::new(
        DomainMemoryModFlags::LIVE,
    ))
    .unwrap();
    assert!(matches!(
        r.log()[1],
        CallRecord::Int { op: IntOp::DomainSetMemoryStatsPeriod, sarg: -1, flags: 1, .. }
    ));
}

#[test]
fn autostart_round_trip() {
    let mut r = ScriptedRemote::new();
    let p = StoragePool::new(5);
    r.push_step(Step::Tristate(1));
    assert_eq!(p.get_autostart(&mut r).unwrap(), true);
    r.push_step(Step::Tristate(0));
    assert_eq!(p.get_autostart(&mut r).unwrap(), false);
    r.push_step(Step::Int(0));
    p.set_autostart(&mut r, true).unwrap();
    assert!(matches!(
        r.log()[2],
        CallRecord::Int { op: IntOp::PoolSetAutostart, arg: 1, .. }
    ));
}

#[test]
fn pool_info_translates_the_state_catalog() {
    let mut r = ScriptedRemote::new();
    let p = StoragePool::new(5);
    r.push_step(Step::PoolInfo(Some(RawPoolInfo {
        state: 2,
        capacity: 100,
        allocation: 40,
        available: 60,
    })));
    let info = p.get_info(&mut r).unwrap();
    assert_eq!(info.state, StoragePoolState::Running);
    assert_eq!(info.capacity, 100);
    assert_eq!(info.allocation, 40);
    assert_eq!(info.available, 60);
}

#[test]
fn vol_info_translates_the_type_catalog() {
    let mut r = ScriptedRemote::new();
    let v = StorageVol::new(6);
    r.push_step(Step::VolInfo(Some(RawVolInfo { vol_type: 0, capacity: 10, allocation: 4 })));
    let info = v.get_info(&mut r).unwrap();
    assert_eq!(info.type_, StorageVolType::File);
    assert_eq!(info.capacity, 10);
    assert_eq!(info.allocation, 4);
}

#[test]
fn wipe_pattern_encodes_the_chosen_procedure() {
    let mut r = ScriptedRemote::new();
    let v = StorageVol::new(6);
    r.push_step(Step::Int(0));
    v.wipe_pattern(&mut r, StorageVolWipeAlgorithm::Trim).unwrap();
    assert!(matches!(
        r.log()[0],
        CallRecord::Int { op: IntOp::VolWipePattern, arg: 9, .. }
    ));
}

#[test]
fn transfers_carry_both_handles_and_refuse_a_released_stream() {
    let mut r = ScriptedRemote::new();
    let v = StorageVol::new(6);
    let mut st = Stream::new(9);
    r.push_step(Step::Int(0));
    v.download(&mut r, &st, 0, 1024, virt::storage_vol::flags::StorageVolDownloadFlags::new(0))
        .unwrap();
    assert!(matches!(
        r.log()[0],
        CallRecord::Transfer { vol: 6, stream: 9, offset: 0, length: 1024, .. }
    ));
    r.push_step(Step::Int(0));
    st.free(&mut r).unwrap();
    let before = r.log().len();
    let e = v
        .upload(&mut r, &st, 0, 1, virt::storage_vol::flags::StorageVolUploadFlags::new(0))
        .unwrap_err();
    assert_eq!(e.kind, ErrorKind::Invalid);
    assert_eq!(r.log().len(), before);
}

#[test]
fn stream_send_and_recv_respect_their_bounds() {
    let mut r = ScriptedRemote::new();
    let st = Stream::new(9);
    r.push_step(Step::Int(5));
    assert_eq!(st.send(&mut r, "hello").unwrap(), 5);
    // An answer claiming more than was handed in is clamped to the length.
    r.push_step(Step::Int(100));
    assert_eq!(st.send(&mut r, "hi").unwrap(), 2);
    r.push_step(Step::Text(Some(String::from("pong"))));
    assert_eq!(st.recv(&mut r, 16).unwrap(), "pong");
}

#[test]
fn interface_queries_use_borrowed_buffers() {
    let mut r = ScriptedRemote::new();
    let i = Interface::new(3);
    r.push_step(Step::Buf(Some(RemoteBuf { id: 80, text: String::from("eth0") })));
    assert_eq!(i.get_name(&mut r).unwrap(), "eth0");
    r.push_step(Step::Buf(Some(RemoteBuf { id: 81, text: String::from("52:54:00:aa:bb:cc") })));
    assert_eq!(i.get_mac_string(&mut r).unwrap(), "52:54:00:aa:bb:cc");
    assert!(r.log().iter().all(|rec| !matches!(rec, CallRecord::FreeBuf { .. })));
}

#[test]
fn interface_addresses_are_deep_copied_and_the_array_freed_once() {
    let mut r = ScriptedRemote::new();
    let d = Domain::new(7);
    let items = vec![DomainInterface {
        name: String::from("vnet0"),
        hwaddr: String::from("52:54:00:00:00:01"),
        addrs: vec![DomainIpAddress { addr: String::from("192.168.122.10"), prefix: 24 }],
    }];
    r.push_step(Step::Ifaces(Some(RemoteIfaces { id: 90, items })));
    let out = d.interface_addresses(&mut r, InterfaceAddressSource::Lease).unwrap();
    assert_eq!(out.len(), 1);
    assert_eq!(out[0].name, "vnet0");
    assert_eq!(out[0].addrs[0].prefix, 24);
    assert_eq!(
        r.log().as_slice(),
        &[
            CallRecord::IfaceAddrs { handle: 7, source: 0, ret_id: 90, count: 1 },
            CallRecord::FreeBuf { id: 90 },
        ]
    );
}

#[test]
fn interface_stats_come_back_whole() {
    let mut r = ScriptedRemote::new();
    let d = Domain::new(7);
    r.push_step(Step::Stats(Some(InterfaceStats {
        rx_bytes: 1,
        rx_packets: 2,
        rx_errs: 0,
        rx_drop: 0,
        tx_bytes: 3,
        tx_packets: 4,
        tx_errs: -1,
        tx_drop: 0,
    })));
    let stats = d.interface_stats(&mut r, "vnet0").unwrap();
    assert_eq!(stats.rx_bytes, 1);
    assert_eq!(stats.tx_packets, 4);
    assert_eq!(stats.tx_errs, -1);
}

#[test]
fn restore_is_issued_against_the_connection() {
    let mut r = ScriptedRemote::new();
    let conn = Connect::new(1);
    r.push_step(Step::Int(0));
    Domain::domain_restore(&conn, &mut r, "/tmp/image").unwrap();
    assert!(matches!(
        r.log()[0],
        CallRecord::Restore { handle: 1, has_dxml: false, flags: 0, .. }
    ));
    r.push_step(Step::Int(0));
    Domain::domain_restore_flags(
        &conn,
        &mut r,
        "/tmp/image",
        Some("<domain/>"),
        virt::domain::flags::DomainSaveRestoreFlags::new(
            virt::domain::flags::DomainSaveRestoreFlags::RUNNING,
        ),
    )
    .unwrap();
    assert!(matches!(
        r.log()[1],
        CallRecord::Restore { handle: 1, has_dxml: true, flags: 2, .. }
    ));
}

#[test]
fn secret_set_value_carries_the_length() {
    let mut r = ScriptedRemote::new();
    let s = Secret::new(4);
    r.push_step(Step::Int(0));
    s.set_value(&mut r, &[9, 9, 9], 0).unwrap();
    assert!(matches!(r.log()[0], CallRecord::SetValue { handle: 4, len: 3, .. }));
}

#[test]
fn secret_usage_queries_translate_their_answers() {
    let mut r = ScriptedRemote::new();
    let s = Secret::new(4);
    r.push_step(Step::Int(2));
    assert_eq!(s.get_usage_type(&mut r).unwrap(), 2);
    r.push_step(Step::Buf(Some(RemoteBuf { id: 44, text: String::from("ceph-pool") })));
    assert_eq!(s.get_usage_id(&mut r).unwrap(), "ceph-pool");
    // The usage identifier is an owned buffer and was freed after the copy.
    assert!(matches!(r.log()[2], CallRecord::FreeBuf { id: 44 }));
}

#[test]
fn xml_descriptions_pass_their_flag_bits_through() {
    let mut r = ScriptedRemote::new();
    let d = Domain::new(7);
    r.push_step(Step::Buf(Some(RemoteBuf { id: 45, text: String::from("<domain/>") })));
    let xml = d
        .get_xml_desc(&mut r, XmlFlags::new(XmlFlags::SECURE | XmlFlags::INACTIVE))
        .unwrap();
    assert_eq!(xml, "<domain/>");
    assert!(matches!(r.log()[0], CallRecord::Str { flags: 3, .. }));
}

#[test]
fn flag_sets_combine_by_bitwise_or() {
    let a = ListAllDomainsFlags::new(ListAllDomainsFlags::ACTIVE);
    let b = ListAllDomainsFlags::new(ListAllDomainsFlags::NO_SNAPSHOT);
    assert_eq!(a.union(b).bits(), 8193);
    assert_eq!(a.union(a).bits(), 1);
    assert_eq!(ListAllDomainsFlags::new(0).bits(), 0);
}

#[test]
fn storage_vol_info_default_is_an_empty_file_record() {
    let info = virt::storage_vol::StorageVolInfo::default();
    assert_eq!(info.type_, StorageVolType::File);
    assert_eq!(info.capacity, 0);
    assert_eq!(info.allocation, 0);
}

#[test]
fn pool_operations_carry_their_flag_bits() {
    let mut r = ScriptedRemote::new();
    let p = StoragePool::new(5);
    r.push_step(Step::Int(0));
    p.build(
        &mut r,
        virt::storage_pool::flags::StoragePoolBuildFlags::new(
            virt::storage_pool::flags::StoragePoolBuildFlags::REPAIR,
        ),
    )
    .unwrap();
    r.push_step(Step::Int(0));
    p.delete(
        &mut r,
        virt::storage_pool::flags::StoragePoolDeleteFlags::new(
            virt::storage_pool::flags::StoragePoolDeleteFlags::ZEROED,
        ),
    )
    .unwrap();
    assert!(matches!(r.log()[0], CallRecord::Int { op: IntOp::PoolBuild, flags: 1, .. }));
    assert!(matches!(r.log()[1], CallRecord::Int { op: IntOp::PoolDelete, flags: 1, .. }));
}

#[test]
fn stream_recv_at_exact_buffer_capacity() {
    let mut r = ScriptedRemote::new();
    let st = Stream::new(9);
    let big = "x".repeat(virt::stream::STREAM_RECV_CAPACITY);
    r.push_step(Step::Text(Some(big.clone())));
    let got = st.recv(&mut r, virt::stream::STREAM_RECV_CAPACITY).unwrap();
    assert_eq!(got.len(), virt::stream::STREAM_RECV_CAPACITY);
    assert_eq!(got, big);
}
