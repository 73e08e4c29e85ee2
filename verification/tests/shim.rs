use maidenhair::builder::{build_shim_descriptor, ShimContext};
use maidenhair::descriptor::{CapTable, Capability, VfsDescriptor};
use maidenhair::file::{
    complete_open, open_precheck, ExtensionRecord, FileMethods, OpenPlan, EXTENSION_RECORD_SIZE,
};
use maidenhair::forward::{forward_action, ForwardAction};
use maidenhair::register::registration_status;
use maidenhair::status::{GENERIC_ERROR, STATUS_OK};
use maidenhair::transform::{decode_bytes, encode_bytes, finish_read, TRANSFORM_SHIFT};

fn empty_table() -> CapTable {
    CapTable {
        delete: None,
        access: None,
        full_pathname: None,
        dl_open: None,
        dl_error: None,
        dl_sym: None,
        dl_close: None,
        randomness: None,
        sleep: None,
        current_time: None,
        last_error: None,
    }
}

fn full_table() -> CapTable {
    CapTable {
        delete: Some(21),
        access: Some(22),
        full_pathname: Some(23),
        dl_open: Some(24),
        dl_error: Some(25),
        dl_sym: Some(26),
        dl_close: Some(27),
        randomness: Some(28),
        sleep: Some(29),
        current_time: Some(30),
        last_error: Some(31),
    }
}

fn backing_descriptor(table: CapTable) -> VfsDescriptor {
    VfsDescriptor {
        version: 3,
        os_file_size: 120,
        max_pathname: 512,
        name: String::from("unix"),
        open_entry: Some(11),
        table,
        current_time_int64: Some(41),
        set_system_call: Some(42),
        get_system_call: Some(43),
        next_system_call: Some(44),
    }
}

fn backing_methods() -> FileMethods {
    FileMethods {
        read: Some(71),
        write: Some(72),
        close: Some(73),
        sync: Some(74),
        truncate: Some(75),
        file_size: Some(76),
        lock: Some(77),
        unlock: Some(78),
        check_reserved_lock: Some(79),
        file_control: Some(80),
        sector_size: Some(81),
        device_characteristics: Some(82),
    }
}

#[test]
fn round_trip_restores_every_byte() {
    let mut all: Vec<u8> = Vec::new();
    for b in 0..=255u8 {
        all.push(b);
    }
    let encoded = encode_bytes(&all);
    assert_eq!(encoded.len(), all.len());
    let mut back = encoded.clone();
    decode_bytes(&mut back);
    assert_eq!(back, all);
}

#[test]
fn encode_is_the_fixed_byte_shift() {
    assert_eq!(TRANSFORM_SHIFT, 13);
    let plain: Vec<u8> = vec![0x41, 0x42, 0x00, 0xF8, 0xFF];
    let encoded = encode_bytes(&plain);
    assert_eq!(encoded, vec![0x4E, 0x4F, 0x0D, 0x05, 0x0C]);
}

#[test]
fn encoding_twice_is_not_the_identity() {
    let plain: Vec<u8> = vec![0x41, 0x42];
    let twice = encode_bytes(&encode_bytes(&plain));
    assert_ne!(twice, plain);
}

#[test]
fn empty_buffer_round_trips() {
    let plain: Vec<u8> = Vec::new();
    let mut encoded = encode_bytes(&plain);
    assert!(encoded.is_empty());
    decode_bytes(&mut encoded);
    assert!(encoded.is_empty());
}

#[test]
fn declared_handle_size_adds_the_extension_record() {
    let backing = backing_descriptor(full_table());
    let (shim, _ctx) = build_shim_descriptor(Some(backing), 99).unwrap();
    assert_eq!(EXTENSION_RECORD_SIZE, 16);
    assert_eq!(shim.os_file_size, 136);
    assert_eq!(shim.version, 1);
    assert_eq!(shim.max_pathname, 512);
    assert_eq!(shim.name, "maidenhair");
    assert_eq!(shim.open_entry, Some(99));
    assert_eq!(shim.table, full_table());
    assert_eq!(shim.current_time_int64, None);
    assert_eq!(shim.set_system_call, None);
    assert_eq!(shim.get_system_call, None);
    assert_eq!(shim.next_system_call, None);
}

#[test]
fn builder_keeps_the_backing_in_the_context() {
    let backing = backing_descriptor(full_table());
    let (_, ShimContext { backing: kept }) = build_shim_descriptor(Some(backing), 99).unwrap();
    assert_eq!(kept.name, "unix");
    assert_eq!(kept.os_file_size, 120);
    assert_eq!(kept.table, full_table());
}

#[test]
fn null_backing_descriptor_is_rejected() {
    let r = build_shim_descriptor(None, 99);
    assert_eq!(r.err(), Some(GENERIC_ERROR));
}

#[test]
fn open_rejects_null_arguments() {
    assert_eq!(
        open_precheck(false, true, true, Some(11)),
        OpenPlan::Reject(GENERIC_ERROR)
    );
    assert_eq!(
        open_precheck(true, false, true, Some(11)),
        OpenPlan::Reject(GENERIC_ERROR)
    );
    assert_eq!(
        open_precheck(true, true, false, Some(11)),
        OpenPlan::Reject(GENERIC_ERROR)
    );
}

#[test]
fn open_rejects_a_backing_without_open() {
    assert_eq!(
        open_precheck(true, true, true, None),
        OpenPlan::Reject(GENERIC_ERROR)
    );
}

#[test]
fn open_delegates_to_the_backing_open() {
    assert_eq!(open_precheck(true, true, true, Some(11)), OpenPlan::Delegate(11));
}

#[test]
fn missing_read_or_write_fails_the_open() {
    let mut no_write = backing_methods();
    no_write.write = None;
    let before = no_write;
    let (rc, record) = complete_open(STATUS_OK, &mut no_write, 55, 66);
    assert_eq!(rc, GENERIC_ERROR);
    assert_eq!(record, None);
    assert_eq!(no_write, before);

    let mut no_read = backing_methods();
    no_read.read = None;
    let (rc, record) = complete_open(STATUS_OK, &mut no_read, 55, 66);
    assert_eq!(rc, GENERIC_ERROR);
    assert_eq!(record, None);
}

#[test]
fn backing_open_failure_is_passed_through_without_install() {
    let mut methods = backing_methods();
    let before = methods;
    let (rc, record) = complete_open(14, &mut methods, 55, 66);
    assert_eq!(rc, 14);
    assert_eq!(record, None);
    assert_eq!(methods, before);
}

#[test]
fn successful_open_write_read_round_trip() {
    // Open: the backing open succeeds and installed its method table.
    let mut methods = backing_methods();
    let (rc, record) = complete_open(STATUS_OK, &mut methods, 55, 66);
    assert_eq!(rc, STATUS_OK);
    // The originals are captured in the extension record...
    assert_eq!(
        record,
        Some(ExtensionRecord {
            read_entry: 71,
            write_entry: 72,
        })
    );
    // ...the wrapped entries are installed in their place...
    assert_eq!(methods.read, Some(55));
    assert_eq!(methods.write, Some(66));
    // ...and every other slot stays as the backing VFS set it.
    assert_eq!(methods.close, Some(73));
    assert_eq!(methods.sync, Some(74));
    assert_eq!(methods.truncate, Some(75));
    assert_eq!(methods.lock, Some(77));

    // Write: the backing write stores the encoded bytes.
    let payload: Vec<u8> = vec![0x41, 0x42];
    let stored = encode_bytes(&payload);
    assert_ne!(stored, payload);
    assert_eq!(stored, vec![0x4E, 0x4F]);

    // Read: the backing read returns the stored bytes; the shim decodes
    // them in place and passes the backing's result code through.
    let mut read_back = stored.clone();
    let rc = finish_read(STATUS_OK, &mut read_back);
    assert_eq!(rc, STATUS_OK);
    assert_eq!(read_back, vec![0x41, 0x42]);
}

#[test]
fn read_passes_the_backing_result_code_through() {
    let mut buf: Vec<u8> = vec![0x4E];
    let rc = finish_read(23, &mut buf);
    assert_eq!(rc, 23);
}

#[test]
fn missing_randomness_answers_the_generic_error() {
    let backing = backing_descriptor(empty_table());
    assert_eq!(
        forward_action(&backing, Capability::Randomness),
        ForwardAction::Answer(GENERIC_ERROR)
    );
}

#[test]
fn present_capability_is_invoked_unchanged() {
    let backing = backing_descriptor(full_table());
    assert_eq!(
        forward_action(&backing, Capability::Delete),
        ForwardAction::Invoke(21)
    );
    assert_eq!(
        forward_action(&backing, Capability::Randomness),
        ForwardAction::Invoke(28)
    );
    assert_eq!(
        forward_action(&backing, Capability::LastError),
        ForwardAction::Invoke(31)
    );
}

#[test]
fn missing_dynamic_library_entries_do_nothing() {
    let backing = backing_descriptor(empty_table());
    assert_eq!(
        forward_action(&backing, Capability::DlClose),
        ForwardAction::NoAction
    );
    assert_eq!(
        forward_action(&backing, Capability::DlError),
        ForwardAction::NoAction
    );
    assert_eq!(
        forward_action(&backing, Capability::DlOpen),
        ForwardAction::NoAction
    );
    assert_eq!(
        forward_action(&backing, Capability::DlSym),
        ForwardAction::NoAction
    );
}

#[test]
fn every_status_capability_falls_back_to_the_generic_error() {
    let backing = backing_descriptor(empty_table());
    let with_status = [
        Capability::Delete,
        Capability::Access,
        Capability::FullPathname,
        Capability::Randomness,
        Capability::Sleep,
        Capability::CurrentTime,
        Capability::LastError,
    ];
    for cap in with_status {
        assert_eq!(
            forward_action(&backing, cap),
            ForwardAction::Answer(GENERIC_ERROR)
        );
    }
}

#[test]
fn registration_reports_the_register_code_on_success() {
    let backing = backing_descriptor(full_table());
    let built = build_shim_descriptor(Some(backing), 99).map(|p| p.0);
    assert_eq!(registration_status(&built, STATUS_OK), STATUS_OK);
    assert_eq!(registration_status(&built, 6), 6);
}

#[test]
fn registration_reports_the_construction_error_on_failure() {
    let built = build_shim_descriptor(None, 99).map(|p| p.0);
    assert_eq!(registration_status(&built, STATUS_OK), GENERIC_ERROR);
}
