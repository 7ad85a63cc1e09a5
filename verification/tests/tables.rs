use zweidraehte_device::objects::tables::{
    AbsoluteAlloc, AddrTab7Impl, Application, ComObjectType, HasLoadStateMachine, LoadError,
    LoadEvent, LoadState, McbData, RelativeAlloc, Table,
};

/// A table of 32 octets under each policy.
type RelTable = Table<AddrTab7Impl<15>, RelativeAlloc>;
type AbsTable = Table<AddrTab7Impl<15>, AbsoluteAlloc>;

#[test]
fn test_com_object_type_roundtrip() {
    for v in 0u8..=255 {
        let cot = ComObjectType::from(v);
        let back: u8 = cot.into();
        assert_eq!(back, v, "ComObjectType round-trip failed for value {v}");
    }
}

#[test]
fn absolute_alloc_records_reference_and_size() {
    let mut table = AbsTable::new();
    table.write_lsm(&[LoadEvent::StartLoading.into()], None);
    table.write_lsm(
        &[LoadEvent::AdditionalLoadControls.into(), 0x00, 0x40, 0x00, 0x00, 0x10, 0xFF, 0x03, 0x80, 0x00],
        None,
    );
    assert_eq!(table.load_state(), LoadState::Loading);
    assert_eq!(table.table_reference(), 0x4000);
    let mcb = McbData::from_bytes(&HasLoadStateMachine::mcb_bytes(&table));
    assert_eq!(mcb.requested_memory_size, 0x10);
}

#[test]
fn application_accepts_multiple_absolute_segments() {
    let mut app = Application::<8, AbsoluteAlloc>::new();
    app.write_lsm(&[LoadEvent::StartLoading.into()], None);
    app.write_lsm(
        &[LoadEvent::AdditionalLoadControls.into(), 0x00, 0x42, 0x00, 0x00, 0x0E, 0xFF, 0x03, 0x80, 0x00],
        None,
    );
    assert_eq!(app.read_lsm(), [LoadState::Loading.into()]);
    app.write_lsm(
        &[LoadEvent::AdditionalLoadControls.into(), 0x00, 0x43, 0x00, 0x00, 0x08, 0xFF, 0x03, 0x80, 0x00],
        None,
    );
    assert_eq!(app.read_lsm(), [LoadState::Loading.into()]);
    assert_eq!(app.table_reference(), 0x4300, "last record wins");
    app.write_lsm(&[LoadEvent::LoadCompleted.into()], None);
    assert_eq!(app.read_lsm(), [LoadState::Loaded.into()]);
}

#[test]
fn unload_zeroes_plain_table() {
    let mut table = AbsTable::new();
    table.write_lsm(&[LoadEvent::StartLoading.into()], None);
    table.write(0, &[0xAA; 8]);
    table.write_lsm(&[LoadEvent::Unload.into()], None);
    assert_eq!(table.load_state(), LoadState::Unloaded);
    assert!(table.data_ref().iter().all(|&b| b == 0));
}

#[test]
fn absolute_alloc_accepts_task_records_as_noops() {
    let mut table = AbsTable::new();
    table.write_lsm(&[LoadEvent::StartLoading.into()], None);
    for segment_type in [0x01u8, 0x02, 0x03, 0x04, 0x05] {
        table.write_lsm(&[LoadEvent::AdditionalLoadControls.into(), segment_type, 0, 0, 0, 0, 0, 0, 0, 0, 0], None);
        assert_eq!(table.load_state(), LoadState::Loading, "segment type {segment_type:#04x}");
    }
    assert_eq!(table.table_reference(), 0);
}

#[test]
fn absolute_alloc_rejects_relative_data() {
    let mut table = AbsTable::new();
    table.write_lsm(&[LoadEvent::StartLoading.into()], None);
    table.write_lsm(&[LoadEvent::AdditionalLoadControls.into(), 0x0B, 0, 0, 0, 16, 0, 0, 0xFF, 0xFF], None);
    assert_eq!(table.load_state(), LoadState::Error);
    assert_eq!(table.last_error_code(), LoadError::UndefinedLoadCommand.to_byte());
}

#[test]
fn relative_alloc_rejects_absolute_segment() {
    let mut table = RelTable::new();
    table.write_lsm(&[LoadEvent::StartLoading.into()], None);
    table.write_lsm(
        &[LoadEvent::AdditionalLoadControls.into(), 0x00, 0x40, 0x00, 0x00, 0x10, 0xFF, 0x03, 0x80, 0x00],
        None,
    );
    assert_eq!(table.load_state(), LoadState::Error);
    assert_eq!(table.last_error_code(), LoadError::UndefinedLoadCommand.to_byte());
}

#[test]
fn absolute_alloc_over_capacity_errors() {
    let mut table = AbsTable::new();
    table.write_lsm(&[LoadEvent::StartLoading.into()], None);
    table.write_lsm(
        &[LoadEvent::AdditionalLoadControls.into(), 0x00, 0x40, 0x00, 0x01, 0x00, 0xFF, 0x03, 0x80, 0x00],
        None,
    );
    assert_eq!(table.load_state(), LoadState::Error);
    assert_eq!(table.last_error_code(), LoadError::MaxTableLengthExceeded.to_byte());
}
