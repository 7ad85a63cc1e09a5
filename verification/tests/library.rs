use zweidraehte_device::address::{GroupAddress, IndividualAddress};
use zweidraehte_device::layers::linklayers::usb::device::{DeviceSelector, UsbHidError};
use zweidraehte_device::layers::linklayers::usb::link_layer::{
    comm_mode_from, individual_address_from, individual_address_parts, max_apdu_length_from,
    max_apdu_length_or_default, UsbLinkLayerBuilder, DEFAULT_MAX_APDU_LENGTH,
};
use zweidraehte_device::layers::linklayers::usb::transport::{
    check_prop_write_response, is_device_mgmt_response, prop_read_request, prop_write_request,
    property_value_payload,
};
use zweidraehte_device::memory::{MemoryError, MemoryMap, NoMemoryMap};
use zweidraehte_device::objects::comm::{ComObject, ComObjectStatus, ComObjectStorage, TypedComObj};
use zweidraehte_device::objects::interface::{
    FunctionPropertyResult, PdtUnsignedInt, PdtUnsignedLong, PropertyBuf, PropertyError,
    StatePropertyValue, WriteResponse,
};
use zweidraehte_device::objects::tables::crc::crc16_ccitt;
use zweidraehte_device::objects::tables::{
    next_load_state, AddrTab7, AddressTable, AssoTab6, AssociationTable, CoTab7, ComObjectDescriptor,
    ComObjectFlags, ComObjectType, CommunicationObjectTable, HasLoadStateMachine, LoadAction,
    LoadError, LoadEvent, LoadState, McbData, Priority, RunEvent, Table,
};
use zweidraehte_device::objects::tables::AddrTab7Impl;
use zweidraehte_device::security::{check_receiving_seq, seq6_to_u64, u64_to_seq6, SeqVerdict};

#[test]
fn crc_of_known_data() {
    assert_eq!(crc16_ccitt(&[0x00, 0x02, 0x00, 0x01, 0x00, 0x02]), 0x62CF);
    assert_eq!(crc16_ccitt(&[]), 0x1D0F);
}

#[test]
fn lsm_transition_table_spots() {
    assert_eq!(next_load_state(LoadEvent::StartLoading, LoadState::Error), (LoadState::Error, LoadAction::NoAction));
    assert_eq!(
        next_load_state(LoadEvent::AdditionalLoadControls, LoadState::Loaded),
        (LoadState::Error, LoadAction::NoAction)
    );
    assert_eq!(next_load_state(LoadEvent::Unload, LoadState::Error), (LoadState::Unloaded, LoadAction::Unload));
    assert_eq!(next_load_state(LoadEvent::Other(9), LoadState::Loading), (LoadState::Loading, LoadAction::NoAction));
    assert_eq!(
        next_load_state(LoadEvent::LoadCompleted, LoadState::Unloaded),
        (LoadState::Unloaded, LoadAction::NoAction)
    );
}

#[test]
fn empty_and_unknown_writes_change_nothing() {
    let mut a = AddrTab7::<4>::new();
    a.write_lsm(&[LoadEvent::StartLoading.into()], None);
    assert_eq!(a.write_lsm(&[], None), LoadAction::NoAction);
    assert_eq!(a.load_state(), LoadState::Loading);
    assert_eq!(a.write_lsm(&[0x09, 1, 2, 3], None), LoadAction::NoAction);
    assert_eq!(a.load_state(), LoadState::Loading);
    assert_eq!(a.write_lsm(&[0x00], None), LoadAction::NoAction);
    assert_eq!(a.load_state(), LoadState::Loading);
}

#[test]
fn error_code_is_cleared_on_leaving_error() {
    let mut a = AddrTab7::<4>::new();
    a.write_lsm(&[LoadEvent::StartLoading.into()], None);
    // Truncated relative allocation record.
    a.write_lsm(&[LoadEvent::AdditionalLoadControls.into(), 0x0B, 0x00, 0x00], None);
    assert_eq!(a.load_state(), LoadState::Error);
    assert_eq!(a.last_error_code(), 14);
    // Still in the error state: the code stays.
    a.write_lsm(&[LoadEvent::StartLoading.into()], None);
    assert_eq!(a.last_error_code(), 14);
    a.write_lsm(&[LoadEvent::Unload.into()], None);
    assert_eq!(a.load_state(), LoadState::Unloaded);
    assert_eq!(a.last_error_code(), 0);
}

#[test]
fn alloc_in_loaded_state_enters_error_with_code() {
    let mut a = AddrTab7::<4>::new();
    a.write_lsm(&[LoadEvent::StartLoading.into()], None);
    a.write_lsm(&[LoadEvent::LoadCompleted.into()], None);
    assert_eq!(a.write_lsm(&[LoadEvent::AdditionalLoadControls.into()], None), LoadAction::NoAction);
    assert_eq!(a.load_state(), LoadState::Error);
    assert_eq!(a.last_error_code(), LoadError::UndefinedLoadCommand.to_byte());
    assert_ne!(a.last_error_code(), 0);
}

#[test]
fn relative_alloc_over_capacity_and_address_assignment() {
    let mut a = AddrTab7::<4>::new();
    a.write_lsm(&[LoadEvent::StartLoading.into()], None);
    // 11 octets into a 10-octet table.
    a.write_lsm(&[LoadEvent::AdditionalLoadControls.into(), 0x0B, 0, 0, 0, 11, 0x01, 0xAA, 0, 0], Some(0x1234));
    assert_eq!(a.load_state(), LoadState::Error);
    assert_eq!(a.last_error_code(), 13);
    assert_eq!(a.table_reference(), 0);

    let mut b = AddrTab7::<4>::new();
    b.write_lsm(&[LoadEvent::StartLoading.into()], None);
    // Fill flag clear: memory untouched; the address is assigned.
    b.write_lsm(&[LoadEvent::AdditionalLoadControls.into(), 0x0B, 0, 0, 0, 4, 0x00, 0xAA, 0, 0], Some(0x1234));
    assert_eq!(b.load_state(), LoadState::Loading);
    assert_eq!(b.table_reference(), 0x1234);
    assert!(b.data_ref().iter().all(|&x| x == 0));
    assert_eq!(b.mcb_bytes(), [0, 0, 0, 4, 0x00, 0xFF, 0xFF, 0xFF]);
}

#[test]
fn unload_clears_control_block_and_reference() {
    let mut b = AddrTab7::<4>::new();
    b.write_lsm(&[LoadEvent::StartLoading.into()], None);
    b.write_lsm(&[LoadEvent::AdditionalLoadControls.into(), 0x0B, 0, 0, 0, 4, 0x01, 0xAA, 0, 0], Some(0x1234));
    assert_eq!(&b.data_ref()[0..5], &[0xAA, 0xAA, 0xAA, 0xAA, 0x00]);
    assert_eq!(b.write_lsm(&[LoadEvent::Unload.into()], None), LoadAction::Unload);
    assert_eq!(b.mcb_bytes(), [0; 8]);
    assert_eq!(b.table_reference(), 0);
    assert!(b.data_ref().iter().all(|&x| x == 0));
}

#[test]
fn preloaded_table_records_size_and_checksum() {
    let t: Table<AddrTab7Impl<4>> = Table::with_data(&[0x00, 0x02, 0x00, 0x01, 0x00, 0x02], 0x4000);
    assert_eq!(t.load_state(), LoadState::Loaded);
    assert_eq!(t.table_reference(), 0x4000);
    assert_eq!(t.mcb_bytes(), [0x00, 0x00, 0x00, 0x06, 0x00, 0xFF, 0x62, 0xCF]);
    assert_eq!(t.entry_count(), 2);
    assert_eq!(t.address(2), Some(GroupAddress::from_raw(2)));
}

#[test]
fn mcb_encoding_round_trip() {
    let m = McbData { requested_memory_size: 0x0102_0304, mode: 5, fill: 6, crc: 0x0708 };
    assert_eq!(m.to_bytes(), [1, 2, 3, 4, 5, 6, 7, 8]);
    assert_eq!(McbData::from_bytes(&m.to_bytes()), m);
}

#[test]
fn addr7_binary_search_on_sorted_table() {
    let mut a = AddrTab7::<4>::new();
    a.write(0, &[0x00, 0x04, 0x00, 0x01, 0x00, 0x05, 0x08, 0x00, 0xFF, 0xFF]);
    assert_eq!(a.max_entries(), 4);
    assert_eq!(a.tsap(GroupAddress::from_raw(1)), Some(1));
    assert_eq!(a.tsap(GroupAddress::from_raw(5)), Some(2));
    assert_eq!(a.tsap(GroupAddress::from_raw(0x0800)), Some(3));
    assert_eq!(a.tsap(GroupAddress::from_raw(0xFFFF)), Some(4));
    assert_eq!(a.tsap(GroupAddress::from_raw(6)), None);
    assert_eq!(a.address(0), None);
    // Round trip on the sorted table.
    for t in 1..=4u16 {
        assert_eq!(a.tsap(a.address(t).unwrap()), Some(t));
    }
}

#[test]
fn asso6_sending_tsap_identity_and_first_match() {
    let mut ast = AssoTab6::<4>::new();
    assert_eq!(ast.sending_tsap(9), Some(9));
    ast.write(0, &[0, 2, 0, 7, 0, 3, 0, 8, 0, 3]);
    assert_eq!(ast.sending_tsap(3), Some(7));
    assert_eq!(ast.sending_tsap(4), None);
    assert_eq!(ast.tsap(2), 8);
    assert_eq!(ast.asap(2), 3);
}

#[test]
fn co7_set_flags_keeps_the_type_and_refuses_unlisted() {
    let mut ct = CoTab7::<4>::new();
    ct.write(0, &[0x00, 0x01, 0xDC, 0x0A]);
    assert!(ct.set_object_flags(1, ComObjectFlags::from_byte(0x44)));
    assert_eq!(ct.object_flags(1), Some(ComObjectFlags::from_byte(0x44)));
    assert_eq!(ct.object_type(1), Some(ComObjectType::Byte4));
    assert!(!ct.set_object_flags(2, ComObjectFlags::from_byte(0x44)));
    assert!(!ct.set_object_flags(0, ComObjectFlags::from_byte(0x44)));
    assert_eq!(ct.entry_count(), 1);
}

#[test]
fn descriptor_encoding() {
    let d = ComObjectDescriptor::from_u16(0xDC0A);
    assert_eq!(d.flags, ComObjectFlags::from_byte(0xDC));
    assert_eq!(d.object_type, ComObjectType::Byte4);
    assert_eq!(d.to_u16(), 0xDC0A);
}

#[test]
fn object_type_sizes() {
    assert_eq!(ComObjectType::Uint1.size_in_bytes(), (1, true));
    assert_eq!(ComObjectType::Uint6.size_in_bytes(), (1, true));
    assert_eq!(ComObjectType::Uint7.size_in_bytes(), (1, false));
    assert_eq!(ComObjectType::Byte1.size_in_bytes(), (1, false));
    assert_eq!(ComObjectType::Byte6.size_in_bytes(), (6, false));
    assert_eq!(ComObjectType::Byte14.size_in_bytes(), (14, false));
    assert_eq!(ComObjectType::Byte5.size_in_bytes(), (5, false));
    assert_eq!(ComObjectType::Byte15.size_in_bytes(), (15, false));
    assert_eq!(ComObjectType::Byte16.size_in_bytes(), (16, false));
    assert_eq!(ComObjectType::Byte248.size_in_bytes(), (248, false));
    assert_eq!(ComObjectType::Byte252.size_in_bytes(), (252, false));
    assert_eq!(u8::from(ComObjectType::Byte252), 255);
}

#[test]
fn flags_and_priority() {
    let d = ComObjectFlags::default();
    assert_eq!(d.to_byte(), 0xDF);
    assert_eq!(d.priority(), Priority::Low);
    assert!(d.contains(ComObjectFlags::CONFIG_RTWU));
    assert_eq!(ComObjectFlags::from_byte(0x4D).priority(), Priority::Normal);
    assert_eq!(ComObjectFlags::from_byte(0x4E).priority(), Priority::Urgent);
    assert!(ComObjectFlags::from_byte(0x20).read_on_init());
}

#[test]
fn com_object_status_flags() {
    assert_eq!(ComObjectStatus::IdleOk.to_flags_byte(), 0x40);
    assert_eq!(ComObjectStatus::Busy.to_flags_byte(), 0x02);
    assert_eq!(ComObjectStatus::ReadRequestError.to_flags_byte(), 0x45);
    assert_eq!(ComObjectStatus::from_flags_byte(0x4C), ComObjectStatus::ReadRequest);
    assert_eq!(ComObjectStatus::from_flags_byte(0x45), ComObjectStatus::ReadRequestError);
    assert_eq!(ComObjectStatus::from_flags_byte(0x48), ComObjectStatus::Updated);
    assert_eq!(ComObjectStatus::from_flags_byte(0x43), ComObjectStatus::WriteRequest);
    assert_eq!(ComObjectStatus::from_flags_byte(0x41), ComObjectStatus::IdleError);
    assert_eq!(ComObjectStatus::from_flags_byte(0x40), ComObjectStatus::IdleOk);
    for s in [
        ComObjectStatus::IdleOk,
        ComObjectStatus::IdleError,
        ComObjectStatus::WriteRequest,
        ComObjectStatus::ReadRequest,
        ComObjectStatus::ReadRequestError,
        ComObjectStatus::Updated,
    ] {
        assert_eq!(ComObjectStatus::from_flags_byte(s.to_flags_byte()), s);
    }
    assert!(!ComObjectStatus::Busy.is_idle());
    assert!(ComObjectStatus::Uninitialized.is_idle());
    assert_eq!(ComObjectStatus::default(), ComObjectStatus::Uninitialized);
}

#[test]
fn com_object_storage_and_typed_access() {
    let mut storage = ComObjectStorage::<3>::new();
    assert_eq!(storage.data(), &[0, 0, 0]);
    storage.data_mut()[1] = 7;
    assert_eq!(storage.data(), &[0, 7, 0]);

    let obj = ComObject::new(storage);
    assert_eq!(obj.status, ComObjectStatus::Uninitialized);

    let mut bytes = [0u8; 4];
    let mut status = ComObjectStatus::IdleOk;
    {
        let mut typed: TypedComObj<'_, ComObjectStorage<3>, 5> = TypedComObj::new(&mut bytes, &mut status);
        typed.set(obj.value);
        assert_eq!(typed.status(), ComObjectStatus::IdleOk);
        typed.set_status(ComObjectStatus::Updated);
        assert_eq!(TypedComObj::<ComObjectStorage<3>, 5>::index(), 5);
    }
    assert_eq!(bytes, [0, 7, 0, 0]);
    assert_eq!(status, ComObjectStatus::Updated);

    let mut wide = ComObjectStorage::<5>::new();
    wide.data_mut()[4] = 9;
    let mut narrow = ComObjectStorage::<2>::new();
    narrow.data_mut()[0] = 0x12;
    narrow.data_mut()[1] = 0x34;
    wide.write_typed(&narrow);
    assert_eq!(wide.data(), &[0x12, 0x34, 0, 0, 9]);
}

#[test]
fn property_buffers_and_results() {
    let b = PropertyBuf::<4>::new(&[1, 2, 3]);
    assert_eq!(b.as_slice(), &[1, 2, 3]);
    assert_eq!(b.len(), 3);
    assert!(!b.is_empty());
    let e = PropertyBuf::<4>::new(&[]);
    assert!(e.is_empty());
    assert_eq!(PropertyBuf::<4>::from_byte(9).as_slice(), &[9]);

    assert_eq!(WriteResponse::Echo.as_slice(), None);
    assert_eq!(WriteResponse::byte(2).as_slice(), Some(&[2u8][..]));
    assert_eq!(WriteResponse::data(&[1, 2]).as_slice(), Some(&[1u8, 2][..]));

    assert_eq!(FunctionPropertyResult::success().return_code, 0x00);
    assert_eq!(FunctionPropertyResult::not_supported().return_code, 0x02);
    assert_eq!(FunctionPropertyResult::access_denied().return_code, 0xFC);
    assert_eq!(FunctionPropertyResult::invalid_object_index().return_code, 0x05);
    let r = FunctionPropertyResult::success_with_data(&[4, 5]);
    assert_eq!(r.return_code, 0);
    assert_eq!(r.data.as_slice(), &[4, 5]);
}

#[test]
fn state_property_values() {
    assert_eq!(PdtUnsignedInt::to_bytes(&0x1234), vec![0x12, 0x34]);
    assert_eq!(PdtUnsignedInt::from_bytes(&[0x12, 0x34, 0x56]), Ok(0x1234));
    assert_eq!(PdtUnsignedInt::from_bytes(&[0x12]), Err(PropertyError::BufferTooSmall));
    assert_eq!(PdtUnsignedLong::to_bytes(&0xE000_170C), vec![0xE0, 0x00, 0x17, 0x0C]);
    assert_eq!(PdtUnsignedLong::from_bytes(&[0xE0, 0x00, 0x17, 0x0C]), Ok(0xE000_170C));
}

#[test]
fn addresses() {
    assert_eq!(GroupAddress::from_three_level(1, 2, 3).raw, 0x0A03);
    assert_eq!(GroupAddress::from_three_level(1, 2, 3).as_bytes(), [0x0A, 0x03]);
    assert_eq!(IndividualAddress::new(1, 1, 10).raw, 0x110A);
    assert_eq!(IndividualAddress::from_bytes(&[0x11, 0x0A]), IndividualAddress::new(1, 1, 10));
}

#[test]
fn usb_device_management_frames() {
    assert_eq!(prop_read_request(0x08, 0x34), [0xFC, 0x00, 0x08, 0x01, 0x34, 0x10, 0x01]);
    assert_eq!(prop_write_request(0x00, 0x39, &[0x11]), vec![0xF6, 0x00, 0x00, 0x01, 0x39, 0x10, 0x01, 0x11]);
    assert!(is_device_mgmt_response(&[0xFB, 0]));
    assert!(is_device_mgmt_response(&[0xF5]));
    assert!(!is_device_mgmt_response(&[0x29]));
    assert!(!is_device_mgmt_response(&[]));
    assert_eq!(
        property_value_payload(&[0xFB, 0, 0, 1, 0x38, 0x10, 0x01, 0x00, 0xF8]).unwrap(),
        vec![0x00, 0xF8]
    );
    assert!(matches!(property_value_payload(&[0xFB, 0, 0]), Err(UsbHidError::InvalidReport)));
    assert!(check_prop_write_response(&[0xF5]).is_ok());
    assert!(matches!(check_prop_write_response(&[]), Err(UsbHidError::WriteError(_))));
}

#[test]
fn usb_link_layer_configuration() {
    assert_eq!(individual_address_from(&[0x11], &[0x0A]).unwrap(), IndividualAddress::new(1, 1, 10));
    assert!(matches!(individual_address_from(&[], &[0x0A]), Err(UsbHidError::InvalidReport)));
    assert_eq!(individual_address_parts(IndividualAddress::new(1, 1, 10)), (0x11, 0x0A));
    assert_eq!(max_apdu_length_from(&[0x00, 0xF8]).unwrap(), 248);
    assert!(matches!(max_apdu_length_from(&[0x00]), Err(UsbHidError::InvalidReport)));
    assert_eq!(comm_mode_from(&[0x00]).unwrap(), 0x00);
    assert!(matches!(comm_mode_from(&[]), Err(UsbHidError::InvalidReport)));
    assert_eq!(max_apdu_length_or_default(Err(UsbHidError::Timeout)), DEFAULT_MAX_APDU_LENGTH);
    assert_eq!(max_apdu_length_or_default(Ok(55)), 55);
    let b = UsbLinkLayerBuilder::with_vid_pid(0x0E77, 0x0104).with_individual_address(IndividualAddress::new(1, 1, 250));
    assert!(matches!(b.selector, DeviceSelector::VidPid { vendor_id: 0x0E77, product_id: 0x0104 }));
    assert_eq!(b.individual_address, Some(IndividualAddress::new(1, 1, 250)));
    assert!(matches!(DeviceSelector::default(), DeviceSelector::AutoDiscover));
}

#[test]
fn sequence_numbers() {
    assert_eq!(u64_to_seq6(0x0102_0304_0506), [1, 2, 3, 4, 5, 6]);
    assert_eq!(seq6_to_u64(&[1, 2, 3, 4, 5, 6]), 0x0102_0304_0506);
    assert_eq!(check_receiving_seq(&u64_to_seq6(5), None), SeqVerdict::Accept);
    assert_eq!(check_receiving_seq(&u64_to_seq6(5), Some(u64_to_seq6(4))), SeqVerdict::Accept);
    assert_eq!(check_receiving_seq(&u64_to_seq6(5), Some(u64_to_seq6(5))), SeqVerdict::Retransmission);
    assert_eq!(check_receiving_seq(&u64_to_seq6(4), Some(u64_to_seq6(5))), SeqVerdict::Replay);
    assert_eq!(check_receiving_seq(&u64_to_seq6(0), None), SeqVerdict::Invalid);
}

#[test]
fn no_memory_map_refuses_everything() {
    let mut buf = [0u8; 2];
    assert_eq!(NoMemoryMap.read(&(), 0x4000, &mut buf), Err(MemoryError::NotAccessible));
    assert_eq!(NoMemoryMap.write(&(), 0x4000, &[1]), Err(MemoryError::NotAccessible));
}

#[test]
fn run_event_and_load_state_octets() {
    assert_eq!(u8::from(RunEvent::ReadyToRun), 5);
    assert_eq!(RunEvent::from(4u8), RunEvent::Unloaded);
    assert_eq!(LoadState::from_byte(3), Some(LoadState::Error));
    assert_eq!(LoadState::from_byte(4), None);
}

#[test]
fn single_octet_constructors_equal_the_general_ones() {
    assert_eq!(PropertyBuf::<8>::from_byte(7), PropertyBuf::<8>::new(&[7]));
    assert_eq!(WriteResponse::byte(0x42), WriteResponse::data(&[0x42]));
    assert_ne!(WriteResponse::byte(0x42), WriteResponse::data(&[0x42, 0]));
}
