use zweidraehte_device::objects::tables::{
    CoTab7, ComObjectFlags, ComObjectType, CommunicationObjectTable, HasLoadStateMachine,
    LoadEvent, LoadState, Priority, System7ComObjectTable,
};

#[test]
fn co7_tab_alloc_load() {
    let mut ct = CoTab7::<10>::new();

    assert_eq!(ct.read_lsm(), [u8::from(LoadState::Unloaded)]);

    ct.write_lsm(&[LoadEvent::StartLoading.into()], None);
    assert_eq!(ct.read_lsm(), [u8::from(LoadState::Loading)]);

    ct.write_lsm(
        &[LoadEvent::AdditionalLoadControls.into(), 0x0B, 0x00, 0x00, 0x00, 0x08, 0x01, 0xff, 0x00, 0x00],
        None,
    );
    assert_eq!(ct.read_lsm(), [u8::from(LoadState::Loading)]);
    assert_eq!(&ct.data_ref()[0..8], &[0xff; 8]);

    ct.write(0, &[0x00, 0x03]);
    ct.write(2, &[0xDC, 0x00]);
    ct.write(4, &[0x44, 0x08]);
    ct.write(6, &[0x94, 0x0A]);

    assert_eq!(&ct.data_ref()[0..8], &[0x00, 0x03, 0xDC, 0x00, 0x44, 0x08, 0x94, 0x0A]);

    ct.write_lsm(&[LoadEvent::LoadCompleted.into()], None);
    assert_eq!(ct.read_lsm(), [u8::from(LoadState::Loaded)]);
}

#[test]
fn co7_object_access() {
    let mut ct = CoTab7::<10>::new();

    ct.write_lsm(&[LoadEvent::StartLoading.into()], None);
    ct.write_lsm(
        &[LoadEvent::AdditionalLoadControls.into(), 0x0B, 0x00, 0x00, 0x00, 0x08, 0x01, 0xff, 0x00, 0x00],
        None,
    );

    ct.write(0, &[0x00, 0x03]);
    ct.write(2, &[0xDC, 0x00]);
    ct.write(4, &[0x44, 0x08]);
    ct.write(6, &[0x94, 0x0A]);
    ct.write_lsm(&[LoadEvent::LoadCompleted.into()], None);

    let obj1 = ct.com_object(1).unwrap();
    assert_eq!(obj1.object_type, ComObjectType::Uint1);
    assert!(obj1.flags.communication_enable());
    assert!(obj1.flags.read_enable());
    assert!(obj1.flags.write_enable());
    assert!(obj1.flags.transmission_enable());
    assert!(obj1.flags.update_enable());

    let obj2 = ct.com_object(2).unwrap();
    assert_eq!(obj2.object_type, ComObjectType::Byte2);
    assert!(obj2.flags.communication_enable());
    assert!(!obj2.flags.read_enable());
    assert!(!obj2.flags.write_enable());
    assert!(obj2.flags.transmission_enable());
    assert!(!obj2.flags.update_enable());

    let obj3 = ct.com_object(3).unwrap();
    assert_eq!(obj3.object_type, ComObjectType::Byte4);
    assert!(obj3.flags.communication_enable());
    assert!(!obj3.flags.read_enable());
    assert!(obj3.flags.write_enable());
    assert!(!obj3.flags.transmission_enable());
    assert!(obj3.flags.update_enable());

    assert!(ct.com_object(0).is_none());
    assert!(ct.com_object(4).is_none());
}

#[test]
fn co7_object_modification() {
    let mut ct = CoTab7::<10>::new();

    ct.write_lsm(&[LoadEvent::StartLoading.into()], None);
    ct.write_lsm(
        &[LoadEvent::AdditionalLoadControls.into(), 0x0B, 0x00, 0x00, 0x00, 0x04, 0x01, 0xff, 0x00, 0x00],
        None,
    );

    ct.write(0, &[0x00, 0x01]);
    ct.write(2, &[0xDC, 0x00]);
    ct.write_lsm(&[LoadEvent::LoadCompleted.into()], None);

    let stored = ct.com_object(1).unwrap();
    assert_eq!(stored.object_type, ComObjectType::Uint1);

    let mut new_obj = stored;
    new_obj.object_type = ComObjectType::Byte2;
    new_obj.flags = ComObjectFlags::from_byte(ComObjectFlags::CONFIG_T);

    let test_flags = ComObjectFlags::from_byte(ComObjectFlags::CONFIG_T);

    assert_eq!(new_obj.object_type, ComObjectType::Byte2);
    assert!(test_flags.communication_enable());
    assert!(!test_flags.read_enable());
    assert!(!test_flags.write_enable());
    assert!(test_flags.transmission_enable());

    assert!(!ct.read_on_init(1));

    let with_read_on_init = ComObjectFlags::from_byte(ComObjectFlags::CONFIG_T | ComObjectFlags::ROI_FLAG_MASK);

    assert!(ct.set_object_flags(1, with_read_on_init));
    assert!(ct.read_on_init(1));
}

#[test]
fn co7_object_properties() {
    let mut ct = CoTab7::<10>::new();

    ct.write_lsm(&[LoadEvent::StartLoading.into()], None);
    ct.write_lsm(
        &[LoadEvent::AdditionalLoadControls.into(), 0x0B, 0x00, 0x00, 0x00, 0x0A, 0x01, 0xff, 0x00, 0x00],
        None,
    );

    ct.write(0, &[0x00, 0x04]);
    ct.write(2, &[0xDC, 0x00]);
    ct.write(4, &[0x44, 0x08]);
    ct.write(6, &[0x94, 0x0A]);
    ct.write(8, &[0x4C, 0x07]);
    ct.write_lsm(&[LoadEvent::LoadCompleted.into()], None);

    let obj1 = ct.com_object(1).unwrap();
    assert!(obj1.flags.contains(ComObjectFlags::CE_FLAG_MASK));
    assert!(obj1.flags.contains(ComObjectFlags::TE_FLAG_MASK));
    assert!(obj1.flags.contains(ComObjectFlags::WE_FLAG_MASK));

    let obj2 = ct.com_object(2).unwrap();
    assert!(obj2.flags.contains(ComObjectFlags::CONFIG_T));
    assert!(!obj2.flags.contains(ComObjectFlags::WE_FLAG_MASK));

    let obj3 = ct.com_object(3).unwrap();
    assert!(obj3.flags.contains(ComObjectFlags::CONFIG_WU));
    assert!(!obj3.flags.contains(ComObjectFlags::TE_FLAG_MASK));

    let obj4 = ct.com_object(4).unwrap();
    assert!(obj4.flags.contains(ComObjectFlags::CONFIG_RT));

    assert_eq!(obj1.flags.priority(), Priority::System);

    assert!(ct.com_object(5).is_none());
}

const ETS_BLOB: [u8; 31] = [
    0x07, 0x00, 0x00, // count, RAM-flags ptr
    0x00, 0x00, 0x00, 0x00, // ASAP 0 (unused)
    0x00, 0x00, 0x47, 0x00, // ASAP 1
    0x00, 0x00, 0xD7, 0x00, // ASAP 2
    0x00, 0x00, 0x47, 0x03, // ASAP 3
    0x00, 0x00, 0x43, 0x00, // ASAP 4
    0x00, 0x00, 0xD3, 0x00, // ASAP 5
    0x00, 0x00, 0x00, 0x00, // ASAP 6
];

#[test]
fn system7_parses_the_ets_blob() {
    let mut cot = System7ComObjectTable::<6>::new();
    cot.write(0, &ETS_BLOB);

    assert_eq!(cot.entry_count(), 7);
    assert_eq!(cot.object_flags(1), Some(ComObjectFlags::from_byte(0x47)));
    assert_eq!(cot.object_flags(2), Some(ComObjectFlags::from_byte(0xD7)));
    assert_eq!(cot.object_type(3), Some(ComObjectType::Uint4));
    assert_eq!(cot.object_flags(5), Some(ComObjectFlags::from_byte(0xD3)));
    assert_eq!(cot.object_type(1), Some(ComObjectType::Uint1));
    assert_eq!(cot.object_flags(7), None, "past the stored count");
}

#[test]
fn system7_set_object_flags_round_trips() {
    let mut cot = System7ComObjectTable::<6>::new();
    cot.write(0, &ETS_BLOB);

    assert!(cot.set_object_flags(1, ComObjectFlags::from_byte(0x5F)));
    assert_eq!(cot.object_flags(1), Some(ComObjectFlags::from_byte(0x5F)));
    assert_eq!(cot.object_type(1), Some(ComObjectType::Uint1));
    assert!(!cot.set_object_flags(7, ComObjectFlags::from_byte(0)), "past the stored count");
}

#[test]
fn system7_count_is_clamped() {
    let mut cot = System7ComObjectTable::<6>::new();
    cot.write(0, &[0xFF]);
    assert_eq!(cot.entry_count(), 7);
    assert_eq!(cot.object_flags(7), None);
}
