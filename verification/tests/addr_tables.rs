use zweidraehte_device::address::{GroupAddress, IndividualAddress};
use zweidraehte_device::objects::tables::{
    AddrTab7, AddrTab8, AddressTable, HasLoadStateMachine, LoadEvent, LoadState,
};

#[test]
fn addr7_tab_alloc_load() {
    let mut a = AddrTab7::<10>::new();

    assert_eq!(a.read_lsm(), [LoadState::Unloaded.into()]);

    a.write_lsm(&[LoadEvent::StartLoading.into()], None);
    assert_eq!(a.read_lsm(), [LoadState::Loading.into()]);

    a.write_lsm(
        &[LoadEvent::AdditionalLoadControls.into(), 0x0B, 0x00, 0x00, 0x00, 0x06, 0x01, 0xff, 0x00, 0x00],
        None,
    );
    assert_eq!(a.read_lsm(), [LoadState::Loading.into()]);
    assert_eq!(&a.data_ref()[0..6], &[0xff; 6]);
    assert_eq!(a.mcb_bytes(), [0x00, 0x00, 0x00, 0x06, 0x00, 0xFF, 0xFF, 0xFF]);

    a.write(0, &[0x00, 0x02]);
    a.write(2, &GroupAddress::from_three_level(0, 0, 1).as_bytes());
    a.write(4, &GroupAddress::from_three_level(0, 0, 2).as_bytes());
    assert_eq!(&a.data_ref()[0..6], &[0x00, 0x02, 0x00, 0x01, 0x00, 0x02]);

    a.write_lsm(&[LoadEvent::LoadCompleted.into()], None);
    assert_eq!(a.read_lsm(), [LoadState::Loaded.into()]);
    assert_eq!(a.mcb_bytes(), [0x00, 0x00, 0x00, 0x06, 0x00, 0xFF, 0x62, 0xCF]);
}

fn loaded_table() -> AddrTab8<10> {
    let mut a = AddrTab8::<10>::new();

    a.write_lsm(&[LoadEvent::StartLoading.into()], None);
    a.write_lsm(
        &[LoadEvent::AdditionalLoadControls.into(), 0x00, 0x40, 0x00, 0x00, 0x17, 0xFF, 0x03, 0x80, 0x00],
        None,
    );

    a.write(0, &[3]);
    a.write(1, &[0x10, 0x01]);
    a.write(3, &GroupAddress::from_three_level(0, 0, 1).as_bytes());
    a.write(5, &GroupAddress::from_three_level(0, 0, 2).as_bytes());
    a.write(7, &GroupAddress::from_three_level(0, 0, 4).as_bytes());

    a.write_lsm(&[LoadEvent::LoadCompleted.into()], None);
    assert_eq!(a.read_lsm(), [u8::from(LoadState::Loaded)]);
    assert_eq!(a.table_reference(), 0x4000);
    a
}

#[test]
fn addr8_lookup_by_tsap() {
    let a = loaded_table();
    assert_eq!(a.entry_count(), 3);
    assert_eq!(a.address(1), Some(GroupAddress::from_three_level(0, 0, 1)));
    assert_eq!(a.address(3), Some(GroupAddress::from_three_level(0, 0, 4)));
    assert_eq!(a.address(0), None);
    assert_eq!(a.address(4), None);
}

#[test]
fn addr8_tsap_by_address() {
    let a = loaded_table();
    assert_eq!(a.tsap(GroupAddress::from_three_level(0, 0, 1)), Some(1));
    assert_eq!(a.tsap(GroupAddress::from_three_level(0, 0, 2)), Some(2));
    assert_eq!(a.tsap(GroupAddress::from_three_level(0, 0, 4)), Some(3));
    assert!(!a.contains(GroupAddress::from_three_level(0, 0, 3)));
}

#[test]
fn addr8_empty_table_matches_nothing() {
    let a = AddrTab8::<10>::new();
    assert_eq!(a.entry_count(), 0);
    assert_eq!(a.address(1), None);
    assert!(!a.contains(GroupAddress::from_three_level(0, 0, 1)));
}

#[test]
fn addr8_length_byte_is_clamped() {
    let mut a = AddrTab8::<10>::new();
    a.write(0, &[0xFF]);
    assert_eq!(a.entry_count(), 10);
    assert_eq!(a.address(10), Some(GroupAddress::from_bytes(&[0, 0])));
    assert_eq!(a.address(11), None);
}

#[test]
fn addr8_unload_preserves_individual_address() {
    let mut a = loaded_table();
    assert_eq!(a.individual_address(), IndividualAddress::from_bytes(&[0x10, 0x01]));

    a.write_lsm(&[LoadEvent::Unload.into()], None);

    assert_eq!(a.read_lsm(), [u8::from(LoadState::Unloaded)]);
    assert_eq!(a.entry_count(), 0, "count byte cleared");
    assert!(a.data_ref()[3..].iter().all(|&b| b == 0), "group addresses cleared");
    assert_eq!(a.individual_address(), IndividualAddress::from_bytes(&[0x10, 0x01]), "IA slot survives");
}

#[test]
fn addr8_individual_address_slot_is_shared() {
    let mut a = loaded_table();
    assert_eq!(a.individual_address(), IndividualAddress::from_bytes(&[0x10, 0x01]));

    a.set_individual_address(IndividualAddress::new(1, 1, 10));
    assert_eq!(&a.data_ref()[1..3], &IndividualAddress::new(1, 1, 10).as_bytes()[..]);

    a.write(1, &[0x11, 0x05]);
    assert_eq!(a.individual_address(), IndividualAddress::from_bytes(&[0x11, 0x05]));
}
