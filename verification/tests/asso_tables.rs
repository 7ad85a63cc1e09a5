use zweidraehte_device::objects::tables::{
    AssoTab6, AssoTab8, AssociationTable, HasLoadStateMachine, LoadEvent, LoadState,
};

#[test]
fn asso6_tab_alloc_load() {
    let mut ast = AssoTab6::<10>::new();

    assert_eq!(ast.read_lsm(), [LoadState::Unloaded.into()]);

    ast.write_lsm(&[LoadEvent::StartLoading.into()], None);
    assert_eq!(ast.read_lsm(), [LoadState::Loading.into()]);

    ast.write_lsm(
        &[LoadEvent::AdditionalLoadControls.into(), 0x0B, 0x00, 0x00, 0x00, 0x08, 0x01, 0xff, 0x00, 0x00],
        None,
    );
    assert_eq!(ast.read_lsm(), [LoadState::Loading.into()]);
    assert_eq!(&ast.data_ref()[0..8], &[0xff; 8]);

    ast.write(0, &[0x00, 0x02]);
    ast.write(2, &[0x00, 0x01]);
    ast.write(4, &[0x00, 0x02]);
    ast.write(6, &[0x00, 0x03]);
    ast.write(8, &[0x00, 0x04]);

    assert_eq!(&ast.data_ref()[0..10], &[0x00, 0x02, 0x00, 0x01, 0x00, 0x02, 0x00, 0x03, 0x00, 0x04]);

    ast.write_lsm(&[LoadEvent::LoadCompleted.into()], None);
    assert_eq!(ast.read_lsm(), [LoadState::Loaded.into()]);
}

#[test]
fn asso6_empty_table() {
    let mut ast = AssoTab6::<10>::new();

    ast.write_lsm(&[LoadEvent::StartLoading.into()], None);
    ast.write_lsm(
        &[LoadEvent::AdditionalLoadControls.into(), 0x0B, 0x00, 0x00, 0x00, 0x02, 0x01, 0xff, 0x00, 0x00],
        None,
    );
    ast.write(0, &[0x00, 0x00]);
    ast.write_lsm(&[LoadEvent::LoadCompleted.into()], None);

    assert_eq!(ast.entry_count(), 0);
    assert!(ast.is_empty());

    let mut idx = 0;
    assert_eq!(ast.find_next_asap(5, &mut idx), Some((5, 1)));
    assert_eq!(idx, 1);
    assert_eq!(ast.find_next_asap(5, &mut idx), None);

    idx = 0;
    assert_eq!(ast.find_next_tsap(7, &mut idx), Some((7, 1)));
    assert_eq!(idx, 1);
    assert_eq!(ast.find_next_tsap(7, &mut idx), None);

    assert_eq!(ast.tsaps_for_asap(10).first().copied(), Some(10));

    assert_eq!(ast.tsaps_for_asap(12), vec![12]);
    assert_eq!(ast.asaps_for_tsap(9), vec![9]);
}

#[test]
fn asso6_find_next_asap() {
    let mut ast = AssoTab6::<20>::new();

    ast.write_lsm(&[LoadEvent::StartLoading.into()], None);
    ast.write_lsm(
        &[LoadEvent::AdditionalLoadControls.into(), 0x0B, 0x00, 0x00, 0x00, 0x10, 0x01, 0xff, 0x00, 0x00],
        None,
    );
    ast.write(0, &[0x00, 0x04]);
    ast.write(2, &[0x00, 0x01]);
    ast.write(4, &[0x00, 0x02]);
    ast.write(6, &[0x00, 0x03]);
    ast.write(8, &[0x00, 0x04]);
    ast.write(10, &[0x00, 0x05]);
    ast.write(12, &[0x00, 0x06]);
    ast.write(14, &[0x00, 0x05]);
    ast.write(16, &[0x00, 0x07]);
    ast.write_lsm(&[LoadEvent::LoadCompleted.into()], None);

    let mut idx = 0;
    assert_eq!(ast.find_next_asap(5, &mut idx), Some((6, 3)));
    assert_eq!(ast.find_next_asap(5, &mut idx), Some((7, 4)));
    assert_eq!(ast.find_next_asap(5, &mut idx), None);

    idx = 0;
    assert_eq!(ast.find_next_asap(1, &mut idx), Some((2, 1)));
    assert_eq!(ast.find_next_asap(1, &mut idx), None);

    idx = 0;
    assert_eq!(ast.find_next_asap(9, &mut idx), None);
}

#[test]
fn asso6_find_next_tsap() {
    let mut ast = AssoTab6::<20>::new();

    ast.write_lsm(&[LoadEvent::StartLoading.into()], None);
    ast.write_lsm(
        &[LoadEvent::AdditionalLoadControls.into(), 0x0B, 0x00, 0x00, 0x00, 0x10, 0x01, 0xff, 0x00, 0x00],
        None,
    );
    ast.write(0, &[0x00, 0x04]);
    ast.write(2, &[0x00, 0x02]);
    ast.write(4, &[0x00, 0x02]);
    ast.write(6, &[0x00, 0x04]);
    ast.write(8, &[0x00, 0x04]);
    ast.write(10, &[0x00, 0x06]);
    ast.write(12, &[0x00, 0x06]);
    ast.write(14, &[0x00, 0x07]);
    ast.write(16, &[0x00, 0x06]);
    ast.write_lsm(&[LoadEvent::LoadCompleted.into()], None);

    let mut idx = 0;
    assert_eq!(ast.find_next_tsap(6, &mut idx), Some((6, 3)));
    assert_eq!(ast.find_next_tsap(6, &mut idx), Some((7, 4)));
    assert_eq!(ast.find_next_tsap(6, &mut idx), None);

    idx = 0;
    assert_eq!(ast.find_next_tsap(2, &mut idx), Some((2, 1)));
    assert_eq!(ast.find_next_tsap(2, &mut idx), None);

    idx = 0;
    assert_eq!(ast.find_next_tsap(9, &mut idx), None);
}

#[test]
fn asso6_tsaps_for_asap() {
    let mut ast = AssoTab6::<20>::new();

    ast.write_lsm(&[LoadEvent::StartLoading.into()], None);
    ast.write_lsm(
        &[LoadEvent::AdditionalLoadControls.into(), 0x0B, 0x00, 0x00, 0x00, 0x10, 0x01, 0xff, 0x00, 0x00],
        None,
    );
    ast.write(0, &[0x00, 0x04]);
    ast.write(2, &[0x00, 0x02]);
    ast.write(4, &[0x00, 0x02]);
    ast.write(6, &[0x00, 0x04]);
    ast.write(8, &[0x00, 0x04]);
    ast.write(10, &[0x00, 0x06]);
    ast.write(12, &[0x00, 0x06]);
    ast.write(14, &[0x00, 0x07]);
    ast.write(16, &[0x00, 0x06]);
    ast.write_lsm(&[LoadEvent::LoadCompleted.into()], None);

    assert_eq!(ast.tsaps_for_asap(2).first().copied(), Some(2));
    assert_eq!(ast.tsaps_for_asap(4).first().copied(), Some(4));
    assert_eq!(ast.tsaps_for_asap(6).first().copied(), Some(6));

    assert_eq!(ast.tsaps_for_asap(10).first().copied(), None);
}

#[test]
fn asso6_iterators() {
    let mut ast = AssoTab6::<20>::new();

    ast.write_lsm(&[LoadEvent::StartLoading.into()], None);
    ast.write_lsm(
        &[LoadEvent::AdditionalLoadControls.into(), 0x0B, 0x00, 0x00, 0x00, 0x14, 0x01, 0xff, 0x00, 0x00],
        None,
    );
    ast.write(0, &[0x00, 0x06]);
    ast.write(2, &[0x00, 0x01]);
    ast.write(4, &[0x00, 0x0B]);
    ast.write(6, &[0x00, 0x01]);
    ast.write(8, &[0x00, 0x0C]);
    ast.write(10, &[0x00, 0x02]);
    ast.write(12, &[0x00, 0x15]);
    ast.write(14, &[0x00, 0x03]);
    ast.write(16, &[0x00, 0x1F]);
    ast.write(18, &[0x00, 0x03]);
    ast.write(20, &[0x00, 0x20]);
    ast.write(22, &[0x00, 0x03]);
    ast.write(24, &[0x00, 0x21]);
    ast.write_lsm(&[LoadEvent::LoadCompleted.into()], None);

    let asaps: Vec<u16> = ast.asaps_for_tsap(1);
    assert_eq!(asaps, vec![11, 12]);

    let asaps: Vec<u16> = ast.asaps_for_tsap(2);
    assert_eq!(asaps, vec![21]);

    let asaps: Vec<u16> = ast.asaps_for_tsap(3);
    assert_eq!(asaps, vec![31, 32, 33]);

    let asaps: Vec<u16> = ast.asaps_for_tsap(4);
    assert_eq!(asaps, Vec::<u16>::new());

    assert_eq!(ast.tsaps_for_asap(11), vec![1]);
    assert_eq!(ast.tsaps_for_asap(21), vec![2]);
    assert_eq!(ast.tsaps_for_asap(31), vec![3]);

    assert_eq!(ast.tsaps_for_asap(40), Vec::<u16>::new());
}

fn loaded_asso8() -> AssoTab8<10> {
    let mut ast = AssoTab8::<10>::new();

    ast.write_lsm(&[LoadEvent::StartLoading.into()], None);
    ast.write_lsm(
        &[LoadEvent::AdditionalLoadControls.into(), 0x00, 0x41, 0x00, 0x00, 0x07, 0xFF, 0x03, 0x80, 0x00],
        None,
    );

    ast.write(0, &[3]);
    ast.write(1, &[1, 1]);
    ast.write(3, &[1, 3]);
    ast.write(5, &[2, 2]);

    ast.write_lsm(&[LoadEvent::LoadCompleted.into()], None);
    assert_eq!(ast.read_lsm(), [u8::from(LoadState::Loaded)]);
    assert_eq!(ast.table_reference(), 0x4100);
    ast
}

#[test]
fn asso8_sending_tsap() {
    let ast = loaded_asso8();
    assert_eq!(ast.sending_tsap(1), Some(1));
    assert_eq!(ast.sending_tsap(2), Some(2));
    assert_eq!(ast.sending_tsap(3), Some(1));
    assert_eq!(ast.sending_tsap(4), None);
}

#[test]
fn asso8_multi_asap_per_tsap_iteration() {
    let ast = loaded_asso8();
    let asaps: Vec<u16> = ast.asaps_for_tsap(1);
    assert_eq!(&asaps[..], &[1, 3]);

    let tsaps: Vec<u16> = ast.tsaps_for_asap(2);
    assert_eq!(&tsaps[..], &[2]);

    assert_eq!(ast.asaps_for_tsap(9).len(), 0);
}

#[test]
fn asso8_empty_table_has_no_mapping() {
    let ast = AssoTab8::<10>::new();
    assert_eq!(ast.entry_count(), 0);
    assert_eq!(ast.sending_tsap(5), None);
    let tsaps: Vec<u16> = ast.tsaps_for_asap(7);
    assert!(tsaps.is_empty());
}

#[test]
fn asso8_count_byte_is_clamped() {
    let mut ast = AssoTab8::<10>::new();
    ast.write(0, &[0xFF]);
    assert_eq!(ast.entry_count(), 10);
    assert_eq!(ast.tsap(10), Some(0));
    assert_eq!(ast.tsap(11), None);
}
