use zweidraehte_device::objects::interface::{
    pid, AccessPolicy, AddressTableObject, AssociationTableObject, GroupObjectTableObject, InterfaceObject,
    PropertyAccess, PropertyError, PropertyReadRequest, PropertyWriteRequest,
};
use zweidraehte_device::objects::tables::{AddrTab7, AddrTab7Impl, AssoTab6, CoTab7, LoadEvent, Table};

#[test]
fn test_address_table_object_type() {
    let mut addr_table = AddrTab7::<10>::new();
    let obj = AddressTableObject::new(&mut addr_table, 0x100);

    // the address table object type
    assert_eq!(obj.object_type(), 1);

    let mut buf = [0u8; 4];
    let len =
        obj.read_property(PropertyReadRequest { pid: pid::OBJECT_TYPE, start_idx: 1, count: 1 }, &mut buf).unwrap();
    assert_eq!(len, 2);
    assert_eq!(&buf[0..2], &[0x00, 0x01]);
}

#[test]
fn test_address_table_load_state() {
    let mut addr_table = AddrTab7::<10>::new();
    let mut obj = AddressTableObject::new(&mut addr_table, 0x100);

    let mut buf = [0u8; 4];
    let len = obj
        .read_property(PropertyReadRequest { pid: pid::LOAD_STATE_CONTROL, start_idx: 1, count: 1 }, &mut buf)
        .unwrap();
    assert_eq!(len, 1);
    assert_eq!(buf[0], 0x00);

    obj.write_property(PropertyWriteRequest {
        pid: pid::LOAD_STATE_CONTROL,
        start_idx: 1,
        data: &[LoadEvent::StartLoading.into()],
    })
    .unwrap();

    let len = obj
        .read_property(PropertyReadRequest { pid: pid::LOAD_STATE_CONTROL, start_idx: 1, count: 1 }, &mut buf)
        .unwrap();
    assert_eq!(len, 1);
    assert_eq!(buf[0], 0x02);
}

#[test]
fn test_address_table_table_property() {
    let mut addr_table = AddrTab7::<20>::new();
    addr_table.write(0, &[0x00, 0x03]);
    addr_table.write(2, &[0x00, 0x01]);
    addr_table.write(4, &[0x00, 0x02]);
    addr_table.write(6, &[0x00, 0x03]);

    let obj = AddressTableObject::new(&mut addr_table, 0x100);

    let mut buf = [0u8; 10];
    let len = obj.read_property(PropertyReadRequest { pid: pid::TABLE, start_idx: 0, count: 1 }, &mut buf).unwrap();
    assert_eq!(len, 2);
    assert_eq!(&buf[0..2], &[0x00, 0x03]);

    let len = obj.read_property(PropertyReadRequest { pid: pid::TABLE, start_idx: 1, count: 1 }, &mut buf).unwrap();
    assert_eq!(len, 2);
    assert_eq!(&buf[0..2], &[0x00, 0x01]);

    let len = obj.read_property(PropertyReadRequest { pid: pid::TABLE, start_idx: 1, count: 3 }, &mut buf).unwrap();
    assert_eq!(len, 6);
    assert_eq!(&buf[0..6], &[0x00, 0x01, 0x00, 0x02, 0x00, 0x03]);
}

#[test]
fn test_address_table_property_descriptors() {
    let mut addr_table = AddrTab7::<10>::new();
    let obj = AddressTableObject::new(&mut addr_table, 0x100);

    assert_eq!(obj.property_count(), 6);

    let desc = obj.property_descriptor_by_id(pid::OBJECT_TYPE).unwrap();
    assert_eq!(desc.1.pid, 1);
    assert_eq!(desc.1.access, PropertyAccess::ReadOnly);

    let desc = obj.property_descriptor_by_id(pid::LOAD_STATE_CONTROL).unwrap();
    assert_eq!(desc.1.pid, 5);
    assert_eq!(desc.1.access, PropertyAccess::ReadWrite);
    assert_eq!((desc.1.read_level, desc.1.write_level), (3, 1));
    assert_eq!(desc.1.policy, AccessPolicy::read_open_write_tool());

    let desc = obj.property_descriptor_by_id(pid::TABLE).unwrap();
    assert_eq!(desc.1.pid, 23);
    assert_eq!(desc.1.access, PropertyAccess::ReadWrite);
}

#[test]
fn test_association_table_object() {
    let mut asso_table = AssoTab6::<40>::new();
    asso_table.write(0, &[0x00, 0x02]);
    asso_table.write(2, &[0x00, 0x01, 0x00, 0x01]);
    asso_table.write(6, &[0x00, 0x02, 0x00, 0x02]);

    let obj = AssociationTableObject::new(&mut asso_table, 0x200);

    // the association table object type
    assert_eq!(obj.object_type(), 2);

    let mut buf = [0u8; 10];
    let len = obj.read_property(PropertyReadRequest { pid: pid::TABLE, start_idx: 0, count: 1 }, &mut buf).unwrap();
    assert_eq!(len, 2);
    assert_eq!(&buf[0..2], &[0x00, 0x02]);

    let len = obj.read_property(PropertyReadRequest { pid: pid::TABLE, start_idx: 1, count: 1 }, &mut buf).unwrap();
    assert_eq!(len, 4);
    assert_eq!(&buf[0..4], &[0x00, 0x01, 0x00, 0x01]);
}

#[test]
fn test_group_object_table_object() {
    let mut co_table = CoTab7::<20>::new();
    co_table.write(0, &[0x00, 0x02]);
    co_table.write(2, &[0x00, 0xDC]);
    co_table.write(4, &[0x08, 0x44]);

    let obj = GroupObjectTableObject::new(&mut co_table, 0x300);

    // the group object table object type
    assert_eq!(obj.object_type(), 9);

    let mut buf = [0u8; 10];
    let len = obj.read_property(PropertyReadRequest { pid: pid::TABLE, start_idx: 0, count: 1 }, &mut buf).unwrap();
    assert_eq!(len, 2);
    assert_eq!(&buf[0..2], &[0x00, 0x02]);

    let len = obj.read_property(PropertyReadRequest { pid: pid::TABLE, start_idx: 1, count: 1 }, &mut buf).unwrap();
    assert_eq!(len, 2);
    assert_eq!(&buf[0..2], &[0x00, 0xDC]);

    let len = obj.read_property(PropertyReadRequest { pid: pid::TABLE, start_idx: 1, count: 2 }, &mut buf).unwrap();
    assert_eq!(len, 4);
    assert_eq!(&buf[0..4], &[0x00, 0xDC, 0x08, 0x44]);
}

#[test]
fn test_table_object_write_protection() {
    let mut addr_table = AddrTab7::<10>::new();
    let mut obj = AddressTableObject::new(&mut addr_table, 0x100);

    let result =
        obj.write_property(PropertyWriteRequest { pid: pid::OBJECT_TYPE, start_idx: 1, data: &[0x00, 0x00] });
    assert!(matches!(result, Err(PropertyError::WriteNotAllowed)));

    let result = obj.write_property(PropertyWriteRequest {
        pid: pid::TABLE_REFERENCE,
        start_idx: 1,
        data: &[0x00, 0x00, 0x00, 0x00],
    });
    assert!(matches!(result, Err(PropertyError::WriteNotAllowed)));

    let result = obj.write_property(PropertyWriteRequest { pid: pid::MCB_TABLE, start_idx: 1, data: &[0x00; 8] });
    assert!(matches!(result, Err(PropertyError::WriteNotAllowed)));
}

#[test]
fn test_table_object_write_data() {
    let mut addr_table = AddrTab7::<20>::new();
    let mut obj = AddressTableObject::new(&mut addr_table, 0x100);

    obj.write_property(PropertyWriteRequest { pid: pid::TABLE, start_idx: 0, data: &[0x00, 0x02] }).unwrap();

    let mut buf = [0u8; 10];
    let len = obj.read_property(PropertyReadRequest { pid: pid::TABLE, start_idx: 0, count: 1 }, &mut buf).unwrap();
    assert_eq!(len, 2);
    assert_eq!(&buf[0..2], &[0x00, 0x02]);
}

#[test]
fn test_table_reference_after_load() {
    let mut addr_table = AddrTab7::<20>::new();
    let mut obj = AddressTableObject::new(&mut addr_table, 0x1234);

    let mut buf = [0u8; 10];
    let len = obj
        .read_property(PropertyReadRequest { pid: pid::TABLE_REFERENCE, start_idx: 1, count: 1 }, &mut buf)
        .unwrap();
    assert_eq!(len, 4);
    assert_eq!(&buf[0..4], &[0x00, 0x00, 0x00, 0x00]);

    obj.write_property(PropertyWriteRequest {
        pid: pid::LOAD_STATE_CONTROL,
        start_idx: 1,
        data: &[LoadEvent::StartLoading.into()],
    })
    .unwrap();

    let alloc_data = [
        LoadEvent::AdditionalLoadControls.into(),
        0x0B,
        0x00,
        0x00,
        0x00,
        0x08,
        0x01,
        0xFF,
        0x00,
        0x00,
    ];
    obj.write_property(PropertyWriteRequest { pid: pid::LOAD_STATE_CONTROL, start_idx: 1, data: &alloc_data })
        .unwrap();

    let len = obj
        .read_property(PropertyReadRequest { pid: pid::TABLE_REFERENCE, start_idx: 1, count: 1 }, &mut buf)
        .unwrap();
    assert_eq!(len, 4);
    assert_eq!(&buf[0..4], &[0x00, 0x00, 0x12, 0x34]);

    obj.write_property(PropertyWriteRequest {
        pid: pid::LOAD_STATE_CONTROL,
        start_idx: 1,
        data: &[LoadEvent::LoadCompleted.into()],
    })
    .unwrap();

    let len = obj
        .read_property(PropertyReadRequest { pid: pid::TABLE_REFERENCE, start_idx: 1, count: 1 }, &mut buf)
        .unwrap();
    assert_eq!(len, 4);
    assert_eq!(&buf[0..4], &[0x00, 0x00, 0x12, 0x34]);

    obj.write_property(PropertyWriteRequest {
        pid: pid::LOAD_STATE_CONTROL,
        start_idx: 1,
        data: &[LoadEvent::Unload.into()],
    })
    .unwrap();
    let len = obj
        .read_property(PropertyReadRequest { pid: pid::TABLE_REFERENCE, start_idx: 1, count: 1 }, &mut buf)
        .unwrap();
    assert_eq!(len, 4);
    assert_eq!(&buf[0..4], &[0x00, 0x00, 0x00, 0x00]);
}

#[test]
fn test_table_reference_with_preloaded_data() {
    let mut preloaded_table: Table<AddrTab7Impl<20>> = Table::with_data(&[0x00, 0x01, 0x10, 0x00], 0xABCD);
    let obj = AddressTableObject::new(&mut preloaded_table, 0x1234);

    let mut buf = [0u8; 10];
    let len = obj
        .read_property(PropertyReadRequest { pid: pid::TABLE_REFERENCE, start_idx: 1, count: 1 }, &mut buf)
        .unwrap();
    assert_eq!(len, 4);
    assert_eq!(&buf[0..4], &[0x00, 0x00, 0xAB, 0xCD]);
}

#[test]
fn test_table_object_reads_and_errors() {
    let mut addr_table = AddrTab7::<3>::new();
    addr_table.write(0, &[0x00, 0x05]);
    addr_table.write(2, &[0x11, 0x22, 0x33, 0x44, 0x55, 0x66]);
    let mut obj = AddressTableObject::new(&mut addr_table, 0);

    let mut buf = [0u8; 8];
    // the count says five, the memory holds three entries
    assert_eq!(obj.property_element_count(pid::TABLE), Ok(5));
    let len = obj.read_property(PropertyReadRequest { pid: pid::TABLE, start_idx: 2, count: 9 }, &mut buf).unwrap();
    assert_eq!(len, 4);
    assert_eq!(&buf[0..4], &[0x33, 0x44, 0x55, 0x66]);
    assert_eq!(
        obj.read_property(PropertyReadRequest { pid: pid::TABLE, start_idx: 4, count: 1 }, &mut buf),
        Err(PropertyError::InvalidStartIndex)
    );
    assert_eq!(
        obj.read_property(PropertyReadRequest { pid: pid::TABLE, start_idx: 1, count: 3 }, &mut [0u8; 5]),
        Err(PropertyError::BufferTooSmall)
    );
    assert_eq!(
        obj.read_property(PropertyReadRequest { pid: pid::OBJECT_TYPE, start_idx: 1, count: 2 }, &mut buf),
        Err(PropertyError::InvalidStartIndex)
    );
    assert_eq!(
        obj.read_property(PropertyReadRequest { pid: pid::ERROR_CODE, start_idx: 0, count: 1 }, &mut buf),
        Ok(2)
    );
    assert_eq!(&buf[0..2], &[0x00, 0x01]);
    assert_eq!(
        obj.read_property(PropertyReadRequest { pid: 99, start_idx: 1, count: 1 }, &mut buf),
        Err(PropertyError::InvalidPropertyId)
    );
    assert_eq!(obj.property_element_count(pid::MCB_TABLE), Ok(1));
    assert_eq!(obj.property_element_count(99), Err(PropertyError::InvalidPropertyId));

    // a write past the memory is cut at its end
    assert!(obj.write_property(PropertyWriteRequest { pid: pid::TABLE, start_idx: 3, data: &[0xAA, 0xBB, 0xCC] }).is_ok());
    assert_eq!(&obj.table.data_ref()[6..8], &[0xAA, 0xBB]);
    assert!(matches!(
        obj.write_property(PropertyWriteRequest { pid: pid::TABLE, start_idx: 4, data: &[0x01] }),
        Err(PropertyError::InvalidStartIndex)
    ));
    assert!(matches!(
        obj.write_property(PropertyWriteRequest { pid: pid::TABLE, start_idx: 0, data: &[0x01] }),
        Err(PropertyError::BufferTooSmall)
    ));
    assert!(matches!(
        obj.write_property(PropertyWriteRequest { pid: 99, start_idx: 1, data: &[0x01] }),
        Err(PropertyError::InvalidPropertyId)
    ));

    let desc = obj.property_descriptor_by_index(3).unwrap();
    assert_eq!(desc.max_elements, 4);
    assert_eq!(desc.pdt, 0x04);
    assert!(obj.property_descriptor_by_index(6).is_none());
    assert!(obj.property_descriptor_by_id(99).is_none());
}

#[test]
fn test_table_entries_write_then_read() {
    let mut addr_table = AddrTab7::<4>::new();
    let mut obj = AddressTableObject::new(&mut addr_table, 0);
    obj.write_property(PropertyWriteRequest { pid: pid::TABLE, start_idx: 0, data: &[0x00, 0x03] }).unwrap();
    obj.write_property(PropertyWriteRequest { pid: pid::TABLE, start_idx: 2, data: &[0x12, 0x34, 0x56, 0x78] })
        .unwrap();

    assert_eq!(obj.property_element_count(pid::TABLE), Ok(3));
    let mut buf = [0u8; 8];
    let len = obj.read_property(PropertyReadRequest { pid: pid::TABLE, start_idx: 2, count: 2 }, &mut buf).unwrap();
    assert_eq!(len, 4);
    assert_eq!(&buf[0..4], &[0x12, 0x34, 0x56, 0x78]);
}

#[test]
fn test_table_property_description() {
    let mut addr_table = AddrTab7::<10>::new();
    let obj = AddressTableObject::new(&mut addr_table, 0);

    let by_id = obj.property_description(1, pid::TABLE, 0).unwrap();
    assert_eq!(by_id.object_idx, 1);
    assert_eq!(by_id.prop_idx, 3);
    assert_eq!(by_id.descriptor.pid, pid::TABLE);
    assert_eq!(by_id.descriptor.max_elements, 11);

    let by_index = obj.property_description(1, 0, 5).unwrap();
    assert_eq!(by_index.prop_idx, 5);
    assert_eq!(by_index.descriptor.pid, pid::ERROR_CODE);

    assert_eq!(obj.property_description(1, 99, 0), Err(PropertyError::InvalidPropertyId));
    assert_eq!(obj.property_description(1, 0, 6), Err(PropertyError::InvalidPropertyIndex));
}
