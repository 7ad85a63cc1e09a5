use zweidraehte_device::objects::interface::{
    AccessPolicy, FullPropertyReadRequest, FullPropertyWriteRequest, FunctionPropertyRequest, FunctionPropertyResult,
    PropertyAccess, PropertyDescriptionResponse, PropertyDescriptor, PropertyError, PropertyServiceHandler,
    WriteResponse,
};

/// A container of objects of the given types; a value read answers with
/// the object index it reached.
struct Objects {
    types: Vec<u16>,
}

impl PropertyServiceHandler for Objects {
    fn object_types(&self) -> vstd::seq::Seq<u16> {
        panic!("only used in proofs")
    }

    fn description_outcome(
        &self,
        _object_idx: u16,
        _prop_id: u16,
        _prop_idx: u16,
        _r: Result<PropertyDescriptionResponse, PropertyError>,
    ) -> bool {
        panic!("only used in proofs")
    }

    fn value_read_outcome(
        &self,
        _req: FullPropertyReadRequest,
        _old_buf: vstd::seq::Seq<u8>,
        _r: Result<usize, PropertyError>,
        _new_buf: vstd::seq::Seq<u8>,
    ) -> bool {
        panic!("only used in proofs")
    }

    fn value_write_outcome(&self, _req: FullPropertyWriteRequest<'_>, _r: Result<WriteResponse, PropertyError>) -> bool {
        panic!("only used in proofs")
    }

    fn object_count(&self) -> u16 {
        self.types.len() as u16
    }

    fn object_type_at(&self, object_idx: u16) -> Option<u16> {
        self.types.get(object_idx as usize).copied()
    }

    fn property_description_read(
        &self,
        object_idx: u16,
        prop_id: u16,
        prop_idx: u16,
    ) -> Result<PropertyDescriptionResponse, PropertyError> {
        if (object_idx as usize) < self.types.len() {
            let descriptor = PropertyDescriptor::new(prop_id, 0x04, 1, PropertyAccess::ReadOnly, 3, 0, AccessPolicy::read_open_write_tool());
            Ok(PropertyDescriptionResponse::from_descriptor(object_idx, prop_idx, &descriptor))
        } else {
            Err(PropertyError::InvalidObjectIndex)
        }
    }

    fn property_value_read(&self, req: &FullPropertyReadRequest, buf: &mut [u8]) -> Result<usize, PropertyError> {
        if (req.object_idx as usize) < self.types.len() {
            buf[0] = req.object_idx as u8;
            Ok(1)
        } else {
            Err(PropertyError::InvalidObjectIndex)
        }
    }

    fn property_value_write(&self, _req: &FullPropertyWriteRequest) -> Result<WriteResponse, PropertyError> {
        Ok(WriteResponse::Echo)
    }
}

#[test]
fn resolve_object_index_counts_instances_from_one() {
    let objs = Objects { types: vec![0, 1, 2, 3, 9, 0x11, 9] };
    assert_eq!(objs.resolve_object_index(9, 1), Some(4));
    assert_eq!(objs.resolve_object_index(9, 2), Some(6));
    assert_eq!(objs.resolve_object_index(9, 3), None);
    assert_eq!(objs.resolve_object_index(9, 0), None);
    assert_eq!(objs.resolve_object_index(0x12, 1), None);
    assert_eq!(objs.resolve_ext_object_index(0, 1), Some(0));
}

#[test]
fn side_by_side_containers_offset_the_second() {
    let pair = (Objects { types: vec![0, 1, 9] }, Objects { types: vec![0x0B, 9] });
    assert_eq!(pair.object_count(), 5);
    assert_eq!(pair.object_type_at(2), Some(9));
    assert_eq!(pair.object_type_at(3), Some(0x0B));
    assert_eq!(pair.object_type_at(5), None);
    assert_eq!(pair.resolve_object_index(9, 2), Some(4));

    let mut buf = [0u8; 1];
    let req = FullPropertyReadRequest { object_idx: 3, pid: 1, start_idx: 1, count: 1 };
    assert_eq!(pair.property_value_read(&req, &mut buf), Ok(1));
    // the second container sees its own index
    assert_eq!(buf[0], 0);

    let f = FunctionPropertyRequest { object_idx: 4, prop_id: 0x34, service_data: &[] };
    assert_eq!(pair.function_property_command(&f).return_code, 0x02);

    // the description names the object by its index in the pair
    let d = pair.property_description_read(4, 1, 0).unwrap();
    assert_eq!(d.object_idx, 4);
    assert_eq!(pair.property_description_read(5, 1, 0), Err(PropertyError::InvalidObjectIndex));
}

#[test]
fn empty_container_has_no_objects() {
    let none = ();
    assert_eq!(none.object_count(), 0);
    assert_eq!(none.object_type_at(0), None);
    assert_eq!(none.resolve_object_index(0, 1), None);
    assert_eq!(none.property_description_read(0, 1, 0), Err(PropertyError::InvalidObjectIndex));
    let mut buf = [0u8; 2];
    let req = FullPropertyReadRequest { object_idx: 0, pid: 1, start_idx: 1, count: 1 };
    assert_eq!(none.property_value_read(&req, &mut buf), Err(PropertyError::InvalidObjectIndex));
    let w = FullPropertyWriteRequest { object_idx: 0, pid: 1, count: 1, start_idx: 1, data: &[1] };
    assert!(matches!(none.property_value_write(&w), Err(PropertyError::InvalidObjectIndex)));
    let f = FunctionPropertyRequest { object_idx: 0, prop_id: 1, service_data: &[] };
    let r: FunctionPropertyResult = none.function_property_state_read(&f);
    assert_eq!(r.return_code, 0x05);
    assert_eq!(req.with_object_idx(7).object_idx, 7);
    assert_eq!(req.property_request().pid, 1);
}
