//! Device management frames to a USB interface (`M_PropRead` and
//! `M_PropWrite`) and the checks on its confirmations.

use vstd::prelude::*;

use super::device::UsbHidError;

verus! {

/// `M_PropRead.req`.
pub const M_PROP_READ_REQ: u8 = 0xFC;

/// `M_PropRead.con`.
pub const M_PROP_READ_CON: u8 = 0xFB;

/// `M_PropWrite.req`.
pub const M_PROP_WRITE_REQ: u8 = 0xF6;

/// `M_PropWrite.con`.
pub const M_PROP_WRITE_CON: u8 = 0xF5;

/// Length of the device management header: message code, object type
/// (two octets), object instance, property ID, element count and start
/// index (two octets).
pub const DEVICE_MGMT_HEADER_LEN: usize = 7;

/// The header of a device management request for one element, from index 1,
/// of property `property_id` of the first object of type `object_type`.
pub open spec fn mgmt_header(code: u8, object_type: u8, property_id: u8) -> Seq<u8> {
    seq![code, 0x00, object_type, 0x01, property_id, 0x10, 0x01]
}

/// The `M_PropRead.req` frame reading property `property_id` of the first
/// object of type `object_type`.
pub fn prop_read_request(object_type: u8, property_id: u8) -> (r: [u8; 7])
    ensures
        r@ == mgmt_header(0xFC, object_type, property_id),
{
    let r = [0xFC, 0x00, object_type, 0x01, property_id, 0x10, 0x01];
    assert(r@ =~= mgmt_header(0xFC, object_type, property_id));
    r
}

/// The `M_PropWrite.req` frame writing `data` to property `property_id` of
/// the first object of type `object_type`.
pub fn prop_write_request(object_type: u8, property_id: u8, data: &[u8]) -> (r: Vec<u8>)
    ensures
        r@ == mgmt_header(0xF6, object_type, property_id) + data@,
{
    let mut r: Vec<u8> = Vec::new();
    r.push(0xF6);
    r.push(0x00);
    r.push(object_type);
    r.push(0x01);
    r.push(property_id);
    r.push(0x10);
    r.push(0x01);
    let n = data.len();
    let mut i: usize = 0;
    while i < n
        invariant
            i <= n,
            n == data@.len(),
            r@ == mgmt_header(0xF6, object_type, property_id) + data@.take(i as int),
        decreases n - i,
    {
        r.push(data[i]);
        i = i + 1;
        assert(r@ =~= mgmt_header(0xF6, object_type, property_id) + data@.take(i as int));
    }
    assert(data@.take(n as int) =~= data@);
    r
}

/// Whether a cEMI frame body is a device management confirmation
/// (`M_PropRead.con` or `M_PropWrite.con`).
pub fn is_device_mgmt_response(body: &[u8]) -> (r: bool)
    ensures
        r == (body@.len() > 0 && (body@[0] == 0xFB || body@[0] == 0xF5)),
{
    body.len() > 0 && (body[0] == 0xFB || body[0] == 0xF5)
}

/// The data of a property read confirmation: what follows the header. A
/// confirmation shorter than the header is an invalid report.
pub fn property_value_payload(response: &[u8]) -> (r: Result<Vec<u8>, UsbHidError>)
    ensures
        response@.len() < 7 ==> r matches Err(UsbHidError::InvalidReport),
        response@.len() >= 7 ==> (r matches Ok(v) && v@ == response@.skip(7)),
{
    if response.len() < DEVICE_MGMT_HEADER_LEN {
        return Err(UsbHidError::InvalidReport);
    }
    let mut out: Vec<u8> = Vec::new();
    let n = response.len();
    let mut i: usize = 7;
    while i < n
        invariant
            7 <= i <= n,
            n == response@.len(),
            out@ == response@.subrange(7, i as int),
        decreases n - i,
    {
        out.push(response[i]);
        i = i + 1;
        assert(out@ =~= response@.subrange(7, i as int));
    }
    assert(response@.skip(7) =~= response@.subrange(7, n as int));
    Ok(out)
}

/// Whether a property write was confirmed: an empty confirmation is a
/// write error.
pub fn check_prop_write_response(response: &[u8]) -> (r: Result<(), UsbHidError>)
    ensures
        r is Ok <==> response@.len() > 0,
        response@.len() == 0 ==> r matches Err(UsbHidError::WriteError(_)),
{
    if response.len() == 0 {
        return Err(UsbHidError::WriteError("Empty response".to_owned()));
    }
    Ok(())
}

} // verus!
