//! Property IDs and object indexes of a USB KNX interface.

use vstd::prelude::*;

verus! {

/// Communication mode (00h data link layer, 01h bus monitor), on the cEMI
/// server object.
pub const PID_COMM_MODE: u8 = 0x34;

/// Maximum APDU length, on the device object.
pub const PID_MAX_APDU_LENGTH: u8 = 0x38;

/// Subnetwork address (area and line octet of the individual address), on
/// the device object.
pub const PID_SUBNET_ADDR: u8 = 0x39;

/// Device address (device octet of the individual address), on the device
/// object.
pub const PID_DEVICE_ADDR: u8 = 0x3A;

/// The cEMI server object.
pub const CEMI_SERVER_OBJECT: u8 = 0x08;

/// The device object.
pub const DEVICE_OBJECT: u8 = 0x00;

} // verus!
