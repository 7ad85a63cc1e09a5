//! Communication modes of the cEMI server object.

use vstd::prelude::*;

verus! {

/// Data link layer mode (normal operation).
pub const DATA_LINK_LAYER: u8 = 0x00;

/// Bus monitor mode.
pub const BUS_MONITOR: u8 = 0x01;

} // verus!
