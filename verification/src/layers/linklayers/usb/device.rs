//! Errors of a USB HID interface, and how one is selected.

use vstd::prelude::*;

verus! {

/// Size of a KNX USB HID report in octets.
pub const MAX_REPORT_SIZE: usize = 64;

/// Error of a USB HID operation.
#[derive(Debug)]
pub enum UsbHidError {
    /// Device not found.
    NotFound,
    /// Failed to open the device.
    OpenFailed(String),
    /// Read error.
    ReadError(String),
    /// Write error.
    WriteError(String),
    /// Device disconnected.
    Disconnected,
    /// Invalid report received.
    InvalidReport,
    /// Timeout.
    Timeout,
}

/// How a KNX USB interface is selected.
#[derive(Debug, Clone)]
pub enum DeviceSelector {
    /// The first known KNX USB interface found.
    AutoDiscover,
    /// By vendor and product ID.
    VidPid { vendor_id: u16, product_id: u16 },
    /// By (platform-specific) device path.
    Path(String),
}

impl Default for DeviceSelector {
    fn default() -> (r: DeviceSelector)
        ensures
            r is AutoDiscover,
    {
        DeviceSelector::AutoDiscover
    }
}

} // verus!
