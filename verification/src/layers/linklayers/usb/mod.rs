//! A KNX USB interface as link layer: the device management frames the
//! host sends to it, and the checks on what it answers.

pub mod comm_mode;
pub mod device;
pub mod link_layer;
pub mod properties;
pub mod transport;
