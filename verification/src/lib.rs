//! KNX device-side object model: the load and run state machines of the
//! loadable resources (address, association, group object and application
//! tables), the byte layouts of those tables, communication object state,
//! interface object helpers and the secure sequence-number rule.

pub mod address;
pub mod layers;
pub mod lifecycle;
pub mod memory;
pub mod objects;
pub mod persist;
pub mod security;
