pub mod comm;
pub mod interface;
pub mod tables;
