pub mod linklayers;
pub mod network;
pub mod secure_application;
pub mod transport;
