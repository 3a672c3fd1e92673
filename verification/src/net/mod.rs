//! Connections over TCP.
pub mod address;
pub mod connect;
pub mod winsock;
