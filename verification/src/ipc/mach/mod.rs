//! Channels over mach ports.
pub mod channel;
pub mod frame;
pub mod message;
pub mod port;
