//! Streams and channels between processes.
pub mod mach;
pub mod pipe;
