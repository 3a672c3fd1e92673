//! The event queue over `io_uring`.
pub mod features;
pub mod operation;
pub mod ring;
pub mod sys;
