//! The rules of asynchronous input and output: event queues, executors, channels and sockets, apart
//! from the system calls that they make.
pub mod buffer;
pub mod endian;
pub mod error;
pub mod evqueue;
pub mod ipc;
pub mod local;
pub mod net;
pub mod poll;
pub mod queue;
pub mod socket;
pub mod text;
pub mod threadpool;
pub mod waker;
