//! Event queues.
pub mod armed;
pub mod epoll;
pub mod flag;
pub mod flag_subscription;
pub mod iocp;
pub mod kqueue;
pub mod segment;
pub mod state;
pub mod subscription;
pub mod unix;
pub mod wait;
