//! The event queue over `epoll`.
pub mod filter;
pub mod registration;
pub mod turn;
pub mod user_event;
