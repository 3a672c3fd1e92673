//! What streams, channels and listeners over sockets have in common.
pub mod attempt;
pub mod control;
pub mod flags;
pub mod setup;
