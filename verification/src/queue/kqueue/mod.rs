//! The event queue over `kqueue`.
pub mod change;
pub mod filter;
pub mod mach;
pub mod registered;
pub mod registration;
pub mod turn;
