//! Launch-session supervision for a game-client launcher.
//!
//! The crate resolves account credentials into launch parameters, guards the
//! single session slot, issues the cancellation signal of a running launch and
//! turns process events into notifications for the user interface.

pub mod account;
pub mod bridge;
pub mod client;
pub mod launch;
pub mod session;
pub mod signal;
pub mod text;
