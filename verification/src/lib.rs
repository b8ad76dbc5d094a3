//! Command-processing core of a FIDO2/CTAP2 authenticator.
//!
//! The crate holds the state machine that decides which command may run in
//! which authenticator state, the PIN/UV authorization-token lifecycle with
//! its retry lockout, the persistence contract with its atomicity guarantee,
//! and the container that erases secret bytes when it is released.  Every
//! executable function carries a contract, and Verus proves each but the
//! one in [`secret`] that stands for a function of std.

pub mod channel;
pub mod command;
pub mod ctap;
pub mod env;
pub mod laws;
pub mod memory_store;
pub mod persist;
pub mod pin;
pub mod secret;
pub mod status;
pub mod test_env;
pub mod test_helpers;

