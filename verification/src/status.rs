//! The closed set of outcomes that a failed command reports.

use vstd::prelude::*;

verus! {

/// Why a command failed.  Each failure is reported as exactly one of these.
#[derive(Clone, Copy, PartialEq, Eq, Structural, Debug)]
pub enum CtapError {
    /// The parameters are malformed, missing or not supported.
    InvalidCommand,
    /// The command needs an authorization token and carries none.
    AuthorizationRequired,
    /// The token is stale, or its scope, channel or protocol does not fit.
    AuthorizationInvalid,
    /// The retry counter is exhausted; only a factory reset lifts this.
    PinBlocked,
    /// The operation is gated by a provisioning flag that is off.
    FeatureDisabled,
    /// Another channel holds the transaction lock for an operation that waits
    /// for the user.
    ChannelBusy,
    /// The wait for user presence exceeded its bound.
    Timeout,
    /// The persistence medium refused a write; nothing of it was applied.
    StorageFailure,
    /// The user or the host aborted the operation.
    Cancelled,
}

/// The outcome of a command: its payload, or the one error that stopped it.
pub type CtapResult<T> = Result<T, CtapError>;

impl CtapError {
    /// Whether the condition lasts until a factory reset.  Every other error
    /// ends with the command that reported it.
    pub fn is_terminal(&self) -> (terminal: bool)
        ensures
            terminal == (*self == CtapError::PinBlocked),
    {
        match self {
            CtapError::PinBlocked => true,
            _ => false,
        }
    }
}

} // verus!
