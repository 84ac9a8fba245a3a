//! The typed, recoverable errors the engine reports. Every failed operation
//! leaves the state exactly as it was.

use vstd::prelude::*;
use crate::threshold::ThresholdError;

verus! {

/// The error an operation fails with.
#[derive(Clone, Copy, Debug, PartialEq, Eq, Structural)]
pub enum ContractError {
    /// The creation message carried an empty voter list.
    NoVoters,
    /// The threshold configuration was rejected at creation.
    Threshold(ThresholdError),
    /// The caller is not an eligible voter for the attempted action.
    Unauthorized,
    /// The requested expiration is not comparable to the configured maximum.
    WrongExpiration,
    /// The proposal or ballot asked for does not exist.
    NotFound,
    /// A vote was cast on a proposal that is not open.
    NotOpen,
    /// A vote was cast after the proposal's deadline.
    Expired,
    /// The caller already holds a ballot on this proposal.
    AlreadyVoted,
    /// Execution was attempted on a proposal that has not passed.
    WrongExecuteStatus,
    /// Closing was attempted on a terminal or passed proposal.
    WrongCloseStatus,
    /// Closing was attempted before the proposal's deadline.
    NotExpired,
}

} // verus!
