use vstd::prelude::*;

verus! {

/// Failures reported by the validator's operations.
#[derive(Debug, Clone, Copy, PartialEq, Eq, Structural, PartialOrd, Ord)]
pub enum Error {
    /// Reserved for memo-format rules; no operation returns it.
    InvalidMemo,
    /// No session is stored under the memo.
    SessionNotFound,
    /// The observed amount is below the session's minimum.
    InsufficientAmount,
    /// The session was already consumed or deactivated.
    SessionExpired,
    /// No backend is configured, or the caller is not the backend.
    Unauthorized,
    /// A backend identity is already stored.
    AlreadyInitialized,
}

} // verus!
