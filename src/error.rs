//! Error values that travel between peers and back to local callers.
use vstd::prelude::*;

verus! {

/// Kind of a failure reported to a peer or to a local caller.
#[derive(Clone, Copy, Debug, PartialEq, Eq, Structural)]
pub enum ErrorCode {
    Unknown,
    /// No usable path to the payee.
    NotPath,
    /// The counterparty rejected the proposal.
    Reject,
    /// Verification of a channel transaction failed.
    VerificationFailure,
    /// A verified transaction could not be applied.
    ApplyFailure,
    /// No answer came before the timeout.
    TimeoutExpired,
    /// A wire message could not be decoded.
    DecodeFailure,
    /// The peer is not connected.
    DisconnectedPeer,
    /// Local arguments were refused before anything was sent.
    InvalidArgument,
}

/// A failure with its kind and a human-readable text.
#[derive(Clone, Debug)]
pub struct SgError {
    pub code: ErrorCode,
    pub message: String,
}

impl SgError {
    pub fn new(code: ErrorCode, message: String) -> (r: SgError)
        ensures
            r.code == code,
            r.message@ == message@,
    {
        SgError { code, message }
    }
}

} // verus!
