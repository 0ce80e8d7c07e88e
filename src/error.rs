use vstd::prelude::*;

verus! {

/// The ways in which coordination with a peer can fail.
#[derive(Debug, Clone, PartialEq, Eq)]
pub enum RussulaError {
    /// Dialing or accepting a peer connection did not succeed.
    ConnectFailure { dbg: String },
    /// A received message is not a token of the peer's vocabulary; the
    /// offending bytes are kept for diagnostics.
    MalformedMessage { bytes: Vec<u8> },
    /// A non-blocking read found no data. This is the normal "peer not ready
    /// yet" signal, not a failure.
    NetworkBlocked,
    /// Any other transport failure (broken pipe, reset connection).
    IoFailure { dbg: String },
}

pub type RussulaResult<T> = Result<T, RussulaError>;

impl RussulaError {
    /// Whether this error ends the session it happened on. Only
    /// `NetworkBlocked` is not fatal: the caller retries after a delay.
    pub fn is_fatal(&self) -> (r: bool)
        ensures
            r == !(self is NetworkBlocked),
    {
        match self {
            RussulaError::NetworkBlocked => false,
            _ => true,
        }
    }
}

} // verus!
