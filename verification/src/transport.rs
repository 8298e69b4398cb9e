//! Error taxonomy for one fetch-and-store attempt, and the back-off policy
//! attached to connection resets.

use vstd::prelude::*;

verus! {

/// Seconds to pause after a transport failure caused by a connection reset,
/// before the failure is surfaced to the retry loop.
pub const CONNECTION_RESET_BACKOFF_SECONDS: u64 = 3;

/// Why one attempt to fetch a payload and store it on disk failed.
#[derive(Clone, Copy, Debug, PartialEq, Eq, Structural)]
pub enum FetchError {
    /// The request itself failed; `connection_reset` records whether the
    /// underlying cause was a reset connection.
    Transport { connection_reset: bool },
    /// The server answered with a status other than 200.
    HttpStatus { code: u16 },
    /// The response body could not be read to completion.
    BodyDecode { connection_reset: bool },
    /// The payload could not be written to its file.
    FileWrite,
}

/// Whether this failure was caused by a reset connection, the one transport
/// condition that earns a short back-off before the failure is reported.
pub open spec fn spec_is_connection_reset(e: FetchError) -> bool {
    match e {
        FetchError::Transport { connection_reset } => connection_reset,
        FetchError::BodyDecode { connection_reset } => connection_reset,
        _ => false,
    }
}

/// How long to sleep before surfacing this failure: the fixed reset back-off
/// for connection resets, nothing for every other failure.
pub fn backoff_seconds(e: &FetchError) -> (s: u64)
    ensures
        s == if spec_is_connection_reset(*e) {
            CONNECTION_RESET_BACKOFF_SECONDS as int
        } else {
            0
        },
{
    match e {
        FetchError::Transport { connection_reset: true } => CONNECTION_RESET_BACKOFF_SECONDS,
        FetchError::BodyDecode { connection_reset: true } => CONNECTION_RESET_BACKOFF_SECONDS,
        _ => 0,
    }
}

} // verus!
