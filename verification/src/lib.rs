//! Verified core of a fragment-stream mirroring service.
//!
//! The service mirrors a remote segmented media stream to local storage:
//! a sync endpoint reports the current fragment index, and each fragment is
//! fetched as a small `delta` payload plus an occasional `full` snapshot,
//! with retries, a fallback mirror, and a resync policy for sustained
//! failure. All of the sync, retry, fallback and session-termination
//! decisions live here as verified state machines over plain values; the
//! surrounding binary only performs the HTTP requests, file writes, sleeps
//! and notifications that the decisions call for.

pub mod pipeline;
pub mod session;
pub mod snapshot;
pub mod sync;
pub mod transport;
