//! Client library of a host-monitoring agent that periodically reports to a
//! remote server and reacts to server-issued directives.
//!
//! The core is the session engine: endpoint rotation across a fixed list of
//! server addresses, classification of decoded server responses, a bounded
//! retry/escalation policy, and the state machine that drives the heartbeat
//! loop and its cooperative cancellation.  Network transport, configuration
//! persistence and telemetry collection are external collaborators; the
//! library only decides, the host program performs.
use vstd::prelude::*;

pub mod config;
pub mod endpoint;
pub mod laws;
pub mod platform;
pub mod response;
pub mod retry;
pub mod session;

verus! {

/// Heartbeat cadence in seconds when the configuration leaves it unset.
pub const DEFAULT_INTERVAL: u32 = 180;

/// Largest number of consecutive retryable failures tolerated in one
/// connected run before the policy escalates.
pub const MAX_RETRY_TIMES: u32 = 3;

/// Fixed short wait before retrying after a retryable failure, in seconds.
pub const BACKOFF_SECONDS: u64 = 5;

/// Application status code used for a locally detected version mismatch.
pub const VERSION_MISMATCH_CODE: i64 = 1;

/// The client build version string sent with every request.
pub fn client_version() -> (r: &'static str)
    ensures
        r@ == "0.1.0"@,
{
    "0.1.0"
}

} // verus!
