//! Configuration records, consumed read-only by the session engine.
//!
//! Loading and persisting the configuration file is an external
//! collaborator's job; the library works on the already-decoded values.
use vstd::prelude::*;

use crate::DEFAULT_INTERVAL;

verus! {

/// The whole configuration document.
#[derive(Debug)]
pub struct Configure {
    pub server: RemoteServer,
    pub statistics: Statistics,
    pub identification: Option<Identification>,
}

/// The remote server section: endpoints, credentials and cadence.
#[derive(Debug)]
pub struct RemoteServer {
    /// Primary endpoint address.
    pub server_address: String,
    /// Bearer token attached to every request by the transport collaborator.
    pub token: String,
    /// Ordered fallback addresses, tried after the primary.
    pub backup_servers: Option<Vec<String>>,
    /// Heartbeat interval in seconds; `DEFAULT_INTERVAL` when unset.
    pub interval: Option<u32>,
    /// Opt-in for version-pin enforcement against the server.
    pub check_server_version: Option<bool>,
}

/// Gate for attaching telemetry payloads to heartbeats.
#[derive(Debug)]
pub struct Statistics {
    pub enabled: bool,
}

/// The persisted client identity.
#[derive(Debug)]
pub struct Identification {
    pub token: String,
}

/// Host identity sent with a registration request.
#[derive(Debug)]
pub struct RegisterData {
    pub hostname: String,
    pub boot_time: i64,
}

/// The effective heartbeat interval: the configured value, or the default
/// when the configuration leaves it unset.
pub open spec fn interval_spec(c: Configure) -> u64 {
    match c.server.interval {
        Some(i) => i as u64,
        None => DEFAULT_INTERVAL as u64,
    }
}

/// Whether the configuration opts into version-pin enforcement.
pub open spec fn version_checking(c: Configure) -> bool {
    c.server.check_server_version == Some(true)
}

} // verus!
