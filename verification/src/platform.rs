//! Platform collaborators: identity generation and host facts.
//!
//! The calls into outside crates live here behind trusted wrappers; the
//! logic around them is verified.
use vstd::prelude::*;

use systemstat::Platform;

use crate::config::Configure;
use crate::config::Identification;
use crate::config::RegisterData;

verus! {

/// Relies on uuid's `Uuid::new_v4` and its `Display` impl: a freshly drawn
/// random identifier, rendered in the 36-character hyphenated form.  The
/// value is random, so nothing beyond its shape is promised.
#[verifier::external_body]
fn generate_identity_token() -> (r: String)
    ensures
        r@.len() == 36,
{
    uuid::Uuid::new_v4().to_string()
}

/// Relies on gethostname's `gethostname`: the host's name as the operating
/// system reports it.  The value is machine-dependent, so nothing is
/// promised of it.
#[verifier::external_body]
fn host_name() -> (r: String)
{
    gethostname::gethostname().to_string_lossy().into_owned()
}

/// Relies on systemstat's `Platform::boot_time`: the host's boot instant,
/// reduced to epoch seconds.  The value is machine-dependent, so nothing is
/// promised of it.
#[verifier::external_body]
fn system_boot_time() -> (r: Result<i64, String>)
{
    match systemstat::System::new().boot_time() {
        Ok(t) => Ok(t.unix_timestamp()),
        Err(e) => Err(format!("{}", e)),
    }
}

/// Makes sure the configuration carries a client identity: an existing
/// identity is kept untouched, a missing one is generated once.  Returns
/// whether a new identity was generated, so the caller knows to persist the
/// configuration.
pub fn ensure_identification(config: &mut Configure) -> (generated: bool)
    ensures
        final(config).identification is Some,
        generated <==> old(config).identification is None,
        final(config).server == old(config).server,
        final(config).statistics == old(config).statistics,
        old(config).identification is Some ==> final(config).identification == old(
            config,
        ).identification,
        generated ==> (final(config).identification matches Some(id) && id.token@.len() == 36),
{
    if config.identification.is_none() {
        config.identification = Some(Identification { token: generate_identity_token() });
        true
    } else {
        false
    }
}

/// Gathers the host identity sent with a registration request.  Fails only
/// when the platform cannot report the boot instant.
pub fn gather_register_data() -> (r: Result<RegisterData, String>)
{
    match system_boot_time() {
        Ok(t) => Ok(RegisterData { hostname: host_name(), boot_time: t }),
        Err(e) => Err(e),
    }
}

} // verus!
