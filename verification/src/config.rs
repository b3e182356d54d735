//! Exporter configuration decisions: defaulting of endpoint and
//! service name, and the fail-fast rule for a missing credential.

use vstd::prelude::*;
use vstd::string::StringExecFns;
use crate::sampler::SamplerConfig;

verus! {

/// A fatal misconfiguration: no request can be safely traced without
/// a credential, so initialization aborts rather than degrading.
#[derive(PartialEq, Eq, Structural, Clone, Copy, Debug)]
pub enum ConfigError {
    MissingCredential,
}

/// The resolved exporter configuration.
pub struct OtlpConfig {
    pub endpoint: String,
    pub api_key: String,
    pub service_name: String,
    pub sampler: SamplerConfig,
}

/// The fixed default telemetry endpoint.
pub open spec fn spec_default_endpoint() -> Seq<char> {
    "https://api.eu1.honeycomb.io/"@
}

/// The fallback service name used when none is configured.
pub open spec fn spec_default_service_name() -> Seq<char> {
    "unknown_service"@
}

/// Resolves the exporter configuration: endpoint and service name fall
/// back to fixed defaults; a missing credential is fatal, never
/// defaulted.  Returns `Ok` exactly when a credential is present.
pub fn resolve_config(
    endpoint: Option<String>,
    api_key: Option<String>,
    service_name: Option<String>,
    sampler: SamplerConfig,
) -> (r: Result<OtlpConfig, ConfigError>)
    ensures
        match r {
            Ok(cfg) => {
                &&& api_key matches Some(k) && cfg.api_key@ == k@
                &&& cfg.endpoint@ == (match endpoint {
                    Some(e) => e@,
                    None => spec_default_endpoint(),
                })
                &&& cfg.service_name@ == (match service_name {
                    Some(s) => s@,
                    None => spec_default_service_name(),
                })
                &&& cfg.sampler == sampler
            },
            Err(e) => api_key is None && e == ConfigError::MissingCredential,
        },
{
    let key = match api_key {
        Some(k) => k,
        None => {
            return Err(ConfigError::MissingCredential);
        },
    };
    let endpoint_final = match endpoint {
        Some(e) => e,
        None => String::from_str("https://api.eu1.honeycomb.io/"),
    };
    let service_final = match service_name {
        Some(s) => s,
        None => String::from_str("unknown_service"),
    };
    Ok(
        OtlpConfig {
            endpoint: endpoint_final,
            api_key: key,
            service_name: service_final,
            sampler,
        },
    )
}

} // verus!
