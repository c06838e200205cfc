//! Process-wide relay configuration: the upstream base URL and the model
//! name, populated once at startup and read by every request.

use vstd::prelude::*;
use vstd::string::StringExecFns;

verus! {

/// Connection-establishment timeout for the outbound call, in seconds.
pub const CONNECT_TIMEOUT_SECS: u64 = 5;

/// Overall request timeout for the outbound call, in seconds.
pub const REQUEST_TIMEOUT_SECS: u64 = 45;

/// Immutable process-wide configuration: where the inference server lives
/// and which model to request.
#[derive(Debug)]
pub struct RelayConfiguration {
    pub base_url: String,
    pub model: String,
}

/// Builds the configuration from optionally-present settings, applying the
/// fixed defaults where a setting is absent. The caller supplies whatever
/// its environment provided; this function is deterministic in those values.
pub fn load_config(base_url: Option<String>, model: Option<String>) -> (r: RelayConfiguration)
    ensures
        r.base_url@ == (match base_url {
            Some(b) => b@,
            None => "http://127.0.0.1:11434"@,
        }),
        r.model@ == (match model {
            Some(m) => m@,
            None => "mistral"@,
        }),
{
    let base_url = match base_url {
        Some(b) => b,
        None => String::from_str("http://127.0.0.1:11434"),
    };
    let model = match model {
        Some(m) => m,
        None => String::from_str("mistral"),
    };
    RelayConfiguration { base_url, model }
}

/// The full URL of the upstream generation endpoint for a configuration.
pub fn upstream_url(config: &RelayConfiguration) -> (r: String)
    ensures
        r@ == config.base_url@ + "/api/generate"@,
{
    let mut url = config.base_url.clone();
    url.append("/api/generate");
    url
}

} // verus!
