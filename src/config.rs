//! Telemetry configuration: the service name and the collector endpoint, each
//! taken from its environment variable when that is set and non-empty, and
//! defaulted otherwise.
use vstd::prelude::*;

verus! {

/// Service name used when `OTEL_SERVICE_NAME` is unset or empty.
pub const DEFAULT_SERVICE_NAME: &'static str = "service";

/// Collector endpoint used when `OTEL_EXPORTER_OTLP_ENDPOINT` is unset or empty.
pub const DEFAULT_ENDPOINT: &'static str = "http://localhost:4317";

/// Name of the environment variable that holds the service name.
pub const SERVICE_NAME_VAR: &'static str = "OTEL_SERVICE_NAME";

/// Name of the environment variable that holds the collector endpoint.
pub const ENDPOINT_VAR: &'static str = "OTEL_EXPORTER_OTLP_ENDPOINT";

pub open spec fn default_service_name() -> Seq<char> {
    seq!['s', 'e', 'r', 'v', 'i', 'c', 'e']
}

pub open spec fn default_endpoint() -> Seq<char> {
    seq![
        'h', 't', 't', 'p', ':', '/', '/', 'l', 'o', 'c', 'a', 'l', 'h', 'o', 's', 't', ':', '4',
        '3', '1', '7',
    ]
}

/// The view of an optional string.
pub open spec fn opt_view(v: Option<String>) -> Option<Seq<char>> {
    match v {
        Some(s) => Some(s@),
        None => None,
    }
}

/// A variable's value where it is set and non-empty, the default otherwise.
pub open spec fn resolved(value: Option<Seq<char>>, default: Seq<char>) -> Seq<char> {
    match value {
        Some(v) => if v.len() > 0 { v } else { default },
        None => default,
    }
}

/// Configuration of the telemetry pipelines, fixed for the process's lifetime.
pub struct TelemetryConfig {
    pub service_name: String,
    pub endpoint: String,
}

impl TelemetryConfig {
    /// Both values are non-empty.
    pub open spec fn wf(&self) -> bool {
        self.service_name@.len() > 0 && self.endpoint@.len() > 0
    }

    /// Builds the configuration from the two variables' values (`None` where a
    /// variable is unset), applying the defaults.
    pub fn from_env_values(service_name: Option<String>, endpoint: Option<String>) -> (r: Self)
        ensures
            r.service_name@ == resolved(opt_view(service_name), default_service_name()),
            r.endpoint@ == resolved(opt_view(endpoint), default_endpoint()),
            r.wf(),
    {
        proof {
            reveal_strlit("service");
            reveal_strlit("http://localhost:4317");
        }
        let service_name = or_default(service_name, DEFAULT_SERVICE_NAME);
        let endpoint = or_default(endpoint, DEFAULT_ENDPOINT);
        TelemetryConfig { service_name, endpoint }
    }
}

/// `value` where it is present and non-empty, `default` otherwise.
fn or_default(value: Option<String>, default: &str) -> (r: String)
    ensures
        r@ == resolved(opt_view(value), default@),
{
    match value {
        Some(v) => if v.as_str().is_empty() {
            default.to_owned()
        } else {
            v
        },
        None => default.to_owned(),
    }
}

/// Whatever non-empty service name the variable holds is the service name
/// that the configuration resolves to.
pub proof fn lemma_service_name_from_variable(name: Seq<char>)
    requires
        name.len() > 0,
    ensures
        resolved(Some(name), default_service_name()) == name,
{
}

} // verus!
