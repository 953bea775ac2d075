//! The settings that the tracing components read.

use std::sync::Arc;
use vstd::prelude::*;

verus! {

/// The configuration of the tracer.
#[derive(Debug)]
pub struct Config {
    /// Whether tracing is enabled at all.
    pub enabled: bool,
    /// The name of the service.
    pub service: String,
    /// Whether nobody configured a name for the service.
    pub service_is_default: bool,
    /// The environment that the service runs in.
    pub env: Option<String>,
    /// The version of the service.
    pub version: Option<String>,
    /// Where the trace agent listens.
    pub trace_agent_url: String,
    /// Where the metrics agent listens.
    pub dogstatsd_agent_url: String,
    /// The version of the tracer.
    pub tracer_version: String,
    /// The language of the tracer.
    pub language: String,
    /// The version of the language.
    pub language_version: String,
    /// The identifier of this process.
    pub runtime_id: String,
    /// Whether the finished spans of a trace may be sent before the trace is complete.
    pub trace_partial_flush_enabled: bool,
    /// How many finished spans are sent at once when a trace is sent in parts.
    pub trace_partial_flush_min_spans: usize,
    /// Whether statistics on traces are computed.
    pub trace_stats_computation_enabled: bool,
    /// Whether telemetry on the tracer itself is sent.
    pub telemetry_enabled: bool,
    /// How often telemetry is sent, in milliseconds.
    pub telemetry_heartbeat_millis: u64,
    /// Whether the configuration may be changed by the agent.
    pub remote_config_enabled: bool,
}

/// Calls `Arc::clone`.
///
/// Trusted: the result points to the same configuration.
#[verifier::external_body]
pub(crate) fn share(config: &Arc<Config>) -> (shared: Arc<Config>)
    ensures
        shared == *config,
{
    Arc::clone(config)
}

} // verus!
