//! What happens when a span starts and when it ends.

use crate::active_spans::ActiveSpanMetadata;
use crate::config::Config;
use crate::dd_resource;
use crate::propagation;
use crate::registry::{self, ShardView, TraceRegistry};
use crate::sampling::{self, TracePropagationData};
use crate::shutdown::Shutdown;
use crate::span::{self, FinishedSpan, SpanContext, SpanView};
use crate::text;
use crate::traces::{Trace, TraceView};
use crate::value::{self, KeyValue};
use opentelemetry_sdk::Resource;
use std::sync::Arc;
use vstd::prelude::*;

verus! {

/// A span that starts.
#[derive(Debug)]
pub struct StartedSpan {
    /// The context of the span.
    pub span_context: SpanContext,
    /// Whether the span is recorded.
    pub is_recording: bool,
    /// The attributes that the span starts with, where they can be read.
    pub attributes: Option<Vec<KeyValue>>,
    /// Whether the parent of the span is in another service.
    pub parent_is_remote: bool,
    /// Whether the span has a parent.
    pub parent_has_active_span: bool,
}

/// What a span is in its trace.
#[derive(Debug, Clone, Copy, PartialEq, Eq)]
pub enum StartKind {
    /// The span is not looked at.
    Ignored,
    /// The root of the trace in this service, with a parent in another one.
    RemoteRoot,
    /// The root of the trace.
    LocalRoot,
    /// A span with a parent in this service.
    Child,
}

/// The background tasks that go with a processor.
#[derive(Debug, Clone, Copy, PartialEq, Eq)]
pub struct Workers {
    /// Whether configuration is fetched from the agent.
    pub remote_config: bool,
    /// Whether metrics are collected.
    pub telemetry: bool,
}

/// A resource that was set, and the name of the service in it.
#[derive(Debug)]
pub struct ResourceUpdate {
    pub resource: Resource,
    pub service_name: Option<String>,
}

/// What a span is in its trace.
pub open spec fn start_kind(enabled: bool, started: StartedSpan) -> StartKind {
    if !enabled || !started.is_recording || !started.span_context.valid() {
        StartKind::Ignored
    } else if started.parent_is_remote {
        StartKind::RemoteRoot
    } else if !started.parent_has_active_span {
        StartKind::LocalRoot
    } else {
        StartKind::Child
    }
}

/// The route that a span serves, from its attributes.
pub open spec fn http_route(attributes: Option<Vec<KeyValue>>) -> Option<Seq<char>> {
    match attributes {
        Some(attributes) => match value::first_value(
            value::attributes_view(attributes@),
            "http.route"@,
            "http.target"@,
        ) {
            Some(route) => Some(value::str_text(route)),
            None => None,
        },
        None => None,
    }
}

/// The registry after a span has started: a root is set, another span is counted, and its metadata
/// is stored.
pub open spec fn shard_after_start(
    shard: ShardView,
    kind: StartKind,
    trace_id: Seq<u8>,
    span_id: Seq<u8>,
    route: Option<Seq<char>>,
) -> ShardView {
    match kind {
        StartKind::Ignored => shard,
        StartKind::Child => registry::with_metadata(
            registry::with_span(shard, trace_id, span_id, sampling::empty_propagation()),
            trace_id,
            span_id,
            route,
        ),
        _ => registry::with_metadata(
            registry::with_root(shard, trace_id, span_id),
            trace_id,
            span_id,
            route,
        ),
    }
}

/// The parts of the registry after a span has started, in the part that `hash` picks.
pub open spec fn all_after_start(
    shards: Seq<ShardView>,
    hash: u64,
    enabled: bool,
    started: StartedSpan,
) -> Seq<ShardView> {
    registry::replace_shard(
        shards,
        hash,
        shard_after_start(
            shards[registry::shard_of(hash)],
            start_kind(enabled, started),
            started.span_context.trace_id@,
            started.span_context.span_id@,
            http_route(started.attributes),
        ),
    )
}

/// The spans that are sent, from what the registry has handed out.
pub open spec fn exported_spans(
    enabled: bool,
    partial_flush_enabled: bool,
    chunk: Option<TraceView>,
) -> Option<Seq<SpanView>> {
    match chunk {
        Some(trace) if enabled => Some(
            propagation::propagated_spans(
                if partial_flush_enabled {
                    TraceView {
                        finished_spans: propagation::top_level_marked(
                            trace.finished_spans,
                            trace.local_root_span_id,
                        ),
                        ..trace
                    }
                } else {
                    trace
                },
            ),
        ),
        _ => None,
    }
}

/// The spans in an option.
pub open spec fn opt_spans(spans: Option<Vec<FinishedSpan>>) -> Option<Seq<SpanView>> {
    match spans {
        Some(spans) => Some(span::spans_view(spans@)),
        None => None,
    }
}

/// The trace in an option.
pub open spec fn opt_trace(trace: Option<Trace>) -> Option<TraceView> {
    match trace {
        Some(trace) => Some(trace@),
        None => None,
    }
}

/// Takes part in the life of every span: it registers spans that start, and passes on spans that
/// end.
#[derive(Debug)]
pub struct DatadogSpanProcessor {
    pub config: Arc<Config>,
}

impl DatadogSpanProcessor {
    /// The processor, and the background tasks that go with it.
    pub fn new(config: Arc<Config>) -> (result: (DatadogSpanProcessor, Workers))
        ensures
            result.0.config == config,
            result.1.remote_config == (config.remote_config_enabled && config.enabled),
            result.1.telemetry == config.telemetry_enabled,
    {
        let workers = Workers {
            remote_config: config.remote_config_enabled && config.enabled,
            telemetry: config.telemetry_enabled,
        };
        (DatadogSpanProcessor { config }, workers)
    }

    /// What a span is in its trace.
    pub fn start_kind(&self, started: &StartedSpan) -> (kind: StartKind)
        ensures
            kind == start_kind(self.config.enabled, *started),
    {
        if !self.config.enabled || !started.is_recording || !started.span_context.is_valid() {
            StartKind::Ignored
        } else if started.parent_is_remote {
            StartKind::RemoteRoot
        } else if !started.parent_has_active_span {
            StartKind::LocalRoot
        } else {
            StartKind::Child
        }
    }

    /// As [`Self::on_start`], in the part of the registry that `hash` picks.
    pub fn on_start_at(
        &self,
        registry: &mut TraceRegistry,
        hash: u64,
        started: &StartedSpan,
    ) -> (kind: StartKind)
        requires
            registry::metrics_can_grow(old(registry)@[registry::shard_of(hash)].metrics),
            registry::can_open(
                old(registry)@[registry::shard_of(hash)],
                started.span_context.trace_id@,
            ),
        ensures
            old(registry).wf() ==> final(registry).wf(),
            final(registry).hasher() == old(registry).hasher(),
            final(registry)@ == all_after_start(
                old(registry)@,
                hash,
                self.config.enabled,
                *started,
            ),
            kind == start_kind(self.config.enabled, *started),
    {
        proof {
            use_type_invariant(&*registry);
        }
        let ghost before = registry@;
        let trace_id = started.span_context.trace_id;
        let span_id = started.span_context.span_id;
        let kind = self.start_kind(started);
        match kind {
            StartKind::Ignored => {
                assert(registry@ =~= all_after_start(before, hash, self.config.enabled, *started));
                return kind;
            },
            StartKind::Child => {
                registry.register_span_at(hash, trace_id, span_id, TracePropagationData::empty());
            },
            _ => {
                registry.register_local_root_span_at(hash, trace_id, span_id);
            },
        }
        let http_route: Option<String> = match &started.attributes {
            Some(attributes) => match value::find_value(attributes, "http.route", "http.target") {
                Some(route) => Some(route.as_str()),
                None => None,
            },
            None => None,
        };
        registry.set_active_span_metadata_at(
            hash,
            trace_id,
            span_id,
            ActiveSpanMetadata { http_route },
        );
        assert(registry@ =~= all_after_start(before, hash, self.config.enabled, *started));
        kind
    }

    /// Registers a span that starts. The links of a remote parent are to be added to the span where
    /// the result is [`StartKind::RemoteRoot`].
    pub fn on_start(&self, registry: &mut TraceRegistry, started: &StartedSpan) -> (kind: StartKind)
        requires
            old(registry).can_count(),
            old(registry).can_count_open(started.span_context.trace_id@),
        ensures
            old(registry).wf() ==> final(registry).wf(),
            final(registry).hasher() == old(registry).hasher(),
            exists|hash: u64|
                old(registry).hashes_to(started.span_context.trace_id, hash) && final(registry)@
                    == #[trigger] all_after_start(
                    old(registry)@,
                    hash,
                    self.config.enabled,
                    *started,
                ),
            kind == start_kind(self.config.enabled, *started),
    {
        proof {
            use_type_invariant(&*registry);
        }
        let hash = registry.hash(started.span_context.trace_id);
        self.on_start_at(registry, hash, started)
    }

    /// The spans to send, from what the registry has handed out.
    pub fn export_chunk(&self, chunk: Option<Trace>) -> (spans: Option<Vec<FinishedSpan>>)
        ensures
            opt_spans(spans) == exported_spans(
                self.config.enabled,
                self.config.trace_partial_flush_enabled,
                opt_trace(chunk),
            ),
    {
        match chunk {
            Some(trace) => {
                if !self.config.enabled {
                    return None;
                }
                let mut trace = trace;
                if self.config.trace_partial_flush_enabled {
                    propagation::mark_top_level(&mut trace);
                }
                Some(propagation::add_trace_propagation_data(trace))
            },
            None => None,
        }
    }

    /// As [`Self::on_end`], in the part of the registry that `hash` picks.
    pub fn on_end_at(
        &self,
        registry: &mut TraceRegistry,
        hash: u64,
        finished: FinishedSpan,
    ) -> (spans: Option<Vec<FinishedSpan>>)
        requires
            registry::metrics_can_grow(old(registry)@[registry::shard_of(hash)].metrics),
        ensures
            old(registry).wf() ==> final(registry).wf(),
            final(registry).hasher() == old(registry).hasher(),
            final(registry)@ == registry::all_with_finished(
                old(registry)@,
                hash,
                finished@.trace_id,
                finished@,
            ),
            opt_spans(spans) == exported_spans(
                self.config.enabled,
                self.config.trace_partial_flush_enabled,
                registry::flushed(
                    old(registry)@[registry::shard_of(hash)],
                    finished@.trace_id,
                    finished@,
                ),
            ),
    {
        let trace_id = finished.span_context.trace_id;
        let chunk = registry.finish_span_at(hash, trace_id, finished);
        self.export_chunk(chunk)
    }

    /// Records that a span has ended, and returns the spans to send.
    pub fn on_end(&self, registry: &mut TraceRegistry, finished: FinishedSpan) -> (spans: Option<
        Vec<FinishedSpan>,
    >)
        requires
            old(registry).can_count(),
        ensures
            old(registry).wf() ==> final(registry).wf(),
            final(registry).hasher() == old(registry).hasher(),
            exists|hash: u64|
                {
                    &&& old(registry).hashes_to(finished.span_context.trace_id, hash)
                    &&& final(registry)@ == #[trigger] registry::all_with_finished(
                        old(registry)@,
                        hash,
                        finished@.trace_id,
                        finished@,
                    )
                    &&& opt_spans(spans) == exported_spans(
                        self.config.enabled,
                        self.config.trace_partial_flush_enabled,
                        registry::flushed(
                            old(registry)@[registry::shard_of(hash)],
                            finished@.trace_id,
                            finished@,
                        ),
                    )
                },
    {
        proof {
            use_type_invariant(&*registry);
        }
        let hash = registry.hash(finished.span_context.trace_id);
        self.on_end_at(registry, hash, finished)
    }

    /// Completes a resource that is set. The resource goes to the exporter, and the name of the
    /// service to the configuration.
    pub fn set_resource(&self, resource: Resource) -> (update: ResourceUpdate)
        ensures
            dd_resource::resource_attributes(update.resource) == dd_resource::dd_attributes(
                dd_resource::resource_attributes(resource),
                &self.config,
            ),
            dd_resource::resource_schema_url(update.resource)
                == dd_resource::resource_schema_url(resource),
            text::opt_text(update.service_name) == Some(
                value::str_text(
                    dd_resource::dd_attributes(
                        dd_resource::resource_attributes(resource),
                        &self.config,
                    )[dd_resource::service_key()],
                ),
            ),
    {
        let ghost given = dd_resource::resource_attributes(resource);
        proof {
            dd_resource::law_service_is_named(given, &self.config);
        }
        let completed = dd_resource::create_dd_resource(resource, &self.config);
        let service_name = dd_resource::service_name(&completed);
        ResourceUpdate { resource: completed, service_name }
    }

    /// The shutdown of the background tasks, beginning at `now`.
    pub fn shutdown_with_timeout(&self, workers: Workers, timeout: u128, now: u128) -> (shutdown:
        Shutdown)
        requires
            now + timeout <= u128::MAX,
        ensures
            shutdown == (Shutdown {
                timeout,
                deadline: (now + timeout) as u128,
                has_remote_config: workers.remote_config,
                has_telemetry: workers.telemetry,
            }),
    {
        Shutdown::new(timeout, now, workers.remote_config, workers.telemetry)
    }
}

/// Completing the spans of a trace changes nothing but their attributes, and adds attributes only at
/// the end.
pub proof fn law_export_only_adds_attributes(
    enabled: bool,
    partial_flush_enabled: bool,
    trace: TraceView,
    i: int,
)
    requires
        enabled,
        0 <= i < trace.finished_spans.len(),
    ensures
        ({
            let sent = exported_spans(enabled, partial_flush_enabled, Some(trace));
            let before = trace.finished_spans[i];
            let after = sent->0[i];
            &&& sent is Some
            &&& sent->0.len() == trace.finished_spans.len()
            &&& before.attributes.is_prefix_of(after.attributes)
            &&& after == SpanView { attributes: after.attributes, ..before }
        }),
{
    let before = trace.finished_spans[i];
    let after = exported_spans(enabled, partial_flush_enabled, Some(trace))->0[i];
    propagation::lemma_first_span_in_range(trace.finished_spans, trace.local_root_span_id);
    assert(before.attributes =~= after.attributes.subrange(0, before.attributes.len() as int));
}

/// Nothing is sent while tracing is disabled.
pub proof fn law_disabled_sends_nothing(partial_flush_enabled: bool, chunk: Option<TraceView>)
    ensures
        exported_spans(false, partial_flush_enabled, chunk) is None,
{
}

/// Only the root span gets the tags of its trace; every span gets the origin and the sampling
/// decision.
pub proof fn law_tags_go_to_the_root(trace: TraceView, i: int)
    requires
        0 <= i < trace.finished_spans.len(),
    ensures
        ({
            let data = trace.propagation_data;
            let common = propagation::origin_attributes(data.origin)
                + propagation::priority_attributes(data.sampling_decision.priority)
                + propagation::mechanism_attributes(data.sampling_decision.mechanism);
            let before = trace.finished_spans[i];
            let after = propagation::propagated_spans(trace)[i];
            after.attributes == if before.span_id == trace.local_root_span_id {
                before.attributes + propagation::tag_attributes(data.tags) + common
            } else {
                before.attributes + common
            }
        }),
{
    let data = trace.propagation_data;
    let common = propagation::origin_attributes(data.origin) + propagation::priority_attributes(
        data.sampling_decision.priority,
    ) + propagation::mechanism_attributes(data.sampling_decision.mechanism);
    let before = trace.finished_spans[i];
    let after = propagation::propagated_spans(trace)[i];
    if before.span_id == trace.local_root_span_id {
        assert(after.attributes =~= before.attributes + propagation::tag_attributes(data.tags)
            + common);
    } else {
        assert(after.attributes =~= before.attributes + common);
    }
}

} // verus!
