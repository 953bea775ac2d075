//! What calls return, in terms of what they are given. Each law speaks of every result that a call can
//! return.

use crate::batch::{self, TraceChunk};
use crate::builder::{
    self, ChosenLimits, ContextLabelWriterType, DatadogTracingBuilder, SpanLimits, TracerSetup,
};
use crate::channel::{
    self, MutexPoisonedError, Receiver, Sender, SenderError, TraceExporterMessage, Waiter, Wake,
};
use crate::config::Config;
use crate::context_labels::{self, ExtractedSpanData, LabelCall, LoggingContextWriter};
use crate::custom_labels_writer::{
    self, ClearPlan, CustomLabelsWriter, LabelPlan, LabelValueView, LabelsetState,
};
use crate::dd_resource;
use crate::errors::{self, ErrorView, OTelSdkError, WorkerError};
use crate::exporter::{
    self, DatadogExporter, ExporterParts, ExporterStep, ExporterStepView, JoinOutcome, Joined,
};
use crate::exporter_laws;
use crate::ids::{self, SpanId, TraceId};
use crate::links::{self, LinkContext, SpanLink};
use crate::processor_laws;
use crate::registry::{self, TraceRegistry};
use crate::sampling::TracePropagationData;
use crate::shutdown::{Shutdown, ShutdownStep, StepView, Worker};
use crate::span::{self, FinishedSpan, SpanContext};
use crate::span_processor::{
    self, DatadogSpanProcessor, ResourceUpdate, StartKind, StartedSpan, Workers,
};
use crate::text;
use crate::traces::Trace;
use crate::value::{self, KeyValue, ValueView};
use crate::worker::{
    self, AfterSend, AgentResponse, LogLevel, LogLine, TraceExporterError, TraceExporterWorker,
    WorkerStep,
};
use opentelemetry_sdk::Resource;
use std::sync::Arc;
use vstd::prelude::*;

verus! {

/// The links that are added to a span are one for each that was extracted, in their order, each with
/// the identifiers of its own.
pub proof fn law_call_remote_links(given: &Vec<SpanLink>, added: Vec<LinkContext>, i: int)
    requires
        call_ensures(links::remote_links, (given,), added),
        0 <= i < given@.len(),
    ensures
        added@.len() == given@.len(),
        added@[i].trace_id as int == given@[i].trace_id as int,
        added@[i].span_id as int == given@[i].span_id as int,
        !added@[i].is_remote,
        given@[i].flags is None ==> added@[i].trace_flags == 0,
        given@[i].flags matches Some(flags) ==> added@[i].trace_flags as u32 == flags & 0xff,
        given@[i].tracestate is None ==> added@[i].trace_state@.len() == 0,
        given@[i].attributes is None ==> added@[i].attributes@.len() == 0,
        given@[i].attributes matches Some(attributes) ==> added@[i].attributes@.len()
            == attributes@.len(),
{
    let context = added@[i];
    let read = links::link_state_read(given@[i]);
    links::law_link_names_the_extracted_span(given@[i], read);
    links::law_trace_state_of_a_link(given@[i], read);
    links::law_attributes_of_a_link(given@[i], read);
    assert(context@.attributes.len() == context.attributes@.len());
}

/// A link has the identifiers that were extracted, whatever was read of its trace state, and what was
/// read of that.
pub proof fn law_call_link_context(link: &SpanLink, read: Option<String>, context: LinkContext)
    requires
        call_ensures(links::link_context_with, (link, read), context),
    ensures
        context.trace_id as int == link.trace_id as int,
        context.span_id as int == link.span_id as int,
        link.tracestate is Some ==> (read matches Some(state) ==> context.trace_state@
            == state@),
{
}

/// The processor has the configuration that it was made with. Configuration is fetched where that and
/// tracing are both enabled, and metrics are collected where that is.
pub proof fn law_call_new_processor(config: Arc<Config>, made: (DatadogSpanProcessor, Workers))
    requires
        call_ensures(DatadogSpanProcessor::new, (config,), made),
    ensures
        made.0.config == config,
        made.1.remote_config <==> config.remote_config_enabled && config.enabled,
        made.1.telemetry <==> config.telemetry_enabled,
{
}

/// What a span is in its trace, from the configuration and the span alone.
pub proof fn law_call_start_kind(
    processor: &DatadogSpanProcessor,
    started: &StartedSpan,
    kind: StartKind,
)
    requires
        call_ensures(DatadogSpanProcessor::start_kind, (processor, started), kind),
    ensures
        ({
            let counts = processor.config.enabled && started.is_recording
                && processor_laws::has_identifiers(started.span_context);
            &&& kind == StartKind::Ignored <==> !counts
            &&& kind == StartKind::RemoteRoot <==> counts && started.parent_is_remote
            &&& kind == StartKind::LocalRoot <==> counts && !started.parent_is_remote
                && !started.parent_has_active_span
        }),
{
    processor_laws::law_kinds_of_starts(processor.config.enabled, *started);
}

/// What is sent of a trace: nothing while tracing is disabled or where nothing was handed out, and
/// otherwise all of its spans, in their order, each with the sampling priority of the trace where it
/// has one.
pub proof fn law_call_export_chunk(
    processor: &DatadogSpanProcessor,
    chunk: Option<Trace>,
    sent: Option<Vec<FinishedSpan>>,
    i: int,
)
    requires
        call_ensures(DatadogSpanProcessor::export_chunk, (processor, chunk), sent),
        chunk matches Some(trace) ==> 0 <= i < trace.finished_spans@.len(),
    ensures
        sent is Some <==> processor.config.enabled && chunk is Some,
        sent matches Some(spans) ==> {
            let trace = chunk->0;
            let span_count = trace.finished_spans@.len();
            &&& spans@.len() == span_count
            &&& spans@[i].span_context.trace_id@ == trace.finished_spans@[i].span_context.trace_id@
            &&& spans@[i].span_context.span_id@ == trace.finished_spans@[i].span_context.span_id@
            &&& spans@[i].rest == trace.finished_spans@[i].rest
            &&& trace.propagation_data.sampling_decision.priority matches Some(priority) ==> exists|
                j: int,
            |
                {
                    &&& 0 <= j < spans@[i].attributes@.len()
                    &&& (#[trigger] spans@[i].attributes@[j]).key@ == "_sampling_priority_v1"@
                    &&& spans@[i].attributes@[j].value matches value::Value::I64(n) && n as int
                        == priority as int
                }
        },
{
    if let Some(trace) = chunk {
        if let Some(spans) = sent {
            let partial = processor.config.trace_partial_flush_enabled;
            let all = span_processor::exported_spans(true, partial, Some(trace@))->0;
            assert(all == span::spans_view(spans@));
            processor_laws::law_attributes_of_sent_spans(partial, trace@, i);
            assert(all[i] == spans@[i]@);
            assert(trace@.finished_spans[i] == trace.finished_spans@[i]@);
            if let Some(priority) = trace.propagation_data.sampling_decision.priority {
                processor_laws::law_priority_is_sent(partial, trace@, priority, i);
                let j = choose|j: int|
                    {
                        &&& trace@.finished_spans[i].attributes.len() <= j
                            < all[i].attributes.len()
                        &&& (#[trigger] all[i].attributes[j]).key == "_sampling_priority_v1"@
                        &&& all[i].attributes[j].value matches ValueView::I64(n) && n as int
                            == priority as int
                    };
                assert(all[i].attributes[j] == spans@[i].attributes@[j]@);
                assert(spans@[i].attributes@[j].key@ == "_sampling_priority_v1"@);
            }
        }
    }
}

/// A resource that is set is completed with the environment and the name of the service, its schema and
/// all its other attributes stay, and the name that goes to the configuration is the one it has then.
pub proof fn law_call_set_resource(
    processor: &DatadogSpanProcessor,
    resource: Resource,
    update: ResourceUpdate,
    key: Seq<char>,
)
    requires
        call_ensures(DatadogSpanProcessor::set_resource, (processor, resource), update),
    ensures
        ({
            let given = dd_resource::resource_attributes(resource);
            let completed = dd_resource::resource_attributes(update.resource);
            let env_key = "deployment.environment.name"@;
            let name_key = "service.name"@;
            &&& processor.config.env matches Some(env) ==> completed.contains_pair(
                env_key,
                if given.dom().contains(env_key) {
                    given[env_key]
                } else {
                    ValueView::String(env@)
                },
            )
            &&& processor.config.env is None ==> completed.dom().contains(env_key)
                == given.dom().contains(env_key)
            &&& completed.dom().contains(name_key)
            &&& !processor.config.service_is_default || !given.dom().contains(name_key) ==> (
            update.service_name matches Some(name) && name@ == processor.config.service@)
            &&& update.service_name matches Some(name) && name@ == value::str_text(
                completed[name_key],
            )
            &&& key != env_key && key != name_key ==> {
                &&& completed.dom().contains(key) == given.dom().contains(key)
                &&& given.dom().contains(key) ==> completed[key] == given[key]
            }
            &&& dd_resource::resource_schema_url(update.resource)
                == dd_resource::resource_schema_url(resource)
        }),
{
    let given = dd_resource::resource_attributes(resource);
    dd_resource::law_environment_is_completed(given, &processor.config);
    dd_resource::law_whose_name_stands(given, &processor.config);
    if key != "deployment.environment.name"@ && key != "service.name"@ {
        dd_resource::law_no_other_attribute_changes(given, &processor.config, key);
    }
}

/// A resource is completed with the configured environment unless it has one, whatever becomes of the
/// service name.
pub proof fn law_call_create_dd_resource(resource: Resource, cfg: &Config, completed: Resource)
    requires
        call_ensures(dd_resource::create_dd_resource, (resource, cfg), completed),
    ensures
        ({
            let given = dd_resource::resource_attributes(resource);
            let after = dd_resource::resource_attributes(completed);
            let env_key = "deployment.environment.name"@;
            let name_key = "service.name"@;
            &&& cfg.env matches Some(env) ==> after.contains_pair(
                env_key,
                if given.dom().contains(env_key) {
                    given[env_key]
                } else {
                    ValueView::String(env@)
                },
            )
            &&& after.dom().contains(name_key)
            &&& !cfg.service_is_default || !given.dom().contains(name_key) ==> after[name_key]
                == ValueView::String(cfg.service@)
            &&& dd_resource::resource_schema_url(completed) == dd_resource::resource_schema_url(
                resource,
            )
        }),
{
    dd_resource::law_environment_is_completed(dd_resource::resource_attributes(resource), cfg);
    dd_resource::law_whose_name_stands(dd_resource::resource_attributes(resource), cfg);
}

/// A merged resource has every text that was added, the last one where several have one key, and the
/// other attributes and the schema of the base.
pub proof fn law_call_merge_resource(
    base: Resource,
    additional: Vec<(String, String)>,
    merged: Resource,
    key: Seq<char>,
    last: int,
)
    requires
        call_ensures(dd_resource::merge_resource, (Some(base), additional), merged),
        -1 <= last < additional@.len(),
        last >= 0 ==> additional@[last].0@ == key,
        forall|i: int| last < i < additional@.len() ==> (#[trigger] additional@[i]).0@ != key,
    ensures
        ({
            let before = dd_resource::resource_attributes(base);
            let after = dd_resource::resource_attributes(merged);
            &&& last >= 0 ==> after.contains_pair(key, ValueView::String(additional@[last].1@))
            &&& last < 0 ==> after.dom().contains(key) == before.dom().contains(key)
            &&& last < 0 && before.dom().contains(key) ==> after[key] == before[key]
            &&& dd_resource::resource_schema_url(merged) == dd_resource::resource_schema_url(base)
        }),
{
    let entries = text::entries_view(additional@);
    assert forall|i: int| last < i < entries.len() implies (#[trigger] entries[i]).0 != key by {
        assert(additional@[i].0@ != key);
    }
    dd_resource::law_last_text_stands(
        dd_resource::resource_attributes(base),
        entries,
        key,
        last,
    );
}

/// The shutdown of the processor has the time limit that it was given, counted from its beginning, and
/// the tasks of the processor.
pub proof fn law_call_shutdown_with_timeout(
    processor: &DatadogSpanProcessor,
    workers: Workers,
    timeout: u128,
    now: u128,
    shutdown: Shutdown,
)
    requires
        now + timeout <= u128::MAX,
        call_ensures(
            DatadogSpanProcessor::shutdown_with_timeout,
            (processor, workers, timeout, now),
            shutdown,
        ),
    ensures
        shutdown.timeout == timeout,
        shutdown.deadline == now + timeout,
        shutdown.has_remote_config == workers.remote_config,
        shutdown.has_telemetry == workers.telemetry,
{
}

/// What a registry reads of a trace is what the part that the hash names holds of it.
pub proof fn law_call_reads(
    registry: &TraceRegistry,
    hash: u64,
    trace_id: TraceId,
    data: TracePropagationData,
    root: Option<SpanId>,
)
    requires
        call_ensures(
            TraceRegistry::get_trace_propagation_data_at,
            (registry, hash, trace_id),
            data,
        ),
        call_ensures(TraceRegistry::get_local_root_span_id_at, (registry, hash, trace_id), root),
    ensures
        ({
            let shard = registry@[hash as int % 64];
            let known = shard.traces.dom().contains(trace_id@);
            let trace = shard.traces[trace_id@];
            &&& known ==> data@ == trace.propagation_data
            &&& !known ==> data.sampling_decision.priority is None
                && data.sampling_decision.mechanism is None && data.origin is None
                && data.tags is None
            &&& root is Some <==> known && trace.local_root_span_id != ids::no_span()
            &&& root matches Some(id) ==> id@ == trace.local_root_span_id
        }),
{
}

/// A new registry has sixty-four parts that know nothing, and hands out parts of traces as configured.
pub proof fn law_call_new_registry(config: Arc<Config>, registry: TraceRegistry, part: int)
    requires
        call_ensures(TraceRegistry::new, (config,), registry),
        0 <= part < 64,
    ensures
        registry@.len() == 64,
        registry@[part].traces.dom() == Set::<Seq<u8>>::empty(),
        registry@[part].partial_flush.enabled == config.trace_partial_flush_enabled,
        registry@[part].partial_flush.min_spans == config.trace_partial_flush_min_spans,
        registry@[part].metrics.spans_created == 0,
        registry@[part].metrics.trace_segments_created == 0,
{
}

/// A new exporter keeps ten thousand spans at most before it drops more, starts with nothing waiting
/// and with a resource without attributes, and sets the connection up as configured.
pub proof fn law_call_new_exporter(config: Arc<Config>, now: u128, parts: ExporterParts)
    requires
        call_ensures(DatadogExporter::new, (config, now), parts),
    ensures
        parts.waiter@.state.batch.max_buffered_spans == 10_000,
        parts.waiter@.state.batch.chunks.len() == 0,
        parts.waiter@.state.batch.span_count == 0,
        parts.waiter@.state.batch.last_flush == now,
        parts.waiter@.state.batch.main_service == config.service@,
        !parts.waiter@.state.flush_needed,
        !parts.waiter@.state.shutdown_needed,
        !parts.waiter@.state.has_shutdown,
        !parts.waiter@.poisoned,
        parts.settings@.url == config.trace_agent_url@,
        parts.settings@.service == config.service@,
        parts.settings@.client_computed_top_level == config.trace_partial_flush_enabled,
        dd_resource::resource_attributes(parts.worker.otel_resource).dom() == Set::<
            Seq<char>,
        >::empty(),
{
}

/// What a call that joined the thread returns and logs: its own result where the thread ended as it
/// should. A failure of the thread is logged, and nothing else is.
pub proof fn law_call_join(
    exporter: &DatadogExporter,
    outcome: JoinOutcome,
    otherwise: Result<(), OTelSdkError>,
    joined: Joined,
)
    requires
        call_ensures(DatadogExporter::join, (exporter, outcome, otherwise), joined),
    ensures
        outcome is Ended ==> errors::failure(joined.result) == errors::failure(otherwise),
        !(outcome is Ended) ==> joined.result is Err,
        outcome is AlreadyJoined ==> errors::failure(joined.result) == Some(
            ErrorView::AlreadyShutdown,
        ),
        joined.log is Some <==> outcome is Failed,
        outcome matches JoinOutcome::Failed {
            error: TraceExporterError::ShutdownTimedOut(nanos),
            written: _,
        } ==> errors::failure(joined.result) == Some(ErrorView::Timeout(nanos)),
{
    exporter_laws::law_result_after_joining(outcome, errors::failure(otherwise));
}

/// A failure to send spans is logged, and only a connection that cannot be set up and a wrong state as
/// errors; an answer is handed on where it is new and somebody listens.
pub proof fn law_call_export_trace_chunks(
    thread: &TraceExporterWorker,
    sent: Result<AgentResponse, TraceExporterError>,
    has_handler: bool,
    after: AfterSend,
)
    requires
        call_ensures(TraceExporterWorker::export_trace_chunks, (thread, sent, has_handler), after),
    ensures
        after.log is Some <==> sent is Err,
        after.handed_on is Some <==> has_handler && (sent matches Ok(response)
            && response is Changed),
        sent matches Ok(AgentResponse::Changed { body }) ==> (after.handed_on matches Some(handed)
            ==> handed@ == body@),
        sent matches Err(error) ==> (after.log matches Some(line) && (line.level == LogLevel::Error
            <==> error is Builder || error is InvalidWorkerState)),
{
    if let Err(error) = sent {
        exporter_laws::law_failures_are_logged(error);
    }
}

/// What is told of a span: its own identifiers, the root that is known or else the span itself, and the
/// route that was given.
pub proof fn law_call_extract<'a>(
    context: &SpanContext,
    root: Option<SpanId>,
    route: Option<&'a str>,
    data: ExtractedSpanData<'a>,
)
    requires
        call_ensures(context_labels::extract, (context, root, route), data),
    ensures
        data.trace_id@ == context.trace_id@,
        data.span_id@ == context.span_id@,
        root matches Some(id) ==> data.local_root_span_id@ == id@,
        root is None ==> data.local_root_span_id@ == context.span_id@,
        data.http_route == route,
{
}

/// The call that a writer gets when the context changes: labels are written for a valid and sampled
/// span, with its own identifiers, and cleared otherwise.
pub proof fn law_call_label_call<'a>(
    registry: &'a TraceRegistry,
    hash: u64,
    to: Option<SpanContext>,
    call: LabelCall<'a>,
)
    requires
        call_ensures(context_labels::label_call_at, (registry, hash, to), call),
    ensures
        call is Clear <==> !(to matches Some(context) && processor_laws::has_identifiers(context)
            && context.trace_flags % 2 == 1),
        call matches LabelCall::Write(data) ==> {
            let shard = registry@[hash as int % 64];
            let known = shard.traces.dom().contains(to->0.trace_id@);
            let trace = shard.traces[to->0.trace_id@];
            &&& data.trace_id@ == to->0.trace_id@
            &&& data.span_id@ == to->0.span_id@
            &&& data.local_root_span_id@ == if known && trace.local_root_span_id
                != ids::no_span() {
                trace.local_root_span_id
            } else {
                to->0.span_id@
            }
            &&& registry::opt_str(data.http_route) == if known
                && trace.active_spans.dom().contains(to->0.span_id@) {
                trace.active_spans[to->0.span_id@]
            } else {
                None
            }
        },
{
    context_labels::law_which_labels_are_written(registry@[hash as int % 64], to);
}

/// What is written for a span, where a set of labels is present: its identifiers by name and in the
/// record, and the fixed text in the last attribute of the record. Nothing is written otherwise.
pub proof fn law_call_write_labels<'a>(
    writer: &CustomLabelsWriter,
    data: &ExtractedSpanData<'a>,
    labelset: LabelsetState,
    plan: Option<LabelPlan<'a>>,
)
    requires
        call_ensures(CustomLabelsWriter::write_labels, (writer, data, labelset), plan),
    ensures
        plan is Some <==> labelset is Present,
        plan matches Some(plan) ==> {
            let named = custom_labels_writer::labels_view(plan.labels@);
            let attributes = custom_labels_writer::attributes_view(plan.record_attributes@);
            &&& plan.record_key@ == data.span_id@
            &&& plan.record_trace_id@ == data.trace_id@
            &&& plan.record_span_id@ == data.span_id@
            &&& plan.record_local_root_span_id@ == data.local_root_span_id@
            &&& named[0] == ("trace_id"@, LabelValueView::TraceId(data.trace_id@))
            &&& named[1] == ("span_id"@, LabelValueView::SpanId(data.span_id@))
            &&& named[2] == (
                "local_root_span_id"@,
                LabelValueView::SpanId(data.local_root_span_id@),
            )
            &&& data.http_route matches Some(route) ==> {
                &&& named[3] == ("http_route"@, LabelValueView::Text(route@))
                &&& attributes[0] == (writer.http_route_key(), route@)
            }
            &&& attributes.last() == (writer.some_custom_field_key(), "123abc"@)
        },
{
    custom_labels_writer::law_labels_by_name(data@);
    custom_labels_writer::law_attributes_by_index(
        writer.http_route_key(),
        writer.some_custom_field_key(),
        data@,
    );
}

/// What is cleared: the record always, and the four labels where there is a set of them.
pub proof fn law_call_clear_labels(writer: &CustomLabelsWriter, has_labelset: bool, plan: ClearPlan)
    requires
        call_ensures(CustomLabelsWriter::clear_labels, (writer, has_labelset), plan),
    ensures
        plan.clear_record,
        !has_labelset ==> plan.delete@.len() == 0,
        has_labelset ==> {
            &&& plan.delete@.len() == 4
            &&& plan.delete@[0]@ == "trace_id"@
            &&& plan.delete@[1]@ == "span_id"@
            &&& plan.delete@[2]@ == "local_root_span_id"@
            &&& plan.delete@[3]@ == "http_route"@
        },
{
    let names = custom_labels_writer::names_view(plan.delete@);
    assert(names.len() == plan.delete@.len());
    if has_labelset {
        assert(names[0] == plan.delete@[0]@);
        assert(names[1] == plan.delete@[1]@);
        assert(names[2] == plan.delete@[2]@);
        assert(names[3] == plan.delete@[3]@);
    }
}

/// What is logged when labels are cleared says so, whatever was written before.
pub proof fn law_call_log_cleared(writer: &LoggingContextWriter, line: LogLine)
    requires
        call_ensures(LoggingContextWriter::clear_labels, (writer,), line),
    ensures
        line.level == LogLevel::Debug,
        line.message@ == "trace context cleared"@,
{
}

/// A shutdown that begins may take as long as it was given from then on.
pub proof fn law_call_new_shutdown(
    timeout: u128,
    now: u128,
    has_remote_config: bool,
    has_telemetry: bool,
    shutdown: Shutdown,
)
    requires
        now + timeout <= u128::MAX,
        call_ensures(Shutdown::new, (timeout, now, has_remote_config, has_telemetry), shutdown),
    ensures
        shutdown.timeout == timeout,
        shutdown.deadline == now + timeout,
        shutdown.has_remote_config == has_remote_config,
        shutdown.has_telemetry == has_telemetry,
{
}

/// After all tasks were told to stop, the one that sends spans is waited for, until the deadline.
pub proof fn law_call_after_stop(shutdown: &Shutdown, now: u128, step: ShutdownStep)
    requires
        call_ensures(Shutdown::after_stop, (shutdown, now), step),
    ensures
        step matches ShutdownStep::Wait(worker, left) && worker == Worker::Exporter && (now
            <= shutdown.deadline ==> now + left == shutdown.deadline) && (now > shutdown.deadline
            ==> left == 0),
{
}

/// Each limit that holds is the one that was chosen for it, or else that of the SDK.
pub proof fn law_call_resolve(chosen: &ChosenLimits, defaults: SpanLimits, limits: SpanLimits)
    requires
        call_ensures(ChosenLimits::resolve, (chosen, defaults), limits),
    ensures
        chosen.max_events_per_span matches Some(n) ==> limits.max_events_per_span == n,
        chosen.max_attributes_per_span matches Some(n) ==> limits.max_attributes_per_span == n,
        chosen.max_links_per_span matches Some(n) ==> limits.max_links_per_span == n,
        chosen.max_attributes_per_event matches Some(n) ==> limits.max_attributes_per_event == n,
        chosen.max_attributes_per_link matches Some(n) ==> limits.max_attributes_per_link == n,
        chosen.max_events_per_span is None ==> limits.max_events_per_span
            == defaults.max_events_per_span,
        chosen.max_attributes_per_span is None ==> limits.max_attributes_per_span
            == defaults.max_attributes_per_span,
        chosen.max_links_per_span is None ==> limits.max_links_per_span
            == defaults.max_links_per_span,
        chosen.max_attributes_per_event is None ==> limits.max_attributes_per_event
            == defaults.max_attributes_per_event,
        chosen.max_attributes_per_link is None ==> limits.max_attributes_per_link
            == defaults.max_attributes_per_link,
{
}

/// What was given to the builder is what is installed: the configuration, and the writer of labels.
pub proof fn law_call_init(
    options: DatadogTracingBuilder,
    default_config: Config,
    detected: Resource,
    installed: (TracerSetup, Option<ContextLabelWriterType>),
)
    requires
        call_ensures(DatadogTracingBuilder::init, (options, default_config, detected), installed),
    ensures
        options.config matches Some(config) ==> *installed.0.config == config,
        options.config is None ==> *installed.0.config == default_config,
        installed.0.span_processor is Some <==> installed.0.config.enabled,
        installed.0.takes_sampling_rules == installed.0.config.remote_config_enabled,
        installed.1 == options.context_label_writer,
        options.resource matches Some(resource) ==> dd_resource::resource_schema_url(
            installed.0.resource,
        ) == dd_resource::resource_schema_url(resource),
        options.resource is None ==> dd_resource::resource_schema_url(installed.0.resource)
            == dd_resource::resource_schema_url(detected),
{
}

/// The two sides of a hand-over begin with nothing waiting, the limits that were given, and the name of
/// the service that is configured.
pub proof fn law_call_channel(
    flush_trigger: usize,
    max_spans: usize,
    config: Arc<Config>,
    now: u128,
    ends: (Sender, Receiver, Waiter),
)
    requires
        call_ensures(channel::channel, (flush_trigger, max_spans, config, now), ends),
    ensures
        channel::flush_trigger(ends.0) == flush_trigger,
        ends.2@.state.batch.max_buffered_spans == max_spans,
        ends.2@.state.batch.span_count == 0,
        ends.2@.state.batch.last_flush == now,
        ends.2@.state.batch.main_service == config.service@,
{
}

/// An attribute with a text has the key and the text that it was made with.
pub proof fn law_call_text_attribute(key: &str, text: &str, attribute: KeyValue)
    requires
        call_ensures(KeyValue::text, (key, text), attribute),
    ensures
        attribute.key@ == key@,
        attribute.value matches value::Value::String(given) && given@ == text@,
{
}

/// What a step of a shutdown is after the task that sends spans: the next task that there is, or the end
/// with what went wrong.
pub proof fn law_call_after_exporter(
    shutdown: &Shutdown,
    result: Result<(), OTelSdkError>,
    now: u128,
    step: ShutdownStep,
)
    requires
        call_ensures(Shutdown::after_exporter, (shutdown, result, now), step),
    ensures
        result is Err ==> step matches ShutdownStep::Done(Err(_)),
        result is Ok && shutdown.has_remote_config ==> step matches ShutdownStep::Wait(
            Worker::RemoteConfig,
            _,
        ),
        result is Ok && !shutdown.has_remote_config && shutdown.has_telemetry
            ==> step matches ShutdownStep::Wait(Worker::Telemetry, _),
        result is Ok && !shutdown.has_remote_config && !shutdown.has_telemetry
            ==> step matches ShutdownStep::Done(Ok(_)),
        step matches ShutdownStep::Wait(_, left) ==> (now <= shutdown.deadline ==> now + left
            == shutdown.deadline),
        result matches Err(OTelSdkError::Timeout(_)) ==> step@ == StepView::Done(
            Some(ErrorView::Timeout(shutdown.timeout)),
        ),
{
}

/// What a step of a shutdown is after the task that fetches configuration, and how it ends after the
/// one that collects metrics.
pub proof fn law_call_after_other_tasks(
    shutdown: &Shutdown,
    result: Result<(), WorkerError>,
    now: u128,
    step: ShutdownStep,
    last: ShutdownStep,
)
    requires
        call_ensures(Shutdown::after_remote_config, (shutdown, result, now), step),
        call_ensures(Shutdown::after_telemetry, (shutdown, result), last),
    ensures
        result is Err ==> step matches ShutdownStep::Done(Err(_)),
        result is Ok && shutdown.has_telemetry ==> step matches ShutdownStep::Wait(
            Worker::Telemetry,
            _,
        ),
        result is Ok && !shutdown.has_telemetry ==> step matches ShutdownStep::Done(Ok(_)),
        step matches ShutdownStep::Wait(_, left) ==> (now <= shutdown.deadline ==> now + left
            == shutdown.deadline),
        result is Err ==> last matches ShutdownStep::Done(Err(_)),
        result is Ok ==> last matches ShutdownStep::Done(Ok(_)),
        result matches Err(WorkerError::ShutdownTimedOut) ==> {
            &&& step@ == StepView::Done(Some(ErrorView::Timeout(shutdown.timeout)))
            &&& last@ == StepView::Done(Some(ErrorView::Timeout(shutdown.timeout)))
        },
        result matches Err(WorkerError::Failed(message)) ==> {
            &&& step@ == StepView::Done(
                Some(
                    ErrorView::InternalFailure(
                        "RemoteConfigClient.shutdown_with_timeout: "@ + message@,
                    ),
                ),
            )
            &&& last@ == StepView::Done(
                Some(
                    ErrorView::InternalFailure(
                        "TelemetryMetricsCollector.shutdown_with_timeout: "@ + message@,
                    ),
                ),
            )
        },
{
}

/// What the thread does with a message: it sends the spans that came with it, takes a resource over, and
/// stops where it was told to or can get no message.
pub proof fn law_call_run(
    thread: &TraceExporterWorker,
    received: Result<(TraceExporterMessage, Vec<TraceChunk>), MutexPoisonedError>,
    step: WorkerStep,
)
    requires
        call_ensures(TraceExporterWorker::run, (thread, received), step),
    ensures
        step.stop <==> (received is Err || received->Ok_0.0 is Shutdown),
        received is Err ==> step.send is None && step.resource is None,
        received matches Ok((message, chunks)) ==> {
            &&& step.send is Some <==> chunks@.len() > 0
            &&& step.send matches Some(sent) ==> batch::chunks_view(sent@) == batch::chunks_view(
                chunks@,
            )
            &&& message matches TraceExporterMessage::SetResource { resource } ==> step.resource
                == Some(resource)
            &&& !(message is SetResource) ==> step.resource is None
        },
{
    if let Ok((message, chunks)) = received {
        let given = batch::chunks_view(chunks@);
        exporter_laws::law_what_the_thread_does(message, given);
        assert(given.len() == chunks@.len());
        assert(step.send is Some <==> step@.send is Some);
    }
}

/// A wait for the thread to stop is over at once where no time is given, and joins the thread where it
/// has stopped.
pub proof fn law_call_wait_for_shutdown(
    exporter: &DatadogExporter,
    waiter: &Waiter,
    timeout: u128,
    now: u128,
    step: ExporterStep,
)
    requires
        now + timeout <= u128::MAX,
        call_ensures(DatadogExporter::wait_for_shutdown, (exporter, waiter, timeout, now), step),
    ensures
        timeout == 0 ==> step@ == ExporterStepView::Done(Some(ErrorView::Timeout(0))),
        timeout > 0 && (waiter@.poisoned || waiter@.state.has_shutdown) ==> step@ == (
        ExporterStepView::Join { otherwise: None }),
        timeout > 0 && !waiter@.poisoned && !waiter@.state.has_shutdown ==> step@ == (
        ExporterStepView::Wait { left: timeout, deadline: (now + timeout) as u128 }),
{
}

/// Woken while it waits for the thread to stop, a call joins the thread where it has stopped or the lock
/// is poisoned, ends with its timeout where the time is over, and waits for the rest otherwise.
pub proof fn law_call_wait_for_shutdown_woken(
    exporter: &DatadogExporter,
    waiter: &Waiter,
    timeout: u128,
    deadline: u128,
    wake: Wake,
    now: u128,
    step: ExporterStep,
)
    requires
        call_ensures(
            DatadogExporter::wait_for_shutdown_woken,
            (exporter, waiter, timeout, deadline, wake, now),
            step,
        ),
    ensures
        wake is Poisoned || wake is Notified && waiter@.state.has_shutdown ==> step@ == (
        ExporterStepView::Join { otherwise: None }),
        wake is TimedOut ==> step@ == ExporterStepView::Done(Some(ErrorView::Timeout(timeout))),
        wake is Notified && !waiter@.state.has_shutdown ==> (step@ matches ExporterStepView::Wait {
            left,
            deadline: until,
        } && until == deadline && (now <= deadline ==> now + left == deadline)),
{
}

/// An option that is set has the value that was given, and every other option stays.
pub proof fn law_call_set_options(
    options: DatadogTracingBuilder,
    config: Config,
    resource: Resource,
    writer: ContextLabelWriterType,
    with_config: DatadogTracingBuilder,
    with_resource: DatadogTracingBuilder,
    with_labels: DatadogTracingBuilder,
)
    requires
        call_ensures(DatadogTracingBuilder::with_config, (options, config), with_config),
        call_ensures(DatadogTracingBuilder::with_resource, (options, resource), with_resource),
        call_ensures(DatadogTracingBuilder::with_context_labels, (options, writer), with_labels),
    ensures
        with_config.config == Some(config),
        with_config.resource == options.resource,
        with_config.limits == options.limits,
        with_config.context_label_writer == options.context_label_writer,
        with_resource.resource == Some(resource),
        with_resource.config == options.config,
        with_resource.limits == options.limits,
        with_resource.context_label_writer == options.context_label_writer,
        with_labels.context_label_writer == Some(writer),
        with_labels.config == options.config,
        with_labels.resource == options.resource,
        with_labels.limits == options.limits,
{
}

/// A limit that is set is the one that holds, whatever the limits of the SDK are, and every other limit
/// stays as it was chosen.
pub proof fn law_call_set_limits(
    options: DatadogTracingBuilder,
    n: u32,
    events: DatadogTracingBuilder,
    attributes: DatadogTracingBuilder,
    links: DatadogTracingBuilder,
    of_events: DatadogTracingBuilder,
    of_links: DatadogTracingBuilder,
)
    requires
        call_ensures(DatadogTracingBuilder::with_max_events_per_span, (options, n), events),
        call_ensures(DatadogTracingBuilder::with_max_attributes_per_span, (options, n), attributes),
        call_ensures(DatadogTracingBuilder::with_max_links_per_span, (options, n), links),
        call_ensures(DatadogTracingBuilder::with_max_attributes_per_event, (options, n), of_events),
        call_ensures(DatadogTracingBuilder::with_max_attributes_per_link, (options, n), of_links),
    ensures
        events.limits == (ChosenLimits { max_events_per_span: Some(n), ..options.limits }),
        attributes.limits == (ChosenLimits { max_attributes_per_span: Some(n), ..options.limits }),
        links.limits == (ChosenLimits { max_links_per_span: Some(n), ..options.limits }),
        of_events.limits == (ChosenLimits { max_attributes_per_event: Some(n), ..options.limits }),
        of_links.limits == (ChosenLimits { max_attributes_per_link: Some(n), ..options.limits }),
        events.config == options.config,
        attributes.config == options.config,
        links.config == options.config,
        of_events.config == options.config,
        of_links.config == options.config,
        events.resource == options.resource,
        attributes.resource == options.resource,
        links.resource == options.resource,
        of_events.resource == options.resource,
        of_links.resource == options.resource,
{
}

/// Limits that are set all at once are the ones that hold, whatever the limits of the SDK are.
pub proof fn law_call_set_all_limits(
    options: DatadogTracingBuilder,
    given: SpanLimits,
    set: DatadogTracingBuilder,
    defaults: SpanLimits,
    limits: SpanLimits,
)
    requires
        call_ensures(DatadogTracingBuilder::with_span_limits, (options, given), set),
        call_ensures(ChosenLimits::resolve, (&set.limits, defaults), limits),
    ensures
        limits == given,
        set.config == options.config,
        set.resource == options.resource,
        set.context_label_writer == options.context_label_writer,
{
}

/// Before any option was chosen there is no configuration, no resource and no writer of labels, and the
/// limits of the SDK hold.
pub proof fn law_call_no_options(
    options: DatadogTracingBuilder,
    defaults: SpanLimits,
    limits: SpanLimits,
)
    requires
        call_ensures(builder::tracing, (), options),
        call_ensures(ChosenLimits::resolve, (&options.limits, defaults), limits),
    ensures
        options.config is None,
        options.resource is None,
        options.context_label_writer is None,
        limits == defaults,
{
}

/// What is installed for a configuration: the processor exactly where tracing is enabled, and the
/// resource that was given, or else the one that was detected, with the configured environment unless
/// it has one.
pub proof fn law_call_make_tracer(
    config: Arc<Config>,
    resource: Option<Resource>,
    detected: Resource,
    setup: TracerSetup,
)
    requires
        call_ensures(builder::make_tracer, (config, resource, detected), setup),
    ensures
        ({
            let base = match resource {
                Some(resource) => resource,
                None => detected,
            };
            let given = dd_resource::resource_attributes(base);
            let completed = dd_resource::resource_attributes(setup.resource);
            let env_key = "deployment.environment.name"@;
            &&& *setup.config == *config
            &&& setup.span_processor is Some <==> config.enabled
            &&& setup.takes_sampling_rules == config.remote_config_enabled
            &&& config.env matches Some(env) ==> completed.contains_pair(
                env_key,
                if given.dom().contains(env_key) {
                    given[env_key]
                } else {
                    ValueView::String(env@)
                },
            )
            &&& completed.dom().contains("service.name"@)
            &&& dd_resource::resource_schema_url(setup.resource)
                == dd_resource::resource_schema_url(base)
        }),
{
    let base = match resource {
        Some(resource) => resource,
        None => detected,
    };
    let given = dd_resource::resource_attributes(base);
    dd_resource::law_environment_is_completed(given, &config);
    dd_resource::law_whose_name_stands(given, &config);
}

/// A context is valid where neither identifier is all zeros, and sampled where its flags are odd.
pub proof fn law_call_valid_and_sampled(context: &SpanContext, valid: bool, sampled: bool)
    requires
        call_ensures(SpanContext::is_valid, (context,), valid),
        call_ensures(SpanContext::is_sampled, (context,), sampled),
    ensures
        valid == processor_laws::has_identifiers(*context),
        sampled == (context.trace_flags % 2 == 1),
{
    span::law_valid_and_sampled_contexts(*context);
}

/// A number is written in decimal so that it can be read back, and bytes with two characters each.
pub proof fn law_call_notations(n: u128, decimal: String, bytes: &[u8], hex: String, i: int)
    requires
        call_ensures(text::decimal, (n,), decimal),
        call_ensures(text::hex, (bytes,), hex),
        0 <= i < bytes@.len(),
    ensures
        text::decimal_read(decimal@) == n,
        hex@.len() == 2 * bytes@.len(),
        16 * text::digit_read(hex@[2 * i]) + text::digit_read(hex@[2 * i + 1]) == bytes@[i],
{
    text::law_decimal_is_read_back(n as nat);
    text::law_hex_is_read_back(bytes@, i);
}

/// A value that is a text, a boolean or an integer is displayed and read as that.
pub proof fn law_call_texts_of_values(value: &value::Value, shown: String, read: String)
    requires
        call_ensures(value::Value::display, (value,), shown),
        call_ensures(value::Value::as_str, (value,), read),
    ensures
        value matches value::Value::String(text) ==> shown@ == text@ && read@ == text@,
        value matches value::Value::Bool(b) ==> shown@ == read@ && shown@ == if *b {
            "true"@
        } else {
            "false"@
        },
        value matches value::Value::I64(n) ==> value::int_read(shown@) == n && value::int_read(
            read@,
        ) == n,
{
    if let value::Value::I64(n) = value {
        value::law_integers_are_read_back(*n);
    }
}

/// The service name of a resource is the text of its attribute `service.name`.
pub proof fn law_call_service_name(resource: &Resource, name: Option<String>)
    requires
        call_ensures(dd_resource::service_name, (resource,), name),
    ensures
        ({
            let attributes = dd_resource::resource_attributes(*resource);
            &&& name is Some <==> attributes.dom().contains("service.name"@)
            &&& name matches Some(text) ==> text@ == value::str_text(attributes["service.name"@])
        }),
{
}

/// What is logged of a failure: its kind, and then the text that came with it.
pub proof fn law_call_log_failure(error: &TraceExporterError, line: LogLine)
    requires
        call_ensures(worker::log_trace_exporter_error, (error,), line),
    ensures
        line.level == LogLevel::Error <==> error is Builder || error is InvalidWorkerState,
        exporter_laws::detail_of(*error) matches Some(detail) ==> line.message@
            == exporter_laws::kind_of(*error) + detail,
{
    exporter_laws::law_failures_are_logged(*error);
}

/// What is logged of labels names the trace, the span and the root, in base sixteen.
pub proof fn law_call_log_labels<'a>(
    writer: &LoggingContextWriter,
    data: &ExtractedSpanData<'a>,
    line: LogLine,
)
    requires
        call_ensures(LoggingContextWriter::write_labels, (writer, data), line),
    ensures
        line.level == LogLevel::Debug,
        data.http_route is None ==> line.message@ == "trace context entered: trace_id="@
            + text::hex_chars(data.trace_id@) + (", span_id="@ + text::hex_chars(data.span_id@)) + (
        ", local_root_span_id="@ + text::hex_chars(data.local_root_span_id@)),
{
    context_labels::law_what_is_logged_of_labels(data@);
}

/// A failure of the hand-over is written by its name, and one that says how many spans were dropped with
/// that number.
pub proof fn law_call_error_text(error: SenderError, written: String)
    requires
        call_ensures(exporter::error_text, (error,), written),
    ensures
        error is AlreadyShutdown ==> written@ == "AlreadyShutdown"@,
        error is TimedOut ==> written@ == "TimedOut"@,
        error is MutexPoisoned ==> written@ == "MutexPoisoned"@,
        error matches SenderError::BatchFull(full) ==> exists|digits: Seq<char>|
            {
                &&& written@ == "BatchFull(BatchFullError { spans_dropped: "@ + digits + " })"@
                &&& #[trigger] text::decimal_read(digits) == full.spans_dropped
            },
{
    exporter_laws::law_errors_are_named(error);
}

/// The span whose labels are written is the one in the context, where it is valid and sampled.
pub proof fn law_call_labelled_span(context: Option<SpanContext>, labelled: Option<SpanContext>)
    requires
        call_ensures(context_labels::labelled_span, (context,), labelled),
    ensures
        labelled is Some <==> (context matches Some(given) && processor_laws::has_identifiers(given)
            && given.trace_flags % 2 == 1),
        labelled is Some ==> labelled == context,
{
    if let Some(given) = context {
        span::law_valid_and_sampled_contexts(given);
    }
}

/// The value that is found is that of the first attribute with one of the keys.
pub proof fn law_call_find_value(
    attributes: &Vec<KeyValue>,
    key: &str,
    other_key: &str,
    found: Option<&value::Value>,
    first: int,
)
    requires
        call_ensures(value::find_value, (attributes, key, other_key), found),
        0 <= first <= attributes@.len(),
        forall|i: int|
            0 <= i < first ==> (#[trigger] attributes@[i]).key@ != key@ && attributes@[i].key@
                != other_key@,
        first < attributes@.len() ==> attributes@[first].key@ == key@ || attributes@[first].key@
            == other_key@,
    ensures
        found is Some <==> first < attributes@.len(),
        found matches Some(value) ==> value@ == attributes@[first].value@,
{
    let all = value::attributes_view(attributes@);
    assert forall|i: int| 0 <= i < first implies (#[trigger] all[i]).key != key@ && all[i].key
        != other_key@ by {
        assert(attributes@[i].key@ != key@);
    }
    if first < attributes@.len() {
        assert(all[first] == attributes@[first]@);
    }
    value::law_first_value_is_found(all, key@, other_key@, first);
}

/// A registry has room for a span where no number of any part has reached the largest one.
pub proof fn law_call_registry_has_room(
    registry: &TraceRegistry,
    trace_id: TraceId,
    room: bool,
    part: int,
)
    requires
        call_ensures(TraceRegistry::has_room, (registry, trace_id), room),
        0 <= part < registry@.len(),
    ensures
        room ==> {
            let shard = registry@[part];
            &&& shard.metrics.spans_created < usize::MAX
            &&& shard.metrics.spans_finished < usize::MAX
            &&& shard.metrics.trace_segments_created < usize::MAX
            &&& shard.metrics.trace_segments_closed < usize::MAX
            &&& shard.metrics.trace_partial_flush_count < usize::MAX
            &&& shard.traces.dom().contains(trace_id@)
                ==> shard.traces[trace_id@].open_span_count < usize::MAX
        },
        !room ==> exists|other: int|
            {
                let shard = #[trigger] registry@[other];
                &&& 0 <= other < registry@.len()
                &&& shard.metrics.spans_created >= usize::MAX || shard.metrics.spans_finished
                    >= usize::MAX || shard.metrics.trace_segments_created >= usize::MAX
                    || shard.metrics.trace_segments_closed >= usize::MAX
                    || shard.metrics.trace_partial_flush_count >= usize::MAX
                    || shard.traces.dom().contains(trace_id@)
                    && shard.traces[trace_id@].open_span_count >= usize::MAX
            },
{
}

/// The hash names the part that is its remainder by the number of parts.
pub proof fn law_call_shard_index(hash: u64, index: usize)
    requires
        call_ensures(registry::shard_index, (hash,), index),
    ensures
        index == hash as int % 64,
{
}

} // verus!
