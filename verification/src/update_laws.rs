//! What calls change and return, in terms of what they are given and of what was there before. Each law
//! speaks of every way in which a call can end.

use crate::active_spans::ActiveSpanMetadata;
use crate::batch::{self, Batch, BatchFullError, TraceChunk};
use crate::channel::{
    self, MutexPoisonedError, QueueMetrics, QueueMetricsFetcher, ReceiveStep, Receiver, Sender,
    SenderError, Waiter,
};
use crate::channel_field_laws;
use crate::exporter::{
    DatadogExporter, ExporterStep, ExporterStepView, JoinOutcome, TraceExporterHandle,
};
use crate::exporter_laws;
use crate::ids::{self, SpanId, TraceId};
use crate::processor_laws;
use crate::propagation;
use crate::registry::{self, RegisterTracePropagationResult, TraceRegistry, TraceRegistryMetrics};
use crate::registry_field_laws;
use crate::sampling::{self, Tags, TracePropagationData};
use crate::span::{self, FinishedSpan};
use crate::span_processor::{self, DatadogSpanProcessor, StartKind, StartedSpan};
use crate::traces::Trace;
use crate::value::{self, ValueView};
use crate::worker::TraceExporterWorker;
use opentelemetry_sdk::Resource;
use vstd::prelude::*;

verus! {

/// After a span with a remote parent or with none has started, its trace is known, with the root that
/// it had or else with this span.
pub proof fn law_call_on_start_of_a_root(
    processor: &DatadogSpanProcessor,
    registry: &mut TraceRegistry,
    hash: u64,
    started: &StartedSpan,
    kind: StartKind,
)
    requires
        old(registry)@.len() == 64,
        call_ensures(
            DatadogSpanProcessor::on_start_at,
            (processor, registry, hash, started),
            kind,
        ),
        processor.config.enabled,
        started.is_recording,
        processor_laws::has_identifiers(started.span_context),
        started.parent_is_remote || !started.parent_has_active_span,
    ensures
        ({
            let id = started.span_context.trace_id@;
            let before = old(registry)@[hash as int % 64];
            let after = final(registry)@[hash as int % 64];
            &&& after.traces.dom().contains(id)
            &&& registry::root_of(after, id) == if registry::root_of(before, id) is Some {
                registry::root_of(before, id)
            } else {
                Some(started.span_context.span_id@)
            }
            &&& after.traces[id].active_spans.dom().contains(started.span_context.span_id@)
            &&& after.metrics == before.metrics
            &&& kind == if started.parent_is_remote {
                StartKind::RemoteRoot
            } else {
                StartKind::LocalRoot
            }
        }),
{
    let shards = old(registry)@;
    processor_laws::law_started_root_is_known(shards, hash, *started);
    processor_laws::law_kinds_of_starts(true, *started);
    span::law_valid_and_sampled_contexts(started.span_context);
}

/// After a span with a parent in this service has started, its trace is known and has one more open
/// span. A span that is not looked at changes nothing.
pub proof fn law_call_on_start_of_a_child(
    processor: &DatadogSpanProcessor,
    registry: &mut TraceRegistry,
    hash: u64,
    started: &StartedSpan,
    kind: StartKind,
)
    requires
        old(registry)@.len() == 64,
        call_ensures(
            DatadogSpanProcessor::on_start_at,
            (processor, registry, hash, started),
            kind,
        ),
    ensures
        ({
            let id = started.span_context.trace_id@;
            let counts = processor.config.enabled && started.is_recording
                && processor_laws::has_identifiers(started.span_context);
            let before = old(registry)@[hash as int % 64];
            let after = final(registry)@[hash as int % 64];
            &&& !counts ==> final(registry)@ == old(registry)@
            &&& counts && !started.parent_is_remote && started.parent_has_active_span ==> {
                &&& after.traces.dom().contains(id)
                &&& after.traces[id].open_span_count == 1 + if before.traces.dom().contains(id) {
                    before.traces[id].open_span_count
                } else {
                    0
                }
                &&& after.metrics.spans_created == before.metrics.spans_created + 1
            }
        }),
{
    let shards = old(registry)@;
    let enabled = processor.config.enabled;
    if enabled && started.is_recording && processor_laws::has_identifiers(started.span_context) {
        if !started.parent_is_remote && started.parent_has_active_span {
            processor_laws::law_started_child_is_open(shards, hash, *started);
        }
    } else {
        processor_laws::law_ignored_start_changes_nothing(shards, hash, enabled, *started);
    }
}

/// A span that ends is sent with the others of its trace once no span of the trace is open, and every
/// span that is sent then has the sampling priority of the trace. Nothing is sent while tracing is
/// disabled.
pub proof fn law_call_on_end(
    processor: &DatadogSpanProcessor,
    registry: &mut TraceRegistry,
    hash: u64,
    finished: FinishedSpan,
    sent: Option<Vec<FinishedSpan>>,
    i: int,
)
    requires
        old(registry)@.len() == 64,
        call_ensures(
            DatadogSpanProcessor::on_end_at,
            (processor, registry, hash, finished),
            sent,
        ),
    ensures
        ({
            let id = finished.span_context.trace_id@;
            let before = old(registry)@[hash as int % 64];
            let known = before.traces.dom().contains(id);
            let trace = before.traces[id];
            &&& sent is Some <==> processor.config.enabled && {
                ||| !known
                ||| trace.open_span_count <= 1
                ||| before.partial_flush.enabled && trace.finished_spans.len() + 1
                    >= before.partial_flush.min_spans
            }
            &&& sent matches Some(spans) ==> {
                &&& spans@.len() == 1 + if known {
                    trace.finished_spans.len()
                } else {
                    0
                }
                &&& known && 0 <= i < spans@.len() ==> (
                trace.propagation_data.sampling_decision.priority matches Some(priority) ==> exists|
                    j: int,
                |
                    {
                        &&& 0 <= j < spans@[i].attributes@.len()
                        &&& (#[trigger] spans@[i].attributes@[j]).key@ == "_sampling_priority_v1"@
                        &&& spans@[i].attributes@[j].value matches value::Value::I64(n) && n as int
                            == priority as int
                    })
            }
        }),
{
    let id = finished.span_context.trace_id@;
    let before = old(registry)@[hash as int % 64];
    let chunk = registry::flushed(before, id, finished@);
    let partial = processor.config.trace_partial_flush_enabled;
    registry_field_laws::law_when_spans_are_handed_out(before, id, finished@);
    if before.traces.dom().contains(id) {
        registry_field_laws::law_handed_out_trace_keeps_its_data(before, id, finished@);
        registry_field_laws::law_what_is_handed_out(before, id, finished@);
    } else {
        registry_field_laws::law_span_of_unknown_trace(before, id, finished@);
    }
    if let Some(spans) = sent {
        let trace = chunk->0;
        let all = span::spans_view(spans@);
        assert(span_processor::exported_spans(true, partial, chunk) == Some(all));
        processor_laws::law_attributes_of_sent_spans(partial, trace, 0);
        assert(all.len() == spans@.len());
        if before.traces.dom().contains(id) && 0 <= i < spans@.len() {
            if let Some(priority) = before.traces[id].propagation_data.sampling_decision.priority {
                processor_laws::law_priority_is_sent(partial, trace, priority, i);
                assert(all[i] == spans@[i]@);
                let j = choose|j: int|
                    {
                        &&& trace.finished_spans[i].attributes.len() <= j < all[i].attributes.len()
                        &&& (#[trigger] all[i].attributes[j]).key == "_sampling_priority_v1"@
                        &&& all[i].attributes[j].value matches ValueView::I64(n) && n as int
                            == priority as int
                    };
                assert(all[i].attributes[j] == spans@[i].attributes@[j]@);
                assert(spans@[i].attributes@[j].key@ == "_sampling_priority_v1"@);
            }
        }
    }
}

/// What is handed out of a known trace when a span finishes has the propagation data and the root of
/// the trace, all the spans that were kept and the one that has finished.
pub proof fn law_call_finish_span(
    registry: &mut TraceRegistry,
    hash: u64,
    trace_id: TraceId,
    finished: FinishedSpan,
    chunk: Option<Trace>,
)
    requires
        old(registry)@.len() == 64,
        call_ensures(
            TraceRegistry::finish_span_at,
            (registry, hash, trace_id, finished),
            chunk,
        ),
        old(registry)@[hash as int % 64].traces.dom().contains(trace_id@),
    ensures
        ({
            let before = old(registry)@[hash as int % 64].traces[trace_id@];
            let shard = final(registry)@[hash as int % 64];
            &&& chunk matches Some(trace) ==> {
                &&& trace@.propagation_data == before.propagation_data
                &&& trace@.local_root_span_id == before.local_root_span_id
                &&& trace@.finished_spans.len() == before.finished_spans.len() + 1
                &&& trace@.finished_spans.contains(finished@)
            }
            &&& chunk is None ==> {
                &&& shard.traces.dom().contains(trace_id@)
                &&& shard.traces[trace_id@].finished_spans.contains(finished@)
                &&& shard.traces[trace_id@].open_span_count == before.open_span_count - 1
                &&& shard.traces[trace_id@].propagation_data == before.propagation_data
            }
            &&& shard.metrics.spans_finished == old(registry)@[hash as int
                % 64].metrics.spans_finished + 1
        }),
{
    let before = old(registry)@[hash as int % 64];
    registry_field_laws::law_handed_out_trace_keeps_its_data(before, trace_id@, finished@);
    registry_field_laws::law_what_is_handed_out(before, trace_id@, finished@);
    registry_field_laws::law_trace_after_finish(before, trace_id@, finished@);
    registry_field_laws::law_when_spans_are_handed_out(before, trace_id@, finished@);
    if let Some(trace) = chunk {
        let spans = trace@.finished_spans;
        let last: int = spans.len() - 1;
        assert(spans[0] == finished@ || spans[last] == finished@);
    }
}

/// Propagation data that is registered is what is read from then on, unless the trace has a decision,
/// which is then the answer.
pub proof fn law_call_register_propagation(
    registry: &mut TraceRegistry,
    hash: u64,
    trace_id: TraceId,
    data: TracePropagationData,
    result: RegisterTracePropagationResult,
)
    requires
        old(registry)@.len() == 64,
        call_ensures(
            TraceRegistry::register_local_root_trace_propagation_data_at,
            (registry, hash, trace_id, data),
            result,
        ),
    ensures
        ({
            let before = old(registry)@[hash as int % 64];
            let after = final(registry)@[hash as int % 64];
            let known = before.traces.dom().contains(trace_id@);
            let decision = before.traces[trace_id@].propagation_data.sampling_decision;
            if known && decision.priority is Some {
                &&& result matches RegisterTracePropagationResult::Existing(answer) && answer@
                    == decision
                &&& after.traces == before.traces
            } else {
                &&& result is New
                &&& after.traces.dom().contains(trace_id@)
                &&& after.traces[trace_id@].propagation_data == data@
                &&& after.traces[trace_id@].open_span_count == 1 + if known {
                    before.traces[trace_id@].open_span_count
                } else {
                    0
                }
            }
        }),
{
    let before = old(registry)@[hash as int % 64];
    registry_field_laws::law_propagation_is_registered(before, trace_id@, data@);
}

/// A root that is registered is the root of a trace that has none, and no span is opened in a known
/// trace.
pub proof fn law_call_register_root(
    registry: &mut TraceRegistry,
    hash: u64,
    trace_id: TraceId,
    root: SpanId,
)
    requires
        old(registry)@.len() == 64,
        call_ensures(
            TraceRegistry::register_local_root_span_at,
            (registry, hash, trace_id, root),
            (),
        ),
    ensures
        ({
            let before = old(registry)@[hash as int % 64];
            let after = final(registry)@[hash as int % 64];
            let known = before.traces.dom().contains(trace_id@);
            &&& after.traces.dom().contains(trace_id@)
            &&& after.traces[trace_id@].local_root_span_id == if known
                && before.traces[trace_id@].local_root_span_id != ids::no_span() {
                before.traces[trace_id@].local_root_span_id
            } else {
                root@
            }
            &&& known ==> after.traces[trace_id@].open_span_count
                == before.traces[trace_id@].open_span_count
            &&& known ==> after.traces[trace_id@].propagation_data
                == before.traces[trace_id@].propagation_data
            &&& after.metrics == before.metrics
        }),
{
    registry_field_laws::law_root_is_registered(
        old(registry)@[hash as int % 64],
        trace_id@,
        root@,
    );
}

/// A span that is registered is one more open span; it is the root of a new trace, and its data is the
/// data of that trace.
pub proof fn law_call_register_span(
    registry: &mut TraceRegistry,
    hash: u64,
    trace_id: TraceId,
    span_id: SpanId,
    data: TracePropagationData,
)
    requires
        old(registry)@.len() == 64,
        call_ensures(
            TraceRegistry::register_span_at,
            (registry, hash, trace_id, span_id, data),
            (),
        ),
    ensures
        ({
            let before = old(registry)@[hash as int % 64];
            let after = final(registry)@[hash as int % 64];
            let stored = after.traces[trace_id@];
            &&& after.traces.dom().contains(trace_id@)
            &&& after.metrics.spans_created == before.metrics.spans_created + 1
            &&& if before.traces.dom().contains(trace_id@) {
                &&& stored.open_span_count == before.traces[trace_id@].open_span_count + 1
                &&& stored.local_root_span_id == before.traces[trace_id@].local_root_span_id
                &&& stored.propagation_data == before.traces[trace_id@].propagation_data
                &&& stored.finished_spans == before.traces[trace_id@].finished_spans
            } else {
                &&& stored.open_span_count == 1
                &&& stored.local_root_span_id == span_id@
                &&& stored.propagation_data == data@
                &&& stored.finished_spans.len() == 0
            }
        }),
{
    registry_field_laws::law_span_is_registered(
        old(registry)@[hash as int % 64],
        trace_id@,
        span_id@,
        data@,
    );
}

/// Metadata that is stored for a span of a known trace is what is read of the span then.
pub proof fn law_call_set_metadata(
    registry: &mut TraceRegistry,
    hash: u64,
    trace_id: TraceId,
    span_id: SpanId,
    metadata: ActiveSpanMetadata,
)
    requires
        old(registry)@.len() == 64,
        call_ensures(
            TraceRegistry::set_active_span_metadata_at,
            (registry, hash, trace_id, span_id, metadata),
            (),
        ),
    ensures
        ({
            let before = old(registry)@[hash as int % 64];
            let after = final(registry)@[hash as int % 64];
            &&& before.traces.dom().contains(trace_id@) ==> {
                &&& after.traces[trace_id@].active_spans.dom().contains(span_id@)
                &&& metadata.http_route matches Some(route)
                    ==> after.traces[trace_id@].active_spans[span_id@] == Some(route@)
                &&& metadata.http_route is None
                    ==> after.traces[trace_id@].active_spans[span_id@] is None
                &&& after.traces[trace_id@].open_span_count
                    == before.traces[trace_id@].open_span_count
            }
            &&& !before.traces.dom().contains(trace_id@) ==> after == before
        }),
{
    registry_field_laws::law_metadata_is_stored(
        old(registry)@[hash as int % 64],
        trace_id@,
        span_id@,
        metadata@,
    );
}

/// The numbers that are read of a registry are the sums over its parts, which are zero then, and no
/// trace changes.
pub proof fn law_call_get_metrics(
    registry: &mut TraceRegistry,
    metrics: TraceRegistryMetrics,
    part: int,
)
    requires
        call_ensures(TraceRegistry::get_metrics, (registry,), metrics),
        0 <= part < old(registry)@.len(),
    ensures
        metrics@ == registry::total_metrics(old(registry)@),
        final(registry)@[part].traces == old(registry)@[part].traces,
        final(registry)@[part].metrics.spans_created == 0,
        final(registry)@[part].metrics.spans_finished == 0,
        final(registry)@[part].metrics.trace_segments_created == 0,
        final(registry)@[part].metrics.trace_segments_closed == 0,
        final(registry)@[part].metrics.trace_partial_flush_count == 0,
{
}

/// A tag that is stored has its text then, and every other tag the text that it had.
pub proof fn law_call_insert_tag(tags: &mut Tags, name: String, text: String, i: int)
    requires
        call_ensures(Tags::insert, (tags, name, text), ()),
        sampling::distinct_names(old(tags)@),
    ensures
        exists|j: int| 0 <= j < final(tags)@.len() && #[trigger] final(tags)@[j] == (name@, text@),
        0 <= i < old(tags)@.len() && old(tags)@[i].0 != name@ ==> final(tags)@[i] == old(tags)@[i],
        sampling::distinct_names(final(tags)@),
{
    sampling::law_stored_text_is_found(old(tags)@, name@, text@);
    let (before, after) = (old(tags)@, final(tags)@);
    if exists|k: int| 0 <= k < before.len() && (#[trigger] before[k]).0 == name@ {
        let k = choose|k: int| 0 <= k < before.len() && (#[trigger] before[k]).0 == name@;
        assert(after[k] == (name@, text@));
    } else {
        assert(after[before.len() as int] == (name@, text@));
    }
}

/// A batch takes a chunk whole, after those that wait, unless it holds more spans than it may; it then
/// answers with the number of spans in the chunk and changes nothing.
pub proof fn law_call_batch_takes_a_chunk(
    batch: &mut Batch,
    chunk: Vec<FinishedSpan>,
    result: Result<(), BatchFullError>,
)
    requires
        call_ensures(Batch::add_trace_chunk, (batch, chunk), result),
    ensures
        ({
            let full = old(batch)@.span_count > old(batch)@.max_buffered_spans;
            &&& result is Err <==> full
            &&& result matches Err(error) ==> error.spans_dropped as int == chunk@.len()
            &&& full ==> final(batch)@ == old(batch)@
            &&& !full ==> final(batch)@.span_count == old(batch)@.span_count + chunk@.len()
            &&& !full && chunk@.len() > 0 ==> {
                &&& final(batch)@.chunks.len() == old(batch)@.chunks.len() + 1
                &&& final(batch)@.chunks.last() == span::spans_view(chunk@)
            }
        }),
{
    assert(chunk.len() == chunk@.len());
    batch::law_chunk_is_taken_whole(old(batch)@, span::spans_view(chunk@));
}

/// A batch that is emptied gives all its chunks, keeps none, and notes the time.
pub proof fn law_call_batch_is_emptied(batch: &mut Batch, now: u128, chunks: Vec<TraceChunk>)
    requires
        call_ensures(Batch::export, (batch, now), chunks),
    ensures
        batch::chunks_view(chunks@) == old(batch)@.chunks,
        final(batch)@.chunks.len() == 0,
        final(batch)@.span_count == 0,
        final(batch)@.last_flush == now,
        final(batch)@.extra_services == old(batch)@.extra_services,
        final(batch)@.max_buffered_spans == old(batch)@.max_buffered_spans,
{
}

/// Spans that are handed to the exporter wait to be sent where the call is done and did not fail, and
/// are sent at once where more than three thousand wait then.
pub proof fn law_call_export(
    exporter: &DatadogExporter,
    waiter: &mut Waiter,
    spans: Vec<FinishedSpan>,
    step: ExporterStep,
)
    requires
        call_ensures(DatadogExporter::export_chunk_no_wait, (exporter, waiter, spans), step),
        spans@.len() > 0,
    ensures
        ({
            let before = old(waiter)@;
            let after = final(waiter)@;
            let taken = channel_field_laws::can_send(before) && before.state.batch.span_count
                <= before.state.batch.max_buffered_spans;
            &&& step@ == ExporterStepView::Done(None) <==> taken
            &&& taken ==> {
                &&& after.state.batch.chunks == before.state.batch.chunks.push(
                    span::spans_view(spans@),
                )
                &&& after.state.flush_needed == (before.state.flush_needed
                    || before.state.batch.span_count + spans@.len() > 3000)
                &&& after.state.metrics.spans_queued == before.state.metrics.spans_queued
                    + spans@.len()
            }
            &&& !taken ==> after.state.batch.chunks == before.state.batch.chunks
        }),
{
    let given = span::spans_view(spans@);
    assert(spans.len() == given.len());
    exporter_laws::law_answer_to_an_export(old(waiter)@, given);
    exporter_laws::law_three_thousand_spans_are_sent(old(waiter)@, given);
    channel_field_laws::law_spans_are_queued_or_dropped(old(waiter)@, 3000, given);
}

/// A resource that is set on the exporter is noted for the other side, which is woken; so is a flush,
/// and so is a stop. Where the thread has stopped or the lock is poisoned nothing changes.
pub proof fn law_call_requests(
    exporter: &DatadogExporter,
    set: &mut Waiter,
    flush: &mut Waiter,
    stop: &mut Waiter,
    resource: Resource,
    set_step: ExporterStep,
    flush_step: ExporterStep,
)
    requires
        call_ensures(DatadogExporter::set_resource, (exporter, set, resource), set_step),
        call_ensures(DatadogExporter::force_flush, (exporter, flush), flush_step),
        call_ensures(DatadogExporter::trigger_shutdown, (exporter, stop), ()),
    ensures
        channel_field_laws::can_send(old(set)@) ==> final(set)@.state.set_resource == Some(resource)
            && final(set)@.notify && set_step@ == ExporterStepView::Done(None),
        channel_field_laws::can_send(old(flush)@) ==> final(flush)@.state.flush_needed
            && final(flush)@.notify && flush_step@ == ExporterStepView::Done(None),
        channel_field_laws::can_send(old(stop)@) ==> final(stop)@.state.shutdown_needed
            && final(stop)@.notify,
        !channel_field_laws::can_send(old(set)@) ==> final(set)@ == old(set)@ && set_step@
            != ExporterStepView::Done(None),
        !channel_field_laws::can_send(old(flush)@) ==> final(flush)@ == old(flush)@ && flush_step@
            != ExporterStepView::Done(None),
        !channel_field_laws::can_send(old(stop)@) ==> final(stop)@ == old(stop)@,
{
    channel_field_laws::law_requests_are_noted(old(set)@, resource);
    channel_field_laws::law_requests_are_noted(old(flush)@, resource);
    channel_field_laws::law_requests_are_noted(old(stop)@, resource);
    exporter_laws::law_answer_to_a_request(old(set)@);
    exporter_laws::law_answer_to_a_request(old(flush)@);
}

/// Spans that the sending side hands over trigger their being taken once more wait than its own number.
pub proof fn law_call_sender(
    sender: &Sender,
    waiter: &mut Waiter,
    chunk: Vec<FinishedSpan>,
    result: Result<(), SenderError>,
)
    requires
        call_ensures(Sender::add_trace_chunk, (sender, waiter, chunk), result),
    ensures
        ({
            let before = old(waiter)@;
            let after = final(waiter)@;
            let full = before.state.batch.span_count > before.state.batch.max_buffered_spans;
            &&& before.poisoned ==> result == Err::<(), SenderError>(SenderError::MutexPoisoned)
            &&& !before.poisoned && before.state.has_shutdown ==> result == Err::<(), SenderError>(
                SenderError::AlreadyShutdown,
            )
            &&& channel_field_laws::can_send(before) && full ==> (result matches Err(
                SenderError::BatchFull(error),
            ) && error.spans_dropped as int == chunk@.len())
            &&& channel_field_laws::can_send(before) && !full ==> {
                &&& result is Ok
                &&& after.state.batch.span_count == before.state.batch.span_count + chunk@.len()
                &&& after.state.flush_needed == (before.state.flush_needed
                    || before.state.batch.span_count + chunk@.len() > channel::flush_trigger(
                    *sender,
                ))
            }
        }),
{
    let given = span::spans_view(chunk@);
    assert(chunk.len() == given.len());
    channel_field_laws::law_answer_to_spans(old(waiter)@, given);
    channel_field_laws::law_spans_are_queued_or_dropped(
        old(waiter)@,
        channel::flush_trigger(*sender),
        given,
    );
}

/// What the receiving side gets when it begins: an error where the lock is poisoned. Otherwise a
/// resource that was set, without spans; then, with all the spans that wait, that it is to stop, to
/// send, or that the timeout has passed since spans were last taken.
pub proof fn law_call_receive(
    receiver: &Receiver,
    waiter: &mut Waiter,
    timeout: u128,
    now: u128,
    result: Result<ReceiveStep, MutexPoisonedError>,
)
    requires
        old(waiter)@.poisoned || old(waiter)@.state.batch.last_flush + timeout <= u128::MAX,
        call_ensures(Receiver::receive, (receiver, waiter, timeout, now), result),
    ensures
        ({
            let state = old(waiter)@.state;
            let after = final(waiter)@.state;
            let due = now >= state.batch.last_flush + timeout;
            &&& result is Err <==> old(waiter)@.poisoned
            &&& result matches Ok(ReceiveStep::Ready(message, chunks)) ==> {
                &&& message is SetResource <==> state.set_resource is Some
                &&& message is Shutdown <==> state.set_resource is None && state.shutdown_needed
                &&& message is FlushTraceChunks <==> state.set_resource is None
                    && !state.shutdown_needed && state.flush_needed
                &&& message is FlushTraceChunksWithTimeout ==> due
                &&& message is SetResource ==> chunks@.len() == 0 && after.batch == state.batch
                &&& !(message is SetResource) ==> batch::chunks_view(chunks@) == state.batch.chunks
                    && after.batch.chunks.len() == 0 && after.batch.last_flush == now
            }
            &&& result matches Ok(ReceiveStep::Wait { left, deadline }) ==> {
                &&& state.set_resource is None && !state.shutdown_needed && !state.flush_needed
                    && !due
                &&& deadline == state.batch.last_flush + timeout
                &&& now + left == deadline
                &&& after == state
            }
        }),
{
    let before = old(waiter)@;
    if !before.poisoned {
        let deadline = (before.state.batch.last_flush + timeout) as u128;
        channel_field_laws::law_what_is_received(before, deadline, now);
        channel_field_laws::law_what_receiving_changes(before, deadline, now);
        if let Ok(ReceiveStep::Ready(message, chunks)) = result {
            assert(batch::chunks_view(chunks@).len() == chunks@.len());
        }
    }
}

/// The receiving side that has stopped says so and wakes who waits, unless the lock is poisoned.
pub proof fn law_call_shutdown_done(
    receiver: &Receiver,
    waiter: &mut Waiter,
    result: Result<(), MutexPoisonedError>,
)
    requires
        call_ensures(Receiver::shutdown_done, (receiver, waiter), result),
    ensures
        result is Err <==> old(waiter)@.poisoned,
        !old(waiter)@.poisoned ==> final(waiter)@.state.has_shutdown && final(waiter)@.notify,
        old(waiter)@.poisoned ==> final(waiter)@ == old(waiter)@,
        final(waiter)@.state.batch == old(waiter)@.state.batch,
{
}

/// The numbers of the hand-over are read once, and are zero then.
pub proof fn law_call_queue_metrics(
    fetcher: &QueueMetricsFetcher,
    waiter: &mut Waiter,
    metrics: QueueMetrics,
)
    requires
        call_ensures(QueueMetricsFetcher::get_metrics, (fetcher, waiter), metrics),
    ensures
        !old(waiter)@.poisoned ==> {
            &&& metrics.spans_queued == old(waiter)@.state.metrics.spans_queued
            &&& metrics.spans_dropped_full_buffer
                == old(waiter)@.state.metrics.spans_dropped_full_buffer
            &&& final(waiter)@.state.metrics.spans_queued == 0
            &&& final(waiter)@.state.metrics.spans_dropped_full_buffer == 0
        },
        old(waiter)@.poisoned ==> metrics.spans_queued == 0 && metrics.spans_dropped_full_buffer
            == 0,
        final(waiter)@.state.batch == old(waiter)@.state.batch,
{
}

/// The thread uses a resource that came with a message from then on, and otherwise the one that it had.
pub proof fn law_call_thread_takes_resource(
    thread: &mut TraceExporterWorker,
    resource: Option<Resource>,
)
    requires
        call_ensures(TraceExporterWorker::set_resource, (thread, resource), ()),
    ensures
        resource matches Some(given) ==> final(thread).otel_resource == given,
        resource is None ==> final(thread).otel_resource == old(thread).otel_resource,
{
}

/// A span that starts is registered in one part of the registry: a root makes its trace known there,
/// with the root that it had or else with this span, and a child is one more open span there. No other
/// part changes, and none does where the span is not looked at.
pub proof fn law_call_on_start(
    processor: &DatadogSpanProcessor,
    registry: &mut TraceRegistry,
    started: &StartedSpan,
    kind: StartKind,
)
    requires
        old(registry)@.len() == 64,
        call_ensures(DatadogSpanProcessor::on_start, (processor, registry, started), kind),
    ensures
        ({
            let id = started.span_context.trace_id@;
            let counts = processor.config.enabled && started.is_recording
                && processor_laws::has_identifiers(started.span_context);
            let is_root = started.parent_is_remote || !started.parent_has_active_span;
            &&& !counts ==> final(registry)@ == old(registry)@
            &&& kind == StartKind::Ignored <==> !counts
            &&& counts ==> exists|part: int|
                {
                    let before = old(registry)@[part];
                    let after = #[trigger] final(registry)@[part];
                    &&& 0 <= part < 64
                    &&& after.traces.dom().contains(id)
                    &&& is_root ==> registry::root_of(after, id) == if registry::root_of(
                        before,
                        id,
                    ) is Some {
                        registry::root_of(before, id)
                    } else {
                        Some(started.span_context.span_id@)
                    }
                    &&& !is_root ==> after.traces[id].open_span_count == 1
                        + if before.traces.dom().contains(id) {
                        before.traces[id].open_span_count
                    } else {
                        0
                    }
                    &&& after.traces[id].active_spans.dom().contains(started.span_context.span_id@)
                    &&& forall|other: int|
                        0 <= other < 64 && other != part ==> #[trigger] final(registry)@[other]
                            == old(registry)@[other]
                }
        }),
{
    let shards = old(registry)@;
    let enabled = processor.config.enabled;
    let hash = choose|hash: u64|
        old(registry).hashes_to(started.span_context.trace_id, hash) && final(registry)@
            == #[trigger] span_processor::all_after_start(shards, hash, enabled, *started);
    let part: int = hash as int % 64;
    processor_laws::law_kinds_of_starts(enabled, *started);
    span::law_valid_and_sampled_contexts(started.span_context);
    if enabled && started.is_recording && processor_laws::has_identifiers(started.span_context) {
        if started.parent_is_remote || !started.parent_has_active_span {
            processor_laws::law_started_root_is_known(shards, hash, *started);
        } else {
            processor_laws::law_started_child_is_open(shards, hash, *started);
        }
        let after = final(registry)@[part];
        assert(after.traces.dom().contains(started.span_context.trace_id@));
    } else {
        processor_laws::law_ignored_start_changes_nothing(shards, hash, enabled, *started);
    }
}

/// A span that ends is looked up in one part of the registry. Where its trace is not known there it is
/// sent at once; otherwise the trace is sent once no span of it is open or enough have finished, with
/// all the spans that were kept. Nothing is sent while tracing is disabled.
pub proof fn law_call_on_end_somewhere(
    processor: &DatadogSpanProcessor,
    registry: &mut TraceRegistry,
    finished: FinishedSpan,
    sent: Option<Vec<FinishedSpan>>,
)
    requires
        old(registry)@.len() == 64,
        call_ensures(DatadogSpanProcessor::on_end, (processor, registry, finished), sent),
    ensures
        sent is Some ==> processor.config.enabled,
        exists|part: int|
            {
                let id = finished.span_context.trace_id@;
                let before = #[trigger] old(registry)@[part];
                let after = final(registry)@[part];
                let known = before.traces.dom().contains(id);
                &&& 0 <= part < 64
                &&& after.metrics.spans_finished == before.metrics.spans_finished + 1
                &&& sent is Some <==> processor.config.enabled && {
                    ||| !known
                    ||| before.traces[id].open_span_count <= 1
                    ||| before.partial_flush.enabled && before.traces[id].finished_spans.len() + 1
                        >= before.partial_flush.min_spans
                }
                &&& sent matches Some(spans) ==> spans@.len() == 1 + if known {
                    before.traces[id].finished_spans.len()
                } else {
                    0
                }
            },
{
    let id = finished.span_context.trace_id@;
    let shards = old(registry)@;
    let partial = processor.config.trace_partial_flush_enabled;
    let hash = choose|hash: u64|
        {
            &&& old(registry).hashes_to(finished.span_context.trace_id, hash)
            &&& final(registry)@ == #[trigger] registry::all_with_finished(
                shards,
                hash,
                finished@.trace_id,
                finished@,
            )
            &&& span_processor::opt_spans(sent) == span_processor::exported_spans(
                processor.config.enabled,
                partial,
                registry::flushed(
                    shards[registry::shard_of(hash)],
                    finished@.trace_id,
                    finished@,
                ),
            )
        };
    let part: int = hash as int % 64;
    let before = shards[part];
    let chunk = registry::flushed(before, id, finished@);
    registry_field_laws::law_when_spans_are_handed_out(before, id, finished@);
    if before.traces.dom().contains(id) {
        registry_field_laws::law_what_is_handed_out(before, id, finished@);
        registry_field_laws::law_trace_after_finish(before, id, finished@);
    } else {
        registry_field_laws::law_span_of_unknown_trace(before, id, finished@);
    }
    if let Some(spans) = sent {
        processor_laws::law_attributes_of_sent_spans(partial, chunk->0, 0);
        assert(span::spans_view(spans@).len() == spans@.len());
    }
}

/// A trace that is handed out by the registry has the propagation data and the root that some part of
/// the registry had for it, or is a single span of which nothing is known.
pub proof fn law_call_finish_span_somewhere(
    registry: &mut TraceRegistry,
    trace_id: TraceId,
    finished: FinishedSpan,
    chunk: Option<Trace>,
)
    requires
        old(registry)@.len() == 64,
        call_ensures(TraceRegistry::finish_span, (registry, trace_id, finished), chunk),
    ensures
        chunk matches Some(trace) ==> exists|part: int|
            {
                let before = #[trigger] old(registry)@[part];
                &&& 0 <= part < 64
                &&& if before.traces.dom().contains(trace_id@) {
                    &&& trace@.propagation_data == before.traces[trace_id@].propagation_data
                    &&& trace@.local_root_span_id == before.traces[trace_id@].local_root_span_id
                    &&& trace@.finished_spans.len() == before.traces[trace_id@].finished_spans.len()
                        + 1
                } else {
                    &&& trace@.finished_spans.len() == 1
                    &&& trace@.finished_spans[0] == finished@
                    &&& registry_field_laws::says_nothing(trace@.propagation_data)
                }
            },
{
    let shards = old(registry)@;
    let hash = choose|hash: u64|
        {
            &&& old(registry).hashes_to(trace_id, hash)
            &&& final(registry)@ == #[trigger] registry::all_with_finished(
                shards,
                hash,
                trace_id@,
                finished@,
            )
            &&& match chunk {
                Some(trace) => registry::flushed(
                    shards[registry::shard_of(hash)],
                    trace_id@,
                    finished@,
                ) == Some(trace@),
                None => registry::flushed(
                    shards[registry::shard_of(hash)],
                    trace_id@,
                    finished@,
                ) is None,
            }
        };
    let before = shards[hash as int % 64];
    if before.traces.dom().contains(trace_id@) {
        registry_field_laws::law_handed_out_trace_keeps_its_data(before, trace_id@, finished@);
        registry_field_laws::law_what_is_handed_out(before, trace_id@, finished@);
    } else {
        registry_field_laws::law_span_of_unknown_trace(before, trace_id@, finished@);
    }
}

/// Every span of a trace gets what the trace propagates: its attributes stay in front, and one named
/// `_sampling_priority_v1` with the priority of the trace follows, where it has one.
pub proof fn law_call_add_propagation_data(trace: Trace, spans: Vec<FinishedSpan>, i: int)
    requires
        call_ensures(propagation::add_trace_propagation_data, (trace,), spans),
        0 <= i < trace.finished_spans@.len(),
    ensures
        spans@.len() == trace.finished_spans@.len(),
        spans@[i].attributes@.len() >= trace.finished_spans@[i].attributes@.len(),
        trace.propagation_data.sampling_decision.priority matches Some(priority) ==> exists|j: int|
            {
                &&& trace.finished_spans@[i].attributes@.len() <= j < spans@[i].attributes@.len()
                &&& (#[trigger] spans@[i].attributes@[j]).key@ == "_sampling_priority_v1"@
                &&& spans@[i].attributes@[j].value matches value::Value::I64(n) && n as int
                    == priority as int
            },
{
    let all = span::spans_view(spans@);
    assert(span_processor::exported_spans(true, false, Some(trace@)) == Some(all));
    processor_laws::law_attributes_of_sent_spans(false, trace@, i);
    assert(all.len() == spans@.len());
    assert(all[i] == spans@[i]@);
    assert(trace@.finished_spans[i] == trace.finished_spans@[i]@);
    if let Some(priority) = trace.propagation_data.sampling_decision.priority {
        processor_laws::law_priority_is_sent(false, trace@, priority, i);
        let j = choose|j: int|
            {
                &&& trace@.finished_spans[i].attributes.len() <= j < all[i].attributes.len()
                &&& (#[trigger] all[i].attributes[j]).key == "_sampling_priority_v1"@
                &&& all[i].attributes[j].value matches ValueView::I64(n) && n as int
                    == priority as int
            };
        assert(all[i].attributes[j] == spans@[i].attributes@[j]@);
        assert(spans@[i].attributes@[j].key@ == "_sampling_priority_v1"@);
    }
}

/// The receiving side whose wait ran out takes all the spans that wait, and otherwise looks again: it
/// waits on only where nothing was asked for and it is not time.
pub proof fn law_call_woken(
    receiver: &Receiver,
    waiter: &mut Waiter,
    deadline: u128,
    timed_out: bool,
    now: u128,
    step: ReceiveStep,
)
    requires
        call_ensures(Receiver::woken, (receiver, waiter, deadline, timed_out, now), step),
    ensures
        ({
            let state = old(waiter)@.state;
            let after = final(waiter)@.state;
            &&& timed_out ==> {
                &&& step matches ReceiveStep::Ready(message, chunks)
                &&& message is FlushTraceChunksWithTimeout
                &&& batch::chunks_view(chunks@) == state.batch.chunks
                &&& after.batch.chunks.len() == 0
                &&& after.flush_needed == state.flush_needed
                &&& after.shutdown_needed == state.shutdown_needed
                &&& after.set_resource == state.set_resource
            }
            &&& !timed_out ==> (step is Wait <==> state.set_resource is None
                && !state.shutdown_needed && !state.flush_needed && now < deadline)
        }),
{
    channel_field_laws::law_after_a_wait(old(waiter)@, deadline, now);
    channel_field_laws::law_what_is_received(old(waiter)@, deadline, now);
}

/// The mark of the topmost span goes to the first span that has the identifier of the root, and to no
/// other; nothing else changes.
pub proof fn law_call_mark_top_level(trace: &mut Trace, i: int)
    requires
        call_ensures(propagation::mark_top_level, (trace,), ()),
        0 <= i < old(trace)@.finished_spans.len(),
    ensures
        ({
            let before = old(trace)@;
            let after = final(trace)@;
            let own = before.finished_spans[i].attributes;
            let sent = after.finished_spans[i].attributes;
            &&& after.finished_spans.len() == before.finished_spans.len()
            &&& after.propagation_data == before.propagation_data
            &&& after.local_root_span_id == before.local_root_span_id
            &&& processor_laws::is_marked(true, before, i) ==> {
                &&& sent.len() == own.len() + 1
                &&& sent.last().key == "_top_level"@
                &&& sent.last().value == ValueView::F64("1"@)
            }
            &&& !processor_laws::is_marked(true, before, i) ==> sent == own
        }),
{
    processor_laws::law_mark_of_the_root(old(trace)@, i);
}

/// The handle on the thread is given out once: to the first who asks, and to nobody after that.
pub proof fn law_call_take_handle<H>(
    first: &mut TraceExporterHandle<H>,
    taken: Result<H, JoinOutcome>,
    second: &mut TraceExporterHandle<H>,
    again: Result<H, JoinOutcome>,
)
    requires
        call_ensures(TraceExporterHandle::<H>::take, (first,), taken),
        call_ensures(TraceExporterHandle::<H>::take, (second,), again),
        *old(second) == *final(first),
    ensures
        old(first).held() matches Some(handle) ==> taken == Ok::<H, JoinOutcome>(handle),
        old(first).held() is None ==> taken == Err::<H, JoinOutcome>(JoinOutcome::AlreadyJoined),
        again == Err::<H, JoinOutcome>(JoinOutcome::AlreadyJoined),
{
}

/// A finished span is kept with the others of its trace, in front where it is the root, and is no longer
/// open.
pub proof fn law_call_finish(trace: &mut Trace, finished: FinishedSpan)
    requires
        call_ensures(Trace::finish, (trace, finished), ()),
    ensures
        ({
            let before = old(trace)@;
            let after = final(trace)@;
            let last = before.finished_spans.len() as int;
            &&& after.finished_spans.len() == before.finished_spans.len() + 1
            &&& finished@.span_id == before.local_root_span_id ==> after.finished_spans[0]
                == finished@
            &&& finished@.span_id != before.local_root_span_id ==> after.finished_spans[last]
                == finished@
            &&& after.open_span_count == if before.open_span_count > 0 {
                before.open_span_count - 1
            } else {
                0
            }
            &&& after.propagation_data == before.propagation_data
            &&& after.local_root_span_id == before.local_root_span_id
            &&& !after.active_spans.dom().contains(finished@.span_id)
        }),
{
}

/// A span names its service to a batch: a name that it gives is known from then on, unless it is that of
/// this service, and nothing else of the batch changes.
pub proof fn law_call_extract_service(batch: &mut Batch, finished: &FinishedSpan, name: Seq<char>)
    requires
        call_ensures(Batch::extract_and_add_service_from_span, (batch, finished), ()),
    ensures
        final(batch)@.extra_services.contains(name) <==> {
            ||| old(batch)@.extra_services.contains(name)
            ||| name != old(batch)@.main_service && batch::gives_name(finished@, name)
        },
        final(batch)@.chunks == old(batch)@.chunks,
        final(batch)@.span_count == old(batch)@.span_count,
        final(batch)@.last_flush == old(batch)@.last_flush,
        final(batch)@.main_service == old(batch)@.main_service,
{
    let spans = seq![finished@];
    batch::law_services_are_remembered(
        old(batch)@.extra_services,
        old(batch)@.main_service,
        spans,
        name,
    );
    assert(spans[0] == finished@);
}

/// What the sending side asks for is noted and answered: with an error where the lock is poisoned or the
/// other side has stopped, and nothing is noted then.
pub proof fn law_call_sender_requests(
    sender: &Sender,
    set: &mut Waiter,
    flush: &mut Waiter,
    stop: &mut Waiter,
    resource: Resource,
    set_result: Result<(), SenderError>,
    flush_result: Result<(), SenderError>,
    stop_result: Result<(), SenderError>,
)
    requires
        call_ensures(Sender::set_resource, (sender, set, resource), set_result),
        call_ensures(Sender::trigger_flush, (sender, flush), flush_result),
        call_ensures(Sender::trigger_shutdown, (sender, stop), stop_result),
    ensures
        set_result is Ok <==> channel_field_laws::can_send(old(set)@),
        flush_result is Ok <==> channel_field_laws::can_send(old(flush)@),
        stop_result is Ok <==> channel_field_laws::can_send(old(stop)@),
        set_result is Ok ==> final(set)@.state.set_resource == Some(resource),
        flush_result is Ok ==> final(flush)@.state.flush_needed,
        stop_result is Ok ==> final(stop)@.state.shutdown_needed,
        set_result is Err ==> final(set)@ == old(set)@,
        flush_result is Err ==> final(flush)@ == old(flush)@,
        stop_result is Err ==> final(stop)@ == old(stop)@,
{
}

} // verus!
