//! What holds of the registry of traces as a whole.

use crate::ids;
use crate::registry::{self, PartialFlush, ShardView};
use crate::sampling::{self, PropagationView};
use crate::span::SpanView;
use crate::traces::{self, TraceView};
use vstd::multiset::Multiset;
use vstd::prelude::*;

verus! {

/// The root span is the first of the finished spans, if it is among them.
pub open spec fn root_first(trace: TraceView) -> bool {
    forall|i: int|
        0 <= i < trace.finished_spans.len() && (#[trigger] trace.finished_spans[i]).span_id
            == trace.local_root_span_id ==> trace.finished_spans[0].span_id
            == trace.local_root_span_id
}

/// In every trace the root span is the first of the finished spans, if it is among them.
pub open spec fn all_root_first(shard: ShardView) -> bool {
    forall|id: Seq<u8>| shard.traces.dom().contains(id) ==> root_first(#[trigger] shard.traces[id])
}

/// Whether a span of the trace has finished and is still kept.
pub open spec fn keeps_span(shard: ShardView, trace_id: Seq<u8>, span_id: Seq<u8>) -> bool {
    shard.traces.dom().contains(trace_id) && exists|i: int|
        0 <= i < shard.traces[trace_id].finished_spans.len()
            && #[trigger] shard.traces[trace_id].finished_spans[i].span_id == span_id
}

/// Finishing a span keeps the root first, in the traces that are kept and in what is handed out.
pub proof fn law_finish_keeps_root_first(shard: ShardView, trace_id: Seq<u8>, finished: SpanView)
    requires
        all_root_first(shard),
    ensures
        all_root_first(registry::with_finished(shard, trace_id, finished)),
        registry::flushed(shard, trace_id, finished) matches Some(chunk) ==> root_first(chunk),
{
    if shard.traces.dom().contains(trace_id) {
        let before = shard.traces[trace_id];
        let after = traces::after_finish(before, finished);
        assert(root_first(before));
        assert(root_first(after)) by {
            assert forall|i: int|
                0 <= i < after.finished_spans.len() && (#[trigger] after.finished_spans[i]).span_id
                    == after.local_root_span_id implies after.finished_spans[0].span_id
                == after.local_root_span_id by {
                if i < before.finished_spans.len() && i > 0 {
                    assert(after.finished_spans[i] == before.finished_spans[i]);
                }
            }
        }
    }
}

/// The other operations keep the root first as well. Setting the root span does so unless the
/// span has finished before it was set as the root.
pub proof fn law_registration_keeps_root_first(
    shard: ShardView,
    trace_id: Seq<u8>,
    span_id: Seq<u8>,
    data: PropagationView,
    metadata: Option<Seq<char>>,
)
    requires
        all_root_first(shard),
    ensures
        all_root_first(registry::with_propagation(shard, trace_id, data)),
        all_root_first(registry::with_span(shard, trace_id, span_id, data)),
        all_root_first(registry::with_metadata(shard, trace_id, span_id, metadata)),
        all_root_first(registry::without_metrics(shard)),
        !keeps_span(shard, trace_id, span_id) || registry::root_of(shard, trace_id) is Some
            ==> all_root_first(registry::with_root(shard, trace_id, span_id)),
{
    if shard.traces.dom().contains(trace_id) {
        assert(root_first(shard.traces[trace_id]));
        let changed = registry::with_propagation(shard, trace_id, data).traces[trace_id];
        assert(root_first(changed));
        let changed = registry::with_span(shard, trace_id, span_id, data).traces[trace_id];
        assert(root_first(changed));
        let changed = registry::with_metadata(shard, trace_id, span_id, metadata).traces[trace_id];
        assert(root_first(changed));
    }
}

/// A call of the registry that changes a trace.
pub enum RegistryEvent {
    Propagation { trace_id: Seq<u8>, data: PropagationView },
    Root { trace_id: Seq<u8>, root: Seq<u8> },
    Span { trace_id: Seq<u8>, span_id: Seq<u8>, data: PropagationView },
    Finish { trace_id: Seq<u8>, finished: SpanView },
    Metadata { trace_id: Seq<u8>, span_id: Seq<u8>, metadata: Option<Seq<char>> },
}

/// The trace that a call is about.
pub open spec fn trace_of(event: RegistryEvent) -> Seq<u8> {
    match event {
        RegistryEvent::Propagation { trace_id, .. } => trace_id,
        RegistryEvent::Root { trace_id, .. } => trace_id,
        RegistryEvent::Span { trace_id, .. } => trace_id,
        RegistryEvent::Finish { trace_id, .. } => trace_id,
        RegistryEvent::Metadata { trace_id, .. } => trace_id,
    }
}

/// The state after a call.
pub open spec fn after_event(shard: ShardView, event: RegistryEvent) -> ShardView {
    match event {
        RegistryEvent::Propagation { trace_id, data } => registry::with_propagation(
            shard,
            trace_id,
            data,
        ),
        RegistryEvent::Root { trace_id, root } => registry::with_root(shard, trace_id, root),
        RegistryEvent::Span { trace_id, span_id, data } => registry::with_span(
            shard,
            trace_id,
            span_id,
            data,
        ),
        RegistryEvent::Finish { trace_id, finished } => registry::with_finished(
            shard,
            trace_id,
            finished,
        ),
        RegistryEvent::Metadata { trace_id, span_id, metadata } => registry::with_metadata(
            shard,
            trace_id,
            span_id,
            metadata,
        ),
    }
}

/// The state after these calls, in this order.
pub open spec fn after_events(shard: ShardView, events: Seq<RegistryEvent>) -> ShardView
    decreases events.len(),
{
    if events.len() == 0 {
        shard
    } else {
        after_event(after_events(shard, events.drop_last()), events.last())
    }
}

/// No call sets a span as the root of a trace that has finished before, unless the trace has a root
/// already.
pub open spec fn roots_come_in_time(shard: ShardView, events: Seq<RegistryEvent>) -> bool
    decreases events.len(),
{
    events.len() > 0 ==> {
        let before = after_events(shard, events.drop_last());
        &&& roots_come_in_time(shard, events.drop_last())
        &&& events.last() matches RegistryEvent::Root { trace_id, root } ==> !keeps_span(
            before,
            trace_id,
            root,
        ) || registry::root_of(before, trace_id) is Some
    }
}

/// Whatever calls are made, in whatever order, the root span is the first of the finished spans if it
/// is among them: in every trace that is kept, and in what is handed out when a span finishes then.
/// The one condition is that a root is set before the root span has finished.
pub proof fn law_root_stays_first(
    shard: ShardView,
    events: Seq<RegistryEvent>,
    trace_id: Seq<u8>,
    finished: SpanView,
)
    requires
        all_root_first(shard),
        roots_come_in_time(shard, events),
    ensures
        all_root_first(after_events(shard, events)),
        registry::flushed(after_events(shard, events), trace_id, finished) matches Some(chunk)
            ==> root_first(chunk),
    decreases events.len(),
{
    if events.len() > 0 {
        law_root_stays_first(shard, events.drop_last(), trace_id, finished);
        let before = after_events(shard, events.drop_last());
        match events.last() {
            RegistryEvent::Propagation { trace_id, data } => {
                law_registration_keeps_root_first(before, trace_id, ids::no_span(), data, None);
            },
            RegistryEvent::Root { trace_id, root } => {
                law_registration_keeps_root_first(
                    before,
                    trace_id,
                    root,
                    sampling::empty_propagation(),
                    None,
                );
            },
            RegistryEvent::Span { trace_id, span_id, data } => {
                law_registration_keeps_root_first(before, trace_id, span_id, data, None);
            },
            RegistryEvent::Finish { trace_id, finished } => {
                law_finish_keeps_root_first(before, trace_id, finished);
            },
            RegistryEvent::Metadata { trace_id, span_id, metadata } => {
                law_registration_keeps_root_first(
                    before,
                    trace_id,
                    span_id,
                    sampling::empty_propagation(),
                    metadata,
                );
            },
        }
    }
    law_finish_keeps_root_first(after_events(shard, events), trace_id, finished);
}

/// Registering and finishing spans alone never sets a root too late.
pub proof fn law_spans_alone_keep_roots_in_time(shard: ShardView, events: Seq<RegistryEvent>)
    requires
        forall|i: int| 0 <= i < events.len() ==> !(#[trigger] events[i] is Root),
    ensures
        roots_come_in_time(shard, events),
    decreases events.len(),
{
    if events.len() > 0 {
        law_spans_alone_keep_roots_in_time(shard, events.drop_last());
        assert(!(events[events.len() - 1] is Root));
    }
}

/// The spans that are kept for a trace.
pub open spec fn kept_spans(shard: ShardView, trace_id: Seq<u8>) -> Multiset<SpanView> {
    if shard.traces.dom().contains(trace_id) {
        shard.traces[trace_id].finished_spans.to_multiset()
    } else {
        Multiset::empty()
    }
}

/// The spans that are handed out.
pub open spec fn chunk_spans(chunk: Option<TraceView>) -> Multiset<SpanView> {
    match chunk {
        Some(trace) => trace.finished_spans.to_multiset(),
        None => Multiset::empty(),
    }
}

/// Replacing the first element and putting the old one last adds one element.
proof fn lemma_update_push_multiset(spans: Seq<SpanView>, first: SpanView)
    requires
        spans.len() > 0,
    ensures
        spans.update(0, first).push(spans[0]).to_multiset() =~= spans.to_multiset().insert(first),
{
    broadcast use vstd::seq_lib::group_to_multiset_ensures;

    let updated = spans.update(0, first);
    vstd::seq_lib::to_multiset_update(spans, 0, first);
    assert(updated.push(spans[0]).to_multiset() =~= updated.to_multiset().insert(spans[0]));
}

/// No finished span is lost or doubled: what was kept and the span that has finished are what is
/// kept then and what is handed out.
pub proof fn law_no_span_lost(shard: ShardView, trace_id: Seq<u8>, finished: SpanView)
    ensures
        kept_spans(shard, trace_id).insert(finished) == kept_spans(
            registry::with_finished(shard, trace_id, finished),
            trace_id,
        ).add(chunk_spans(registry::flushed(shard, trace_id, finished))),
{
    broadcast use vstd::seq_lib::group_to_multiset_ensures;

    let after = registry::with_finished(shard, trace_id, finished);
    let chunk = registry::flushed(shard, trace_id, finished);
    if shard.traces.dom().contains(trace_id) {
        let before = shard.traces[trace_id];
        if before.finished_spans.len() > 0 && finished.span_id == before.local_root_span_id {
            lemma_update_push_multiset(before.finished_spans, finished);
        }
        assert(traces::add_finished(before, finished).to_multiset()
            =~= before.finished_spans.to_multiset().insert(finished));
        assert(Seq::<SpanView>::empty().to_multiset() =~= Multiset::empty());
    } else {
        assert(seq![finished] =~= Seq::<SpanView>::empty().push(finished));
        assert(Seq::<SpanView>::empty().to_multiset() =~= Multiset::empty());
    }
    assert(kept_spans(shard, trace_id).insert(finished) =~= kept_spans(after, trace_id).add(
        chunk_spans(chunk),
    ));
}

/// Whether two states agree on a trace.
pub open spec fn same_trace(a: ShardView, b: ShardView, trace_id: Seq<u8>) -> bool {
    &&& a.traces.dom().contains(trace_id) == b.traces.dom().contains(trace_id)
    &&& a.traces.dom().contains(trace_id) ==> a.traces[trace_id] == b.traces[trace_id]
}

/// An operation on one trace leaves every other trace as it was.
pub proof fn law_other_traces_untouched(
    shard: ShardView,
    trace_id: Seq<u8>,
    other: Seq<u8>,
    span_id: Seq<u8>,
    finished: SpanView,
    data: PropagationView,
    metadata: Option<Seq<char>>,
)
    requires
        trace_id != other,
    ensures
        same_trace(shard, registry::with_propagation(shard, trace_id, data), other),
        same_trace(shard, registry::with_root(shard, trace_id, span_id), other),
        same_trace(shard, registry::with_span(shard, trace_id, span_id, data), other),
        same_trace(shard, registry::with_finished(shard, trace_id, finished), other),
        same_trace(shard, registry::with_metadata(shard, trace_id, span_id, metadata), other),
{
}

/// The first sampling decision of a trace stands: registering other propagation data answers with
/// that decision and changes nothing.
pub proof fn law_first_decision_stands(
    shard: ShardView,
    trace_id: Seq<u8>,
    first: PropagationView,
    second: PropagationView,
)
    requires
        registry::decided(shard, trace_id) is None,
        first.sampling_decision.priority is Some,
    ensures
        ({
            let after = registry::with_propagation(shard, trace_id, first);
            &&& registry::propagation_of(after, trace_id) == first
            &&& registry::decided(after, trace_id) == Some(first.sampling_decision)
            &&& registry::with_propagation(after, trace_id, second) == after
        }),
{
}

/// Propagation data without a priority is replaced by what is registered next, and what is read is
/// what was registered last.
pub proof fn law_undecided_data_is_replaced(
    shard: ShardView,
    trace_id: Seq<u8>,
    data: PropagationView,
)
    requires
        registry::decided(shard, trace_id) is None,
    ensures
        registry::propagation_of(
            registry::with_propagation(shard, trace_id, data),
            trace_id,
        ) == data,
{
}

/// The first root span of a trace stands, and is what is read.
pub proof fn law_first_root_stands(
    shard: ShardView,
    trace_id: Seq<u8>,
    first: Seq<u8>,
    second: Seq<u8>,
)
    requires
        registry::root_of(shard, trace_id) is None,
        first != ids::no_span(),
    ensures
        ({
            let after = registry::with_root(shard, trace_id, first);
            &&& registry::root_of(after, trace_id) == Some(first)
            &&& registry::with_root(after, trace_id, second) == after
        }),
{
    let after = registry::with_root(shard, trace_id, first);
    assert(registry::with_root(after, trace_id, second).traces =~= after.traces);
}

/// The metadata of a span of a known trace is what was stored last, until the span finishes.
pub proof fn law_metadata_is_read_back(
    shard: ShardView,
    trace_id: Seq<u8>,
    span_id: Seq<u8>,
    metadata: Option<Seq<char>>,
    finished: SpanView,
)
    requires
        shard.traces.dom().contains(trace_id),
        finished.span_id == span_id,
    ensures
        registry::metadata_of(
            registry::with_metadata(shard, trace_id, span_id, metadata),
            trace_id,
            span_id,
        ) == Some(metadata),
        registry::metadata_of(
            registry::with_finished(shard, trace_id, finished),
            trace_id,
            span_id,
        ) is None,
{
}

/// Every trace keeps fewer finished spans than are handed out at once.
pub open spec fn memory_bounded(shard: ShardView) -> bool {
    forall|id: Seq<u8>|
        shard.traces.dom().contains(id) ==> (#[trigger] shard.traces[id]).finished_spans.len()
            < shard.partial_flush.min_spans
}

/// Where traces are sent in parts, the number of finished spans that are kept for a trace stays
/// below the number that is sent at once, whatever happens.
pub proof fn law_partial_flush_bounds_memory(
    shard: ShardView,
    trace_id: Seq<u8>,
    span_id: Seq<u8>,
    finished: SpanView,
    data: PropagationView,
    metadata: Option<Seq<char>>,
)
    requires
        shard.partial_flush.enabled,
        shard.partial_flush.min_spans > 0,
        memory_bounded(shard),
    ensures
        memory_bounded(registry::with_propagation(shard, trace_id, data)),
        memory_bounded(registry::with_root(shard, trace_id, span_id)),
        memory_bounded(registry::with_span(shard, trace_id, span_id, data)),
        memory_bounded(registry::with_finished(shard, trace_id, finished)),
        memory_bounded(registry::with_metadata(shard, trace_id, span_id, metadata)),
        registry::flushed(shard, trace_id, finished) matches Some(chunk)
            ==> chunk.finished_spans.len() <= shard.partial_flush.min_spans,
{
    if shard.traces.dom().contains(trace_id) {
        assert(shard.traces[trace_id].finished_spans.len() < shard.partial_flush.min_spans);
    }
}

/// The state after all these spans of a trace have finished, in this order.
pub open spec fn after_all_finished(
    shard: ShardView,
    trace_id: Seq<u8>,
    finished: Seq<SpanView>,
) -> ShardView
    decreases finished.len(),
{
    if finished.len() == 0 {
        shard
    } else {
        registry::with_finished(
            after_all_finished(shard, trace_id, finished.drop_last()),
            trace_id,
            finished.last(),
        )
    }
}

/// The state after spans of a trace were registered, in this order.
pub open spec fn after_all_registered(
    shard: ShardView,
    trace_id: Seq<u8>,
    span_ids: Seq<Seq<u8>>,
    data: PropagationView,
) -> ShardView
    decreases span_ids.len(),
{
    if span_ids.len() == 0 {
        shard
    } else {
        registry::with_span(
            after_all_registered(shard, trace_id, span_ids.drop_last(), data),
            trace_id,
            span_ids.last(),
            data,
        )
    }
}

/// While fewer spans have finished than were open, the trace is kept with all of them.
proof fn lemma_incomplete_trace_is_kept(
    shard: ShardView,
    trace_id: Seq<u8>,
    finished: Seq<SpanView>,
)
    requires
        !shard.partial_flush.enabled,
        shard.traces.dom().contains(trace_id),
        finished.len() < shard.traces[trace_id].open_span_count,
    ensures
        ({
            let after = after_all_finished(shard, trace_id, finished);
            let before = shard.traces[trace_id];
            &&& after.traces.dom().contains(trace_id)
            &&& after.partial_flush == shard.partial_flush
            &&& after.traces[trace_id].open_span_count == before.open_span_count - finished.len()
            &&& after.traces[trace_id].finished_spans.to_multiset()
                == before.finished_spans.to_multiset().add(finished.to_multiset())
            &&& after.traces[trace_id].finished_spans.len() == before.finished_spans.len()
                + finished.len()
            &&& after.metrics.trace_segments_closed == shard.metrics.trace_segments_closed
            &&& after.metrics.trace_partial_flush_count == shard.metrics.trace_partial_flush_count
        }),
    decreases finished.len(),
{
    broadcast use vstd::seq_lib::group_to_multiset_ensures;

    let before = shard.traces[trace_id];
    if finished.len() == 0 {
        assert(finished.to_multiset() =~= Multiset::empty());
        assert(before.finished_spans.to_multiset().add(finished.to_multiset())
            =~= before.finished_spans.to_multiset());
    } else {
        let init = finished.drop_last();
        lemma_incomplete_trace_is_kept(shard, trace_id, init);
        let middle = after_all_finished(shard, trace_id, init);
        law_no_span_lost(middle, trace_id, finished.last());
        assert(finished =~= init.push(finished.last()));
        let after = after_all_finished(shard, trace_id, finished);
        assert(kept_spans(after, trace_id).add(Multiset::empty()) =~= kept_spans(after, trace_id));
        assert(after.traces[trace_id].finished_spans.to_multiset()
            =~= before.finished_spans.to_multiset().add(finished.to_multiset()));
    }
}

/// Where traces are not sent in parts, a trace is handed out when its last open span finishes and
/// not before, with every span that was kept and every span that has finished since. It is then
/// forgotten.
pub proof fn law_complete_trace_is_flushed_once(
    shard: ShardView,
    trace_id: Seq<u8>,
    finished: Seq<SpanView>,
    done: int,
)
    requires
        !shard.partial_flush.enabled,
        shard.traces.dom().contains(trace_id),
        finished.len() == shard.traces[trace_id].open_span_count,
        0 <= done < finished.len(),
    ensures
        ({
            let before = after_all_finished(shard, trace_id, finished.take(done));
            let chunk = registry::flushed(before, trace_id, finished[done]);
            let after = registry::with_finished(before, trace_id, finished[done]);
            if done + 1 < finished.len() {
                &&& chunk is None
                &&& after.traces.dom().contains(trace_id)
            } else {
                &&& chunk is Some
                &&& chunk->0.finished_spans.to_multiset()
                    == shard.traces[trace_id].finished_spans.to_multiset().add(
                    finished.to_multiset(),
                )
                &&& chunk->0.open_span_count == 0
                &&& !after.traces.dom().contains(trace_id)
                &&& after.metrics.trace_segments_closed == shard.metrics.trace_segments_closed + 1
                &&& after.metrics.trace_partial_flush_count
                    == shard.metrics.trace_partial_flush_count
            }
        }),
{
    broadcast use vstd::seq_lib::group_to_multiset_ensures;

    let init = finished.take(done);
    lemma_incomplete_trace_is_kept(shard, trace_id, init);
    let before = after_all_finished(shard, trace_id, init);
    if done + 1 == finished.len() {
        let old_spans = shard.traces[trace_id].finished_spans.to_multiset();
        law_no_span_lost(before, trace_id, finished[done]);
        let chunk = registry::flushed(before, trace_id, finished[done]);
        assert(finished =~= init.push(finished[done]));
        assert(Multiset::empty().add(chunk_spans(chunk)) =~= chunk_spans(chunk));
        assert(chunk->0.finished_spans.to_multiset() =~= old_spans.add(finished.to_multiset()));
    }
}

/// Each registered span counts as open until it finishes: after the propagation data of a new trace
/// and then its spans were registered, the trace has one open span for its root and one for each
/// of them.
pub proof fn law_registered_spans_are_open(
    shard: ShardView,
    trace_id: Seq<u8>,
    span_ids: Seq<Seq<u8>>,
    root: PropagationView,
    data: PropagationView,
)
    requires
        !shard.traces.dom().contains(trace_id),
    ensures
        ({
            let after = after_all_registered(
                registry::with_propagation(shard, trace_id, root),
                trace_id,
                span_ids,
                data,
            );
            &&& after.traces.dom().contains(trace_id)
            &&& after.traces[trace_id].open_span_count == span_ids.len() + 1
            &&& after.traces[trace_id].finished_spans == Seq::<SpanView>::empty()
            &&& after.traces[trace_id].propagation_data == root
            &&& after.metrics.spans_created == shard.metrics.spans_created + span_ids.len() + 1
            &&& after.metrics.trace_segments_created == shard.metrics.trace_segments_created + 1
        }),
    decreases span_ids.len(),
{
    if span_ids.len() > 0 {
        law_registered_spans_are_open(shard, trace_id, span_ids.drop_last(), root, data);
    }
}

/// How many spans of a trace are open.
pub open spec fn open_spans(shard: ShardView, trace_id: Seq<u8>) -> nat {
    if shard.traces.dom().contains(trace_id) {
        shard.traces[trace_id].open_span_count
    } else {
        0
    }
}

/// Registering propagation data opens one more span, unless the trace has a sampling decision; it
/// changes neither the root nor the finished spans of a known trace. Registering a span opens one
/// more, setting the root of a known trace opens none, and finishing a span closes one.
pub proof fn law_open_spans_follow_the_calls(
    shard: ShardView,
    trace_id: Seq<u8>,
    span_id: Seq<u8>,
    finished: SpanView,
    data: PropagationView,
)
    ensures
        ({
            let after = registry::with_propagation(shard, trace_id, data);
            if registry::decided(shard, trace_id) is Some {
                after == shard
            } else {
                &&& open_spans(after, trace_id) == open_spans(shard, trace_id) + 1
                &&& registry::propagation_of(after, trace_id) == data
                &&& shard.traces.dom().contains(trace_id) ==> after.traces[trace_id]
                    == TraceView {
                    open_span_count: after.traces[trace_id].open_span_count,
                    propagation_data: data,
                    ..shard.traces[trace_id]
                }
            }
        }),
        open_spans(registry::with_span(shard, trace_id, span_id, data), trace_id) == open_spans(
            shard,
            trace_id,
        ) + 1,
        shard.traces.dom().contains(trace_id) ==> open_spans(
            registry::with_root(shard, trace_id, span_id),
            trace_id,
        ) == open_spans(shard, trace_id),
        open_spans(registry::with_finished(shard, trace_id, finished), trace_id) == if open_spans(
            shard,
            trace_id,
        ) == 0 {
            0
        } else {
            (open_spans(shard, trace_id) - 1) as nat
        },
{
}

/// As many traces are kept as were created and not closed. Setting the root span of an unknown trace
/// is the one operation that creates a trace without counting it.
pub open spec fn segments_balance(shard: ShardView) -> bool {
    &&& shard.traces.dom().finite()
    &&& shard.metrics.trace_segments_created == shard.metrics.trace_segments_closed
        + shard.traces.dom().len()
}

/// The operations keep the balance of created, closed and kept traces.
pub proof fn law_segments_balance(
    shard: ShardView,
    trace_id: Seq<u8>,
    span_id: Seq<u8>,
    finished: SpanView,
    data: PropagationView,
    metadata: Option<Seq<char>>,
)
    requires
        segments_balance(shard),
    ensures
        segments_balance(registry::with_propagation(shard, trace_id, data)),
        segments_balance(registry::with_span(shard, trace_id, span_id, data)),
        segments_balance(registry::with_finished(shard, trace_id, finished)),
        segments_balance(registry::with_metadata(shard, trace_id, span_id, metadata)),
        shard.traces.dom().contains(trace_id) ==> segments_balance(
            registry::with_root(shard, trace_id, span_id),
        ),
{
    let ids = shard.traces.dom();
    if ids.contains(trace_id) {
        assert(ids.insert(trace_id) =~= ids);
    }
}

/// A part of the registry that holds nothing is in order: what the operations keep holds from the
/// start.
pub proof fn law_empty_registry_is_in_order(partial_flush: PartialFlush)
    ensures
        all_root_first(registry::empty_shard(partial_flush)),
        memory_bounded(registry::empty_shard(partial_flush)),
        segments_balance(registry::empty_shard(partial_flush)),
{
}

/// Reading the metrics starts them anew and changes no trace: read again at once, they are zero.
pub proof fn law_metrics_reset(shards: Seq<ShardView>)
    ensures
        registry::total_metrics(registry::all_without_metrics(shards)) == registry::no_metrics(),
        forall|i: int|
            0 <= i < shards.len() ==> (#[trigger] registry::all_without_metrics(shards)[i]).traces
                == shards[i].traces,
    decreases shards.len(),
{
    if shards.len() > 0 {
        law_metrics_reset(shards.drop_last());
        assert(registry::all_without_metrics(shards).drop_last()
            =~= registry::all_without_metrics(shards.drop_last()));
    }
}

} // verus!
