//! What each call of the registry does to a trace and to the numbers, field by field.

use crate::ids;
use crate::registry::{self, MetricsView, PartialFlush, ShardView};
use crate::sampling::PropagationView;
use crate::span::SpanView;
use vstd::prelude::*;

verus! {

/// Propagation data in which nothing is set.
pub open spec fn says_nothing(data: PropagationView) -> bool {
    &&& data.sampling_decision.priority is None
    &&& data.sampling_decision.mechanism is None
    &&& data.origin is None
    &&& data.tags is None
}

/// Whether the numbers grew by these amounts, in the order of the fields.
pub open spec fn grew_by(
    before: MetricsView,
    after: MetricsView,
    spans_created: int,
    spans_finished: int,
    segments_created: int,
    segments_closed: int,
    partial_flushes: int,
) -> bool {
    &&& after.spans_created == before.spans_created + spans_created
    &&& after.spans_finished == before.spans_finished + spans_finished
    &&& after.trace_segments_created == before.trace_segments_created + segments_created
    &&& after.trace_segments_closed == before.trace_segments_closed + segments_closed
    &&& after.trace_partial_flush_count == before.trace_partial_flush_count + partial_flushes
}

/// What is handed out of a known trace, complete or in part, has the propagation data and the root of
/// that trace. Two traces that differ in one of them are never handed out alike.
pub proof fn law_handed_out_trace_keeps_its_data(
    shard: ShardView,
    trace_id: Seq<u8>,
    finished: SpanView,
)
    requires
        shard.traces.dom().contains(trace_id),
    ensures
        registry::flushed(shard, trace_id, finished) matches Some(chunk) ==> {
            let trace = shard.traces[trace_id];
            &&& chunk.propagation_data == trace.propagation_data
            &&& chunk.propagation_data.sampling_decision.priority
                == trace.propagation_data.sampling_decision.priority
            &&& chunk.propagation_data.sampling_decision.mechanism
                == trace.propagation_data.sampling_decision.mechanism
            &&& chunk.propagation_data.origin == trace.propagation_data.origin
            &&& chunk.propagation_data.tags == trace.propagation_data.tags
            &&& chunk.local_root_span_id == trace.local_root_span_id
        },
{
}

/// Propagation data that was registered for a trace without a decision is what the trace is handed
/// out with, whatever is registered for it until then, provided it holds a decision.
pub proof fn law_registered_data_is_handed_out(
    shard: ShardView,
    trace_id: Seq<u8>,
    data: PropagationView,
    later: PropagationView,
    span_id: Seq<u8>,
    finished: SpanView,
)
    requires
        shard.traces.dom().contains(trace_id)
            ==> shard.traces[trace_id].propagation_data.sampling_decision.priority is None,
        data.sampling_decision.priority is Some,
    ensures
        ({
            let registered = registry::with_propagation(shard, trace_id, data);
            let rooted = registry::with_root(registered, trace_id, span_id);
            let opened = registry::with_span(rooted, trace_id, span_id, later);
            let again = registry::with_propagation(opened, trace_id, later);
            registry::flushed(again, trace_id, finished) matches Some(chunk)
                ==> chunk.propagation_data == data
        }),
{
}

/// When something is handed out: always of an unknown trace, and of a known one when the span that has
/// finished was the last open one, or makes the finished spans enough where parts may be sent.
pub proof fn law_when_spans_are_handed_out(
    shard: ShardView,
    trace_id: Seq<u8>,
    finished: SpanView,
)
    ensures
        registry::flushed(shard, trace_id, finished) is Some <==> {
            ||| !shard.traces.dom().contains(trace_id)
            ||| shard.traces[trace_id].open_span_count <= 1
            ||| shard.partial_flush.enabled && shard.traces[trace_id].finished_spans.len() + 1
                >= shard.partial_flush.min_spans
        },
{
}

/// What is handed out of a known trace: the spans that were kept and the one that has finished, which
/// comes first where it is the root and last otherwise. One span fewer is open.
pub proof fn law_what_is_handed_out(shard: ShardView, trace_id: Seq<u8>, finished: SpanView)
    requires
        shard.traces.dom().contains(trace_id),
    ensures
        registry::flushed(shard, trace_id, finished) matches Some(chunk) ==> {
            let kept = shard.traces[trace_id].finished_spans;
            let open = shard.traces[trace_id].open_span_count;
            let last = kept.len() as int;
            &&& chunk.finished_spans.len() == kept.len() + 1
            &&& chunk.open_span_count == if open > 0 {
                open - 1
            } else {
                0
            }
            &&& if finished.span_id == shard.traces[trace_id].local_root_span_id && kept.len() > 0 {
                &&& chunk.finished_spans[0] == finished
                &&& chunk.finished_spans[last] == kept[0]
                &&& forall|i: int|
                    0 < i < kept.len() ==> #[trigger] chunk.finished_spans[i] == kept[i]
            } else {
                &&& chunk.finished_spans[last] == finished
                &&& forall|i: int|
                    0 <= i < kept.len() ==> #[trigger] chunk.finished_spans[i] == kept[i]
            }
        },
{
}

/// A span of an unknown trace is handed out at once, alone, as the root of a trace of which nothing is
/// known. The trace stays unknown.
pub proof fn law_span_of_unknown_trace(shard: ShardView, trace_id: Seq<u8>, finished: SpanView)
    requires
        !shard.traces.dom().contains(trace_id),
    ensures
        ({
            let chunk = registry::flushed(shard, trace_id, finished);
            let after = registry::with_finished(shard, trace_id, finished);
            &&& chunk is Some
            &&& chunk->0.finished_spans.len() == 1
            &&& chunk->0.finished_spans[0] == finished
            &&& chunk->0.local_root_span_id == finished.span_id
            &&& chunk->0.open_span_count == 0
            &&& says_nothing(chunk->0.propagation_data)
            &&& after.traces == shard.traces
            &&& grew_by(shard.metrics, after.metrics, 0, 1, 1, 1, 0)
        }),
{
}

/// A known trace after one of its spans has finished. Where the spans are handed out in part none of
/// them is kept; where the last open span has finished the trace is forgotten; otherwise the span is
/// kept. Nothing else changes but the metadata of the span, which is forgotten.
pub proof fn law_trace_after_finish(shard: ShardView, trace_id: Seq<u8>, finished: SpanView)
    requires
        shard.traces.dom().contains(trace_id),
    ensures
        ({
            let before = shard.traces[trace_id];
            let after = registry::with_finished(shard, trace_id, finished);
            let kept = after.traces[trace_id];
            let in_part = shard.partial_flush.enabled && before.finished_spans.len() + 1
                >= shard.partial_flush.min_spans;
            let is_last = before.open_span_count <= 1;
            &&& after.partial_flush == shard.partial_flush
            &&& after.traces.dom().contains(trace_id) <==> in_part || !is_last
            &&& after.traces.dom().contains(trace_id) ==> {
                &&& kept.propagation_data == before.propagation_data
                &&& kept.local_root_span_id == before.local_root_span_id
                &&& kept.open_span_count == if before.open_span_count > 0 {
                    before.open_span_count - 1
                } else {
                    0
                }
                &&& kept.finished_spans.len() == if in_part {
                    0
                } else {
                    before.finished_spans.len() + 1
                }
                &&& !in_part ==> kept.finished_spans.contains(finished)
                &&& !kept.active_spans.dom().contains(finished.span_id)
                &&& forall|id: Seq<u8>|
                    id != finished.span_id ==> {
                        &&& (#[trigger] kept.active_spans.dom().contains(id))
                            == before.active_spans.dom().contains(id)
                        &&& kept.active_spans.dom().contains(id) ==> kept.active_spans[id]
                            == before.active_spans[id]
                    }
            }
            &&& grew_by(
                shard.metrics,
                after.metrics,
                0,
                1,
                0,
                if is_last && !in_part {
                    1
                } else {
                    0
                },
                if in_part {
                    1
                } else {
                    0
                },
            )
        }),
{
    let before = shard.traces[trace_id];
    let after = registry::with_finished(shard, trace_id, finished);
    let in_part = shard.partial_flush.enabled && before.finished_spans.len() + 1
        >= shard.partial_flush.min_spans;
    if after.traces.dom().contains(trace_id) && !in_part {
        let kept = after.traces[trace_id].finished_spans;
        assert(kept[0] == finished || kept[kept.len() - 1] == finished);
    }
}

/// Registering propagation data: what a trace with a priority is answered is its own decision, and
/// nothing changes. Otherwise the data is stored and one more span is open; the root, the finished
/// spans and the metadata of a known trace stay, and a new trace has none of them. Only a new trace
/// is counted.
pub proof fn law_propagation_is_registered(
    shard: ShardView,
    trace_id: Seq<u8>,
    data: PropagationView,
)
    ensures
        ({
            let known = shard.traces.dom().contains(trace_id);
            let before = shard.traces[trace_id];
            let after = registry::with_propagation(shard, trace_id, data);
            let stored = after.traces[trace_id];
            if known && before.propagation_data.sampling_decision.priority is Some {
                &&& registry::decided(shard, trace_id) == Some(
                    before.propagation_data.sampling_decision,
                )
                &&& after == shard
            } else {
                &&& registry::decided(shard, trace_id) is None
                &&& after.traces.dom() == shard.traces.dom().insert(trace_id)
                &&& after.partial_flush == shard.partial_flush
                &&& stored.propagation_data == data
                &&& known ==> {
                    &&& stored.open_span_count == before.open_span_count + 1
                    &&& stored.local_root_span_id == before.local_root_span_id
                    &&& stored.finished_spans == before.finished_spans
                    &&& stored.active_spans == before.active_spans
                    &&& grew_by(shard.metrics, after.metrics, 0, 0, 0, 0, 0)
                }
                &&& !known ==> {
                    &&& stored.open_span_count == 1
                    &&& registry::root_of(after, trace_id) is None
                    &&& stored.finished_spans.len() == 0
                    &&& stored.active_spans.dom() == Set::<Seq<u8>>::empty()
                    &&& grew_by(shard.metrics, after.metrics, 1, 0, 1, 0, 0)
                }
            }
        }),
{
    let after = registry::with_propagation(shard, trace_id, data);
    if registry::decided(shard, trace_id) is None {
        assert(after.traces.dom() =~= shard.traces.dom().insert(trace_id));
    }
}

/// Registering a root: it is the root of a trace that has none, and a known trace changes in nothing
/// else. A new trace has one open span and nothing is known of it. Nothing is counted.
pub proof fn law_root_is_registered(shard: ShardView, trace_id: Seq<u8>, root: Seq<u8>)
    ensures
        ({
            let known = shard.traces.dom().contains(trace_id);
            let before = shard.traces[trace_id];
            let after = registry::with_root(shard, trace_id, root);
            let stored = after.traces[trace_id];
            &&& after.traces.dom() == shard.traces.dom().insert(trace_id)
            &&& after.partial_flush == shard.partial_flush
            &&& grew_by(shard.metrics, after.metrics, 0, 0, 0, 0, 0)
            &&& stored.local_root_span_id == if known && before.local_root_span_id
                != ids::no_span() {
                before.local_root_span_id
            } else {
                root
            }
            &&& known ==> {
                &&& stored.open_span_count == before.open_span_count
                &&& stored.propagation_data == before.propagation_data
                &&& stored.finished_spans == before.finished_spans
                &&& stored.active_spans == before.active_spans
            }
            &&& !known ==> {
                &&& stored.open_span_count == 1
                &&& says_nothing(stored.propagation_data)
                &&& stored.finished_spans.len() == 0
                &&& stored.active_spans.dom() == Set::<Seq<u8>>::empty()
            }
        }),
{
    let after = registry::with_root(shard, trace_id, root);
    assert(after.traces.dom() =~= shard.traces.dom().insert(trace_id));
}

/// Registering a span: one more is open, and a known trace changes in nothing else. The first span of
/// a new trace is its root, and its propagation data is that of the trace. The span is counted, and
/// a new trace too.
pub proof fn law_span_is_registered(
    shard: ShardView,
    trace_id: Seq<u8>,
    span_id: Seq<u8>,
    data: PropagationView,
)
    ensures
        ({
            let known = shard.traces.dom().contains(trace_id);
            let before = shard.traces[trace_id];
            let after = registry::with_span(shard, trace_id, span_id, data);
            let stored = after.traces[trace_id];
            &&& after.traces.dom() == shard.traces.dom().insert(trace_id)
            &&& after.partial_flush == shard.partial_flush
            &&& known ==> {
                &&& stored.open_span_count == before.open_span_count + 1
                &&& stored.local_root_span_id == before.local_root_span_id
                &&& stored.propagation_data == before.propagation_data
                &&& stored.finished_spans == before.finished_spans
                &&& stored.active_spans == before.active_spans
                &&& grew_by(shard.metrics, after.metrics, 1, 0, 0, 0, 0)
            }
            &&& !known ==> {
                &&& stored.open_span_count == 1
                &&& stored.local_root_span_id == span_id
                &&& stored.propagation_data == data
                &&& stored.finished_spans.len() == 0
                &&& stored.active_spans.dom() == Set::<Seq<u8>>::empty()
                &&& grew_by(shard.metrics, after.metrics, 1, 0, 1, 0, 0)
            }
        }),
{
    let after = registry::with_span(shard, trace_id, span_id, data);
    assert(after.traces.dom() =~= shard.traces.dom().insert(trace_id));
}

/// Storing metadata: the span of a known trace has it, every other span of the trace keeps its own,
/// and nothing else changes. For an unknown trace nothing changes at all.
pub proof fn law_metadata_is_stored(
    shard: ShardView,
    trace_id: Seq<u8>,
    span_id: Seq<u8>,
    metadata: Option<Seq<char>>,
)
    ensures
        ({
            let before = shard.traces[trace_id];
            let after = registry::with_metadata(shard, trace_id, span_id, metadata);
            let stored = after.traces[trace_id];
            &&& after.traces.dom() == shard.traces.dom()
            &&& after.partial_flush == shard.partial_flush
            &&& grew_by(shard.metrics, after.metrics, 0, 0, 0, 0, 0)
            &&& !shard.traces.dom().contains(trace_id) ==> after == shard
            &&& shard.traces.dom().contains(trace_id) ==> {
                &&& stored.open_span_count == before.open_span_count
                &&& stored.local_root_span_id == before.local_root_span_id
                &&& stored.propagation_data == before.propagation_data
                &&& stored.finished_spans == before.finished_spans
                &&& stored.active_spans.dom() == before.active_spans.dom().insert(span_id)
                &&& stored.active_spans[span_id] == metadata
                &&& forall|id: Seq<u8>|
                    id != span_id && before.active_spans.dom().contains(id)
                        ==> #[trigger] stored.active_spans[id] == before.active_spans[id]
            }
        }),
{
    let before = shard.traces[trace_id];
    let after = registry::with_metadata(shard, trace_id, span_id, metadata);
    assert(after.traces.dom() =~= shard.traces.dom());
    if shard.traces.dom().contains(trace_id) {
        assert(after.traces[trace_id].active_spans.dom() =~= before.active_spans.dom().insert(
            span_id,
        ));
    }
}

/// What is read of a trace is what the trace holds: its propagation data, its root unless it is eight
/// zeros, and the metadata of its open spans. Of an unknown trace nothing is read.
pub proof fn law_what_is_read(shard: ShardView, trace_id: Seq<u8>, span_id: Seq<u8>)
    ensures
        ({
            let known = shard.traces.dom().contains(trace_id);
            let trace = shard.traces[trace_id];
            let data = registry::propagation_of(shard, trace_id);
            &&& if known {
                data == trace.propagation_data
            } else {
                says_nothing(data)
            }
            &&& registry::root_of(shard, trace_id) is Some <==> known && !(
            trace.local_root_span_id.len() == 8 && forall|i: int|
                0 <= i < 8 ==> #[trigger] trace.local_root_span_id[i] == 0)
            &&& registry::root_of(shard, trace_id) matches Some(root) ==> root
                == trace.local_root_span_id
            &&& registry::metadata_of(shard, trace_id, span_id) is Some <==> known
                && trace.active_spans.dom().contains(span_id)
            &&& registry::metadata_of(shard, trace_id, span_id) matches Some(metadata) ==> {
                &&& metadata == trace.active_spans[span_id]
                &&& registry::http_route_of(shard, trace_id, span_id) == metadata
            }
            &&& registry::metadata_of(shard, trace_id, span_id) is None ==> registry::http_route_of(
                shard,
                trace_id,
                span_id,
            ) is None
        }),
{
    let root = shard.traces[trace_id].local_root_span_id;
    if root.len() == 8 && forall|i: int| 0 <= i < 8 ==> #[trigger] root[i] == 0 {
        assert(root =~= ids::no_span());
    } else if root == ids::no_span() {
        assert(forall|i: int| 0 <= i < 8 ==> #[trigger] ids::no_span()[i] == 0);
    }
}

/// Reading the numbers of several parts adds them up, each number on its own: those of one part are
/// its own, and those of two lists of parts are the sums. Reading puts every number at zero and
/// changes nothing else.
pub proof fn law_numbers_add_up(some: Seq<ShardView>, others: Seq<ShardView>, shard: ShardView)
    ensures
        registry::total_metrics(seq![shard]) == shard.metrics,
        ({
            let a = registry::total_metrics(some);
            let b = registry::total_metrics(others);
            let both = registry::total_metrics(some + others);
            &&& both.spans_created == a.spans_created + b.spans_created
            &&& both.spans_finished == a.spans_finished + b.spans_finished
            &&& both.trace_segments_created == a.trace_segments_created + b.trace_segments_created
            &&& both.trace_segments_closed == a.trace_segments_closed + b.trace_segments_closed
            &&& both.trace_partial_flush_count == a.trace_partial_flush_count
                + b.trace_partial_flush_count
        }),
        forall|i: int|
            0 <= i < some.len() ==> {
                let read = #[trigger] registry::all_without_metrics(some)[i];
                &&& read.traces == some[i].traces
                &&& read.partial_flush == some[i].partial_flush
                &&& read.metrics.spans_created == 0
                &&& read.metrics.spans_finished == 0
                &&& read.metrics.trace_segments_created == 0
                &&& read.metrics.trace_segments_closed == 0
                &&& read.metrics.trace_partial_flush_count == 0
            },
        registry::all_without_metrics(some).len() == some.len(),
    decreases others.len(),
{
    reveal_with_fuel(registry::total_metrics, 2);
    assert(seq![shard].drop_last() =~= Seq::empty());
    if others.len() == 0 {
        assert(some + others =~= some);
    } else {
        law_numbers_add_up(some, others.drop_last(), shard);
        assert((some + others).drop_last() =~= some + others.drop_last());
        assert((some + others).last() == others.last());
    }
}

/// A new registry has sixty-four parts, which know no trace, have counted nothing and hand out
/// incomplete traces as they were told to.
pub proof fn law_new_registry(partial_flush: PartialFlush, part: int)
    requires
        0 <= part < 64,
    ensures
        ({
            let shard = registry::fresh_shards(partial_flush)[part];
            &&& registry::fresh_shards(partial_flush).len() == 64
            &&& shard.traces.dom() == Set::<Seq<u8>>::empty()
            &&& shard.partial_flush.enabled == partial_flush.enabled
            &&& shard.partial_flush.min_spans == partial_flush.min_spans
            &&& shard.metrics.spans_created == 0
            &&& shard.metrics.spans_finished == 0
            &&& shard.metrics.trace_segments_created == 0
            &&& shard.metrics.trace_segments_closed == 0
            &&& shard.metrics.trace_partial_flush_count == 0
        }),
{
}

/// A call changes the one part that the remainder of the hash by sixty-four names, as it changes a
/// registry of that one part, and no other part.
pub proof fn law_call_changes_one_part(
    shards: Seq<ShardView>,
    hash: u64,
    trace_id: Seq<u8>,
    span_id: Seq<u8>,
    data: PropagationView,
    finished: SpanView,
    metadata: Option<Seq<char>>,
    other: int,
)
    requires
        shards.len() == 64,
        0 <= other < 64,
    ensures
        ({
            let part = hash as int % 64;
            let propagated = registry::all_with_propagation(shards, hash, trace_id, data);
            let rooted = registry::all_with_root(shards, hash, trace_id, span_id);
            let opened = registry::all_with_span(shards, hash, trace_id, span_id, data);
            let closed = registry::all_with_finished(shards, hash, trace_id, finished);
            let described = registry::all_with_metadata(shards, hash, trace_id, span_id, metadata);
            &&& registry::shard_of(hash) == part
            &&& propagated[part] == registry::with_propagation(shards[part], trace_id, data)
            &&& rooted[part] == registry::with_root(shards[part], trace_id, span_id)
            &&& opened[part] == registry::with_span(shards[part], trace_id, span_id, data)
            &&& closed[part] == registry::with_finished(shards[part], trace_id, finished)
            &&& described[part] == registry::with_metadata(
                shards[part],
                trace_id,
                span_id,
                metadata,
            )
            &&& other != part ==> {
                &&& propagated[other] == shards[other]
                &&& rooted[other] == shards[other]
                &&& opened[other] == shards[other]
                &&& closed[other] == shards[other]
                &&& described[other] == shards[other]
            }
        }),
{
}

/// A span can be registered as long as no number has reached the largest one, and numbers can be read
/// as long as their sums do not exceed it.
pub proof fn law_when_numbers_fit(shard: ShardView, trace_id: Seq<u8>)
    ensures
        registry::metrics_can_grow(shard.metrics) <==> {
            &&& shard.metrics.spans_created + 1 <= usize::MAX
            &&& shard.metrics.spans_finished + 1 <= usize::MAX
            &&& shard.metrics.trace_segments_created + 1 <= usize::MAX
            &&& shard.metrics.trace_segments_closed + 1 <= usize::MAX
            &&& shard.metrics.trace_partial_flush_count + 1 <= usize::MAX
        },
        registry::metrics_fit(shard.metrics) <==> {
            &&& shard.metrics.spans_created <= usize::MAX
            &&& shard.metrics.spans_finished <= usize::MAX
            &&& shard.metrics.trace_segments_created <= usize::MAX
            &&& shard.metrics.trace_segments_closed <= usize::MAX
            &&& shard.metrics.trace_partial_flush_count <= usize::MAX
        },
        registry::can_open(shard, trace_id) <==> !shard.traces.dom().contains(trace_id)
            || shard.traces[trace_id].open_span_count + 1 <= usize::MAX,
{
}

} // verus!
