//! The parts of the registry together behave as one registry, whatever hash spreads the traces.

use crate::registry::{self, PartialFlush, ShardView};
use crate::registry_laws::{self, RegistryEvent};
use crate::sampling::PropagationView;
use crate::span::SpanView;
use crate::traces::TraceView;
use vstd::prelude::*;

verus! {

/// The traces that are found where the hash `h` says.
pub open spec fn merged_traces(
    shards: Seq<ShardView>,
    h: spec_fn(Seq<u8>) -> u64,
) -> Map<Seq<u8>, TraceView> {
    Map::new(
        |id: Seq<u8>| shards[registry::shard_of(h(id))].traces.dom().contains(id),
        |id: Seq<u8>| shards[registry::shard_of(h(id))].traces[id],
    )
}

/// The parts taken as one registry: the traces that are found where the hash `h` says, and all
/// metrics.
pub open spec fn merged(shards: Seq<ShardView>, h: spec_fn(Seq<u8>) -> u64) -> ShardView {
    ShardView {
        traces: merged_traces(shards, h),
        metrics: registry::total_metrics(shards),
        partial_flush: shards[0].partial_flush,
    }
}

/// Changing one part changes the total by as much.
proof fn lemma_total_of_update(shards: Seq<ShardView>, index: int, shard: ShardView)
    requires
        0 <= index < shards.len(),
    ensures
        ({
            let before = registry::total_metrics(shards);
            let after = registry::total_metrics(shards.update(index, shard));
            let old_part = shards[index].metrics;
            let new_part = shard.metrics;
            &&& after.spans_created == before.spans_created - old_part.spans_created
                + new_part.spans_created
            &&& after.spans_finished == before.spans_finished - old_part.spans_finished
                + new_part.spans_finished
            &&& after.trace_segments_created == before.trace_segments_created
                - old_part.trace_segments_created + new_part.trace_segments_created
            &&& after.trace_segments_closed == before.trace_segments_closed
                - old_part.trace_segments_closed + new_part.trace_segments_closed
            &&& after.trace_partial_flush_count == before.trace_partial_flush_count
                - old_part.trace_partial_flush_count + new_part.trace_partial_flush_count
        }),
    decreases shards.len(),
{
    let updated = shards.update(index, shard);
    if index == shards.len() - 1 {
        assert(updated.drop_last() =~= shards.drop_last());
    } else {
        lemma_total_of_update(shards.drop_last(), index, shard);
        assert(updated.drop_last() =~= shards.drop_last().update(index, shard));
    }
}

/// Changing one trace in its part changes that trace in the whole.
proof fn lemma_merged_traces_of_update(
    shards: Seq<ShardView>,
    h: spec_fn(Seq<u8>) -> u64,
    trace_id: Seq<u8>,
    shard: ShardView,
)
    requires
        registry::uniform(shards),
        forall|other: Seq<u8>|
            other != trace_id ==> (#[trigger] shard.traces.dom().contains(other)
                == shards[registry::shard_of(h(trace_id))].traces.dom().contains(other)) && (
            shard.traces.dom().contains(other) ==> shard.traces[other]
                == shards[registry::shard_of(h(trace_id))].traces[other]),
    ensures
        merged_traces(registry::replace_shard(shards, h(trace_id), shard), h)
            == if shard.traces.dom().contains(trace_id) {
            merged_traces(shards, h).insert(trace_id, shard.traces[trace_id])
        } else {
            merged_traces(shards, h).remove(trace_id)
        },
{
    let after = merged_traces(registry::replace_shard(shards, h(trace_id), shard), h);
    let before = merged_traces(shards, h);
    assert forall|id: Seq<u8>| id != trace_id implies #[trigger] after.dom().contains(id)
        == before.dom().contains(id) && (after.dom().contains(id) ==> after[id] == before[id]) by {
        assert(shard.traces.dom().contains(id) || !shard.traces.dom().contains(id));
    }
    if shard.traces.dom().contains(trace_id) {
        assert(after =~= before.insert(trace_id, shard.traces[trace_id]));
    } else {
        assert(after =~= before.remove(trace_id));
    }
}

/// Registering propagation data where the hash says does to the whole what it does to one part, and
/// answers the same.
pub proof fn law_propagation_as_one_registry(
    shards: Seq<ShardView>,
    h: spec_fn(Seq<u8>) -> u64,
    trace_id: Seq<u8>,
    data: PropagationView,
)
    requires
        registry::uniform(shards),
    ensures
        registry::uniform(registry::all_with_propagation(shards, h(trace_id), trace_id, data)),
        merged(registry::all_with_propagation(shards, h(trace_id), trace_id, data), h)
            == registry::with_propagation(merged(shards, h), trace_id, data),
        registry::decided(shards[registry::shard_of(h(trace_id))], trace_id) == registry::decided(
            merged(shards, h),
            trace_id,
        ),
{
    let index = registry::shard_of(h(trace_id));
    let shard = registry::with_propagation(shards[index], trace_id, data);
    lemma_total_of_update(shards, index, shard);
    lemma_merged_traces_of_update(shards, h, trace_id, shard);
    let whole = registry::with_propagation(merged(shards, h), trace_id, data);
    assert(merged(registry::replace_shard(shards, h(trace_id), shard), h).traces =~= whole.traces);
}

/// Setting a root span where the hash says does to the whole what it does to one part.
pub proof fn law_root_as_one_registry(
    shards: Seq<ShardView>,
    h: spec_fn(Seq<u8>) -> u64,
    trace_id: Seq<u8>,
    root: Seq<u8>,
)
    requires
        registry::uniform(shards),
    ensures
        registry::uniform(registry::all_with_root(shards, h(trace_id), trace_id, root)),
        merged(registry::all_with_root(shards, h(trace_id), trace_id, root), h)
            == registry::with_root(merged(shards, h), trace_id, root),
{
    let index = registry::shard_of(h(trace_id));
    let shard = registry::with_root(shards[index], trace_id, root);
    lemma_total_of_update(shards, index, shard);
    lemma_merged_traces_of_update(shards, h, trace_id, shard);
}

/// Registering a span where the hash says does to the whole what it does to one part.
pub proof fn law_span_as_one_registry(
    shards: Seq<ShardView>,
    h: spec_fn(Seq<u8>) -> u64,
    trace_id: Seq<u8>,
    span_id: Seq<u8>,
    data: PropagationView,
)
    requires
        registry::uniform(shards),
    ensures
        registry::uniform(registry::all_with_span(shards, h(trace_id), trace_id, span_id, data)),
        merged(registry::all_with_span(shards, h(trace_id), trace_id, span_id, data), h)
            == registry::with_span(merged(shards, h), trace_id, span_id, data),
{
    let index = registry::shard_of(h(trace_id));
    let shard = registry::with_span(shards[index], trace_id, span_id, data);
    lemma_total_of_update(shards, index, shard);
    lemma_merged_traces_of_update(shards, h, trace_id, shard);
}

/// Finishing a span where the hash says does to the whole what it does to one part, and hands out
/// the same.
pub proof fn law_finish_as_one_registry(
    shards: Seq<ShardView>,
    h: spec_fn(Seq<u8>) -> u64,
    trace_id: Seq<u8>,
    finished: SpanView,
)
    requires
        registry::uniform(shards),
    ensures
        registry::uniform(registry::all_with_finished(shards, h(trace_id), trace_id, finished)),
        merged(registry::all_with_finished(shards, h(trace_id), trace_id, finished), h)
            == registry::with_finished(merged(shards, h), trace_id, finished),
        registry::flushed(shards[registry::shard_of(h(trace_id))], trace_id, finished)
            == registry::flushed(merged(shards, h), trace_id, finished),
{
    let index = registry::shard_of(h(trace_id));
    let shard = registry::with_finished(shards[index], trace_id, finished);
    lemma_total_of_update(shards, index, shard);
    lemma_merged_traces_of_update(shards, h, trace_id, shard);
    let whole = registry::with_finished(merged(shards, h), trace_id, finished);
    assert(merged(registry::replace_shard(shards, h(trace_id), shard), h).traces =~= whole.traces);
}

/// Storing metadata where the hash says does to the whole what it does to one part.
pub proof fn law_metadata_as_one_registry(
    shards: Seq<ShardView>,
    h: spec_fn(Seq<u8>) -> u64,
    trace_id: Seq<u8>,
    span_id: Seq<u8>,
    metadata: Option<Seq<char>>,
)
    requires
        registry::uniform(shards),
    ensures
        registry::uniform(registry::all_with_metadata(shards, h(trace_id), trace_id, span_id, metadata)),
        merged(registry::all_with_metadata(shards, h(trace_id), trace_id, span_id, metadata), h)
            == registry::with_metadata(merged(shards, h), trace_id, span_id, metadata),
{
    let index = registry::shard_of(h(trace_id));
    let shard = registry::with_metadata(shards[index], trace_id, span_id, metadata);
    lemma_total_of_update(shards, index, shard);
    lemma_merged_traces_of_update(shards, h, trace_id, shard);
    let whole = registry::with_metadata(merged(shards, h), trace_id, span_id, metadata);
    assert(merged(registry::replace_shard(shards, h(trace_id), shard), h).traces =~= whole.traces);
}

/// What is read where the hash says is what the whole holds.
pub proof fn law_reads_as_one_registry(
    shards: Seq<ShardView>,
    h: spec_fn(Seq<u8>) -> u64,
    trace_id: Seq<u8>,
    span_id: Seq<u8>,
)
    requires
        registry::uniform(shards),
    ensures
        ({
            let part = shards[registry::shard_of(h(trace_id))];
            let whole = merged(shards, h);
            &&& registry::propagation_of(part, trace_id) == registry::propagation_of(
                whole,
                trace_id,
            )
            &&& registry::root_of(part, trace_id) == registry::root_of(whole, trace_id)
            &&& registry::metadata_of(part, trace_id, span_id) == registry::metadata_of(
                whole,
                trace_id,
                span_id,
            )
        }),
{
}

/// Reading the metrics does to the whole what it does to one part.
pub proof fn law_metrics_as_one_registry(shards: Seq<ShardView>, h: spec_fn(Seq<u8>) -> u64)
    requires
        registry::uniform(shards),
    ensures
        registry::uniform(registry::all_without_metrics(shards)),
        merged(registry::all_without_metrics(shards), h) == registry::without_metrics(
            merged(shards, h),
        ),
{
    registry_laws::law_metrics_reset(shards);
    assert(merged_traces(registry::all_without_metrics(shards), h) =~= merged_traces(shards, h));
}

/// The metrics of the whole do not depend on the hash: wherever a span is registered or finishes,
/// one more is counted.
pub proof fn law_counts_do_not_depend_on_the_hash(
    shards: Seq<ShardView>,
    hash: u64,
    trace_id: Seq<u8>,
    span_id: Seq<u8>,
    finished: SpanView,
    data: PropagationView,
)
    requires
        registry::uniform(shards),
    ensures
        registry::total_metrics(
            registry::all_with_span(shards, hash, trace_id, span_id, data),
        ).spans_created == registry::total_metrics(shards).spans_created + 1,
        registry::total_metrics(
            registry::all_with_finished(shards, hash, trace_id, finished),
        ).spans_finished == registry::total_metrics(shards).spans_finished + 1,
{
    let index = registry::shard_of(hash);
    lemma_total_of_update(
        shards,
        index,
        registry::with_span(shards[index], trace_id, span_id, data),
    );
    lemma_total_of_update(
        shards,
        index,
        registry::with_finished(shards[index], trace_id, finished),
    );
}

/// The parts after these calls, in this order, each in the part that its hash picks.
pub open spec fn after_events(
    shards: Seq<ShardView>,
    events: Seq<(u64, RegistryEvent)>,
) -> Seq<ShardView>
    decreases events.len(),
{
    if events.len() == 0 {
        shards
    } else {
        let before = after_events(shards, events.drop_last());
        let (hash, event) = events.last();
        registry::replace_shard(
            before,
            hash,
            registry_laws::after_event(before[registry::shard_of(hash)], event),
        )
    }
}

/// Calls on other traces never change what is known of a trace, in its part of the registry or in
/// another: finishing a span of it hands out the same and leaves the same, and reading it gives the
/// same.
pub proof fn law_other_traces_untouched_throughout(
    shards: Seq<ShardView>,
    events: Seq<(u64, RegistryEvent)>,
    hash: u64,
    trace_id: Seq<u8>,
    span_id: Seq<u8>,
    finished: SpanView,
)
    requires
        registry::uniform(shards),
        forall|i: int|
            0 <= i < events.len() ==> registry_laws::trace_of((#[trigger] events[i]).1) != trace_id,
    ensures
        registry::uniform(after_events(shards, events)),
        ({
            let part = shards[registry::shard_of(hash)];
            let after = after_events(shards, events)[registry::shard_of(hash)];
            &&& registry_laws::same_trace(part, after, trace_id)
            &&& registry::flushed(after, trace_id, finished) == registry::flushed(
                part,
                trace_id,
                finished,
            )
            &&& registry_laws::same_trace(
                registry::with_finished(part, trace_id, finished),
                registry::with_finished(after, trace_id, finished),
                trace_id,
            )
            &&& registry::root_of(after, trace_id) == registry::root_of(part, trace_id)
            &&& registry::propagation_of(after, trace_id) == registry::propagation_of(
                part,
                trace_id,
            )
            &&& registry::metadata_of(after, trace_id, span_id) == registry::metadata_of(
                part,
                trace_id,
                span_id,
            )
        }),
    decreases events.len(),
{
    if events.len() > 0 {
        law_other_traces_untouched_throughout(
            shards,
            events.drop_last(),
            hash,
            trace_id,
            span_id,
            finished,
        );
        assert(registry_laws::trace_of(events[events.len() - 1].1) != trace_id);
        let before = after_events(shards, events.drop_last());
        let (last_hash, event) = events.last();
        let index = registry::shard_of(last_hash);
        let shard = registry_laws::after_event(before[index], event);
        assert(shard.partial_flush == before[index].partial_flush);
        assert(registry_laws::same_trace(before[index], shard, trace_id));
    }
}

/// The parts that hold nothing count nothing.
proof fn lemma_fresh_total(shards: Seq<ShardView>)
    requires
        forall|i: int| 0 <= i < shards.len() ==> (#[trigger] shards[i]).metrics == registry::no_metrics(),
    ensures
        registry::total_metrics(shards) == registry::no_metrics(),
    decreases shards.len(),
{
    if shards.len() > 0 {
        lemma_fresh_total(shards.drop_last());
        assert(shards.last() == shards[shards.len() - 1]);
    }
}

/// A new registry is, as one registry, an empty one.
pub proof fn law_new_registry_is_empty(partial_flush: PartialFlush, h: spec_fn(Seq<u8>) -> u64)
    ensures
        merged(registry::fresh_shards(partial_flush), h) == registry::empty_shard(partial_flush),
        registry::uniform(registry::fresh_shards(partial_flush)),
{
    let shards = registry::fresh_shards(partial_flush);
    lemma_fresh_total(shards);
    assert(merged_traces(shards, h) =~= Map::empty());
}

} // verus!
