//! The registry of the traces that are being recorded.

use crate::active_spans::ActiveSpanMetadata;
use crate::config::Config;
use crate::ids::{self, SpanId, TraceId};
use crate::sampling::{self, PropagationView, SamplingDecision, SamplingView, TracePropagationData};
use crate::span::{FinishedSpan, SpanView};
use crate::traces::{self, Trace, TraceMap, TraceView};
use foldhash::fast::RandomState;
use std::hash::BuildHasher;
use std::sync::Arc;
use vstd::prelude::*;

verus! {

/// When the finished spans of an incomplete trace are handed out.
#[derive(Debug, Clone, Copy, PartialEq, Eq)]
pub struct PartialFlush {
    /// Whether they ever are.
    pub enabled: bool,
    /// How many there must be.
    pub min_spans: usize,
}

/// What happened in the registry since these numbers were last asked for.
#[derive(Debug, PartialEq, Eq)]
pub struct TraceRegistryMetrics {
    pub spans_created: usize,
    pub spans_finished: usize,
    pub trace_segments_created: usize,
    pub trace_segments_closed: usize,
    pub trace_partial_flush_count: usize,
}

/// What a [`TraceRegistryMetrics`] holds.
pub struct MetricsView {
    pub spans_created: nat,
    pub spans_finished: nat,
    pub trace_segments_created: nat,
    pub trace_segments_closed: nat,
    pub trace_partial_flush_count: nat,
}

impl View for TraceRegistryMetrics {
    type V = MetricsView;

    open spec fn view(&self) -> MetricsView {
        MetricsView {
            spans_created: self.spans_created as nat,
            spans_finished: self.spans_finished as nat,
            trace_segments_created: self.trace_segments_created as nat,
            trace_segments_closed: self.trace_segments_closed as nat,
            trace_partial_flush_count: self.trace_partial_flush_count as nat,
        }
    }
}

/// Nothing happened.
pub open spec fn no_metrics() -> MetricsView {
    MetricsView {
        spans_created: 0,
        spans_finished: 0,
        trace_segments_created: 0,
        trace_segments_closed: 0,
        trace_partial_flush_count: 0,
    }
}

/// Two periods taken together.
pub open spec fn add_metrics(a: MetricsView, b: MetricsView) -> MetricsView {
    MetricsView {
        spans_created: a.spans_created + b.spans_created,
        spans_finished: a.spans_finished + b.spans_finished,
        trace_segments_created: a.trace_segments_created + b.trace_segments_created,
        trace_segments_closed: a.trace_segments_closed + b.trace_segments_closed,
        trace_partial_flush_count: a.trace_partial_flush_count + b.trace_partial_flush_count,
    }
}

/// Whether every number fits in a machine word.
pub open spec fn metrics_fit(m: MetricsView) -> bool {
    &&& m.spans_created <= usize::MAX
    &&& m.spans_finished <= usize::MAX
    &&& m.trace_segments_created <= usize::MAX
    &&& m.trace_segments_closed <= usize::MAX
    &&& m.trace_partial_flush_count <= usize::MAX
}

/// Whether every number can still grow by one.
pub open spec fn metrics_can_grow(m: MetricsView) -> bool {
    &&& m.spans_created < usize::MAX
    &&& m.spans_finished < usize::MAX
    &&& m.trace_segments_created < usize::MAX
    &&& m.trace_segments_closed < usize::MAX
    &&& m.trace_partial_flush_count < usize::MAX
}

impl Default for TraceRegistryMetrics {
    fn default() -> (metrics: Self)
        ensures
            metrics@ == no_metrics(),
    {
        TraceRegistryMetrics {
            spans_created: 0,
            spans_finished: 0,
            trace_segments_created: 0,
            trace_segments_closed: 0,
            trace_partial_flush_count: 0,
        }
    }
}

/// The answer to the registration of propagation data.
#[derive(Debug)]
pub enum RegisterTracePropagationResult {
    /// The trace already had a sampling decision, which stands.
    Existing(SamplingDecision),
    /// The propagation data was stored.
    New,
}

impl View for RegisterTracePropagationResult {
    type V = Option<SamplingView>;

    /// The sampling decision that stands, if there is one.
    open spec fn view(&self) -> Option<SamplingView> {
        match self {
            RegisterTracePropagationResult::Existing(decision) => Some(decision@),
            RegisterTracePropagationResult::New => None,
        }
    }
}

/// One part of the registry.
#[derive(Debug)]
pub struct InnerTraceRegistry {
    registry: TraceMap,
    metrics: TraceRegistryMetrics,
    partial_flush: PartialFlush,
}

/// What an [`InnerTraceRegistry`] holds.
pub struct ShardView {
    pub traces: Map<Seq<u8>, TraceView>,
    pub metrics: MetricsView,
    pub partial_flush: PartialFlush,
}

impl View for InnerTraceRegistry {
    type V = ShardView;

    closed spec fn view(&self) -> ShardView {
        ShardView {
            traces: self.registry@,
            metrics: self.metrics@,
            partial_flush: self.partial_flush,
        }
    }
}

/// A part of the registry that holds nothing.
pub open spec fn empty_shard(partial_flush: PartialFlush) -> ShardView {
    ShardView { traces: Map::empty(), metrics: no_metrics(), partial_flush }
}

/// The sampling decision of a trace, once it has a priority.
pub open spec fn decided(shard: ShardView, trace_id: Seq<u8>) -> Option<SamplingView> {
    if shard.traces.dom().contains(trace_id)
        && shard.traces[trace_id].propagation_data.sampling_decision.priority is Some {
        Some(shard.traces[trace_id].propagation_data.sampling_decision)
    } else {
        None
    }
}

/// Propagation data is registered: it is stored and one more span is open, the root, unless the trace
/// has a sampling decision. Only the root of a new trace is counted as created.
pub open spec fn with_propagation(
    shard: ShardView,
    trace_id: Seq<u8>,
    data: PropagationView,
) -> ShardView {
    if decided(shard, trace_id) is Some {
        shard
    } else if shard.traces.dom().contains(trace_id) {
        ShardView {
            traces: shard.traces.insert(
                trace_id,
                TraceView {
                    open_span_count: shard.traces[trace_id].open_span_count + 1,
                    propagation_data: data,
                    ..shard.traces[trace_id]
                },
            ),
            ..shard
        }
    } else {
        ShardView {
            traces: shard.traces.insert(trace_id, traces::fresh_trace(ids::no_span(), 1, data)),
            metrics: MetricsView {
                spans_created: shard.metrics.spans_created + 1,
                trace_segments_created: shard.metrics.trace_segments_created + 1,
                ..shard.metrics
            },
            ..shard
        }
    }
}

/// The root span of a trace is registered: the first one stands.
pub open spec fn with_root(shard: ShardView, trace_id: Seq<u8>, root: Seq<u8>) -> ShardView {
    let trace = if shard.traces.dom().contains(trace_id) {
        shard.traces[trace_id]
    } else {
        traces::fresh_trace(ids::no_span(), 1, sampling::empty_propagation())
    };
    ShardView {
        traces: shard.traces.insert(
            trace_id,
            if trace.local_root_span_id == ids::no_span() {
                TraceView { local_root_span_id: root, ..trace }
            } else {
                trace
            },
        ),
        ..shard
    }
}

/// A span is registered: one more is open. The first span of an unknown trace is its root.
pub open spec fn with_span(
    shard: ShardView,
    trace_id: Seq<u8>,
    span_id: Seq<u8>,
    data: PropagationView,
) -> ShardView {
    let known = shard.traces.dom().contains(trace_id);
    let trace = if known {
        shard.traces[trace_id]
    } else {
        traces::fresh_trace(span_id, 0, data)
    };
    ShardView {
        traces: shard.traces.insert(
            trace_id,
            TraceView { open_span_count: trace.open_span_count + 1, ..trace },
        ),
        metrics: MetricsView {
            spans_created: shard.metrics.spans_created + 1,
            trace_segments_created: shard.metrics.trace_segments_created + if known {
                0nat
            } else {
                1nat
            },
            ..shard.metrics
        },
        ..shard
    }
}

/// Whether enough spans have finished for handing them out before the trace is complete.
pub open spec fn flushes_partially(partial_flush: PartialFlush, trace: TraceView) -> bool {
    partial_flush.enabled && trace.finished_spans.len() >= partial_flush.min_spans
}

/// What is handed out when a span has finished: the one span of an unknown trace; a trace with
/// enough finished spans, without its open ones; a trace without open spans.
pub open spec fn flushed(
    shard: ShardView,
    trace_id: Seq<u8>,
    finished: SpanView,
) -> Option<TraceView> {
    if !shard.traces.dom().contains(trace_id) {
        Some(
            TraceView {
                finished_spans: seq![finished],
                ..traces::fresh_trace(finished.span_id, 0, sampling::empty_propagation())
            },
        )
    } else {
        let trace = traces::after_finish(shard.traces[trace_id], finished);
        if flushes_partially(shard.partial_flush, trace) {
            Some(TraceView { active_spans: Map::empty(), ..trace })
        } else if trace.open_span_count == 0 {
            Some(trace)
        } else {
            None
        }
    }
}

/// The traces after a span has finished. Spans that are handed out are no longer kept, and a trace
/// without open spans is forgotten.
pub open spec fn traces_after_finish(
    shard: ShardView,
    trace_id: Seq<u8>,
    finished: SpanView,
) -> Map<Seq<u8>, TraceView> {
    if !shard.traces.dom().contains(trace_id) {
        shard.traces
    } else {
        let trace = traces::after_finish(shard.traces[trace_id], finished);
        if flushes_partially(shard.partial_flush, trace) {
            shard.traces.insert(trace_id, TraceView { finished_spans: Seq::empty(), ..trace })
        } else if trace.open_span_count == 0 {
            shard.traces.remove(trace_id)
        } else {
            shard.traces.insert(trace_id, trace)
        }
    }
}

/// The metrics after a span has finished.
pub open spec fn metrics_after_finish(
    shard: ShardView,
    trace_id: Seq<u8>,
    finished: SpanView,
) -> MetricsView {
    let m = MetricsView {
        spans_finished: shard.metrics.spans_finished + 1,
        ..shard.metrics
    };
    if !shard.traces.dom().contains(trace_id) {
        MetricsView {
            trace_segments_created: m.trace_segments_created + 1,
            trace_segments_closed: m.trace_segments_closed + 1,
            ..m
        }
    } else {
        let trace = traces::after_finish(shard.traces[trace_id], finished);
        if flushes_partially(shard.partial_flush, trace) {
            MetricsView { trace_partial_flush_count: m.trace_partial_flush_count + 1, ..m }
        } else if trace.open_span_count == 0 {
            MetricsView { trace_segments_closed: m.trace_segments_closed + 1, ..m }
        } else {
            m
        }
    }
}

/// A span has finished.
pub open spec fn with_finished(
    shard: ShardView,
    trace_id: Seq<u8>,
    finished: SpanView,
) -> ShardView {
    ShardView {
        traces: traces_after_finish(shard, trace_id, finished),
        metrics: metrics_after_finish(shard, trace_id, finished),
        ..shard
    }
}

/// The metadata of an open span is stored, if its trace is known.
pub open spec fn with_metadata(
    shard: ShardView,
    trace_id: Seq<u8>,
    span_id: Seq<u8>,
    metadata: Option<Seq<char>>,
) -> ShardView {
    if shard.traces.dom().contains(trace_id) {
        let trace = shard.traces[trace_id];
        ShardView {
            traces: shard.traces.insert(
                trace_id,
                TraceView { active_spans: trace.active_spans.insert(span_id, metadata), ..trace },
            ),
            ..shard
        }
    } else {
        shard
    }
}

/// The metrics are read, and start anew.
pub open spec fn without_metrics(shard: ShardView) -> ShardView {
    ShardView { metrics: no_metrics(), ..shard }
}

/// The propagation data of a trace; empty for an unknown trace.
pub open spec fn propagation_of(shard: ShardView, trace_id: Seq<u8>) -> PropagationView {
    if shard.traces.dom().contains(trace_id) {
        shard.traces[trace_id].propagation_data
    } else {
        sampling::empty_propagation()
    }
}

/// The root span of a trace, once it is known.
pub open spec fn root_of(shard: ShardView, trace_id: Seq<u8>) -> Option<Seq<u8>> {
    if shard.traces.dom().contains(trace_id)
        && shard.traces[trace_id].local_root_span_id != ids::no_span() {
        Some(shard.traces[trace_id].local_root_span_id)
    } else {
        None
    }
}

/// The metadata of an open span, if it is known.
pub open spec fn metadata_of(
    shard: ShardView,
    trace_id: Seq<u8>,
    span_id: Seq<u8>,
) -> Option<Option<Seq<char>>> {
    if shard.traces.dom().contains(trace_id)
        && shard.traces[trace_id].active_spans.dom().contains(span_id) {
        Some(shard.traces[trace_id].active_spans[span_id])
    } else {
        None
    }
}

/// Whether one more span can be counted as open in a trace.
pub open spec fn can_open(shard: ShardView, trace_id: Seq<u8>) -> bool {
    shard.traces.dom().contains(trace_id) ==> shard.traces[trace_id].open_span_count < usize::MAX
}

impl InnerTraceRegistry {
    /// A part of the registry that holds nothing.
    pub fn new(partial_flush: PartialFlush) -> (shard: InnerTraceRegistry)
        ensures
            shard@ == empty_shard(partial_flush),
    {
        InnerTraceRegistry {
            registry: TraceMap::new(),
            metrics: TraceRegistryMetrics::default(),
            partial_flush,
        }
    }

    /// Stores the propagation data of a trace, unless the trace has a sampling decision, which is
    /// then returned.
    ///
    /// One more span of the trace is open from now on, the root: it may be materialised only when it
    /// is closed, and its children must not be handed out before.
    pub fn register_local_root_trace_propagation_data(
        &mut self,
        trace_id: TraceId,
        propagation_data: TracePropagationData,
    ) -> (result: RegisterTracePropagationResult)
        requires
            metrics_can_grow(old(self)@.metrics),
            decided(old(self)@, trace_id@) is Some || can_open(old(self)@, trace_id@),
        ensures
            final(self)@ == with_propagation(old(self)@, trace_id@, propagation_data@),
            result@ == decided(old(self)@, trace_id@),
    {
        let ghost before = self@;
        let result = match self.registry.get_mut(&trace_id) {
            Some(trace) => {
                if trace.propagation_data.sampling_decision.priority.is_some() {
                    let decision = trace.propagation_data.sampling_decision.clone();
                    RegisterTracePropagationResult::Existing(decision)
                } else {
                    trace.propagation_data = propagation_data;
                    trace.open_span_count = trace.open_span_count + 1;
                    RegisterTracePropagationResult::New
                }
            },
            None => {
                let root: SpanId = [0u8; 8];
                assert(root@ =~= ids::no_span());
                self.registry.insert(trace_id, Trace::new(root, 1, propagation_data));
                self.metrics.trace_segments_created = self.metrics.trace_segments_created + 1;
                self.metrics.spans_created = self.metrics.spans_created + 1;
                RegisterTracePropagationResult::New
            },
        };
        assert(self@.traces =~= with_propagation(before, trace_id@, propagation_data@).traces);
        result
    }

    /// Sets the root span of a trace, unless it has one.
    ///
    /// This goes with a call of `register_local_root_trace_propagation_data` before it, which has
    /// counted the root span as open.
    pub fn register_local_root_span(&mut self, trace_id: TraceId, root_span_id: SpanId)
        ensures
            final(self)@ == with_root(old(self)@, trace_id@, root_span_id@),
    {
        let ghost before = self@;
        match self.registry.get_mut(&trace_id) {
            Some(trace) => {
                if ids::span_is_unset(&trace.local_root_span_id) {
                    trace.local_root_span_id = root_span_id;
                }
            },
            None => {
                self.registry.insert(
                    trace_id,
                    Trace::new(root_span_id, 1, TracePropagationData::empty()),
                );
            },
        }
        assert(self@.traces =~= with_root(before, trace_id@, root_span_id@).traces);
    }

    /// Counts one more open span. A trace that was not known is created, with this span as its
    /// root.
    pub fn register_span(
        &mut self,
        trace_id: TraceId,
        span_id: SpanId,
        propagation_data: TracePropagationData,
    )
        requires
            metrics_can_grow(old(self)@.metrics),
            can_open(old(self)@, trace_id@),
        ensures
            final(self)@ == with_span(old(self)@, trace_id@, span_id@, propagation_data@),
    {
        let ghost before = self@;
        match self.registry.get_mut(&trace_id) {
            Some(trace) => {
                trace.open_span_count = trace.open_span_count + 1;
            },
            None => {
                self.metrics.trace_segments_created = self.metrics.trace_segments_created + 1;
                self.registry.insert(trace_id, Trace::new(span_id, 1, propagation_data));
            },
        }
        self.metrics.spans_created = self.metrics.spans_created + 1;
        assert(self@.traces =~= with_span(
            before,
            trace_id@,
            span_id@,
            propagation_data@,
        ).traces);
    }

    /// Records that a span has finished, and hands out what is to be sent now.
    ///
    /// A trace is handed out once no span of it is open. Where parts of traces may be sent, the
    /// finished spans are handed out as soon as there are enough of them; otherwise a trace with
    /// a span that never finishes is kept forever.
    ///
    /// The root span, once it has finished, is the first of the spans that are handed out. The
    /// span of an unknown trace is handed out at once.
    pub fn finish_span(&mut self, trace_id: TraceId, finished: FinishedSpan) -> (chunk: Option<
        Trace,
    >)
        requires
            metrics_can_grow(old(self)@.metrics),
        ensures
            final(self)@ == with_finished(old(self)@, trace_id@, finished@),
            match chunk {
                Some(trace) => flushed(old(self)@, trace_id@, finished@) == Some(trace@),
                None => flushed(old(self)@, trace_id@, finished@) is None,
            },
    {
        let ghost before = self@;
        self.metrics.spans_finished = self.metrics.spans_finished + 1;
        let partial_flush = self.partial_flush;
        let mut complete = false;
        let chunk: Option<Trace> = match self.registry.get_mut(&trace_id) {
            Some(trace) => {
                trace.finish(finished);
                if partial_flush.enabled && trace.finished_spans.len() >= partial_flush.min_spans {
                    let mut spans: Vec<FinishedSpan> = Vec::new();
                    std::mem::swap(&mut spans, &mut trace.finished_spans);
                    let mut part = Trace::new(
                        trace.local_root_span_id,
                        trace.open_span_count,
                        trace.propagation_data.clone(),
                    );
                    part.finished_spans = spans;
                    assert(trace@.finished_spans =~= Seq::<SpanView>::empty());
                    Some(part)
                } else {
                    complete = trace.open_span_count == 0;
                    None
                }
            },
            None => {
                self.metrics.trace_segments_created = self.metrics.trace_segments_created + 1;
                self.metrics.trace_segments_closed = self.metrics.trace_segments_closed + 1;
                let mut orphan = Trace::new(
                    finished.span_context.span_id,
                    0,
                    TracePropagationData::empty(),
                );
                orphan.finished_spans.push(finished);
                assert(orphan@.finished_spans =~= seq![finished@]);
                return Some(orphan);
            },
        };
        if complete {
            self.metrics.trace_segments_closed = self.metrics.trace_segments_closed + 1;
            let whole = self.registry.remove(&trace_id);
            assert(self@.traces =~= traces_after_finish(before, trace_id@, finished@));
            whole
        } else {
            if chunk.is_some() {
                self.metrics.trace_partial_flush_count = self.metrics.trace_partial_flush_count + 1;
            }
            chunk
        }
    }

    /// The propagation data of a trace; empty for an unknown trace.
    pub fn get_trace_propagation_data(&self, trace_id: TraceId) -> (data: TracePropagationData)
        ensures
            data@ == propagation_of(self@, trace_id@),
    {
        match self.registry.get(&trace_id) {
            Some(trace) => trace.propagation_data.clone(),
            None => TracePropagationData::empty(),
        }
    }

    /// The root span of a trace, once it is known.
    pub fn get_local_root_span_id(&self, trace_id: TraceId) -> (root: Option<SpanId>)
        ensures
            match root {
                Some(root) => root_of(self@, trace_id@) == Some(root@),
                None => root_of(self@, trace_id@) is None,
            },
    {
        match self.registry.get(&trace_id) {
            Some(trace) => {
                if ids::span_is_unset(&trace.local_root_span_id) {
                    None
                } else {
                    Some(trace.local_root_span_id)
                }
            },
            None => None,
        }
    }

    /// Stores the metadata of an open span, if its trace is known.
    pub fn set_active_span_metadata(
        &mut self,
        trace_id: TraceId,
        span_id: SpanId,
        metadata: ActiveSpanMetadata,
    )
        ensures
            final(self)@ == with_metadata(old(self)@, trace_id@, span_id@, metadata@),
    {
        match self.registry.get_mut(&trace_id) {
            Some(trace) => {
                trace.active_spans.insert(span_id, metadata);
            },
            None => {},
        }
    }

    /// The metadata of an open span, if it is known.
    pub fn get_active_span_metadata(&self, trace_id: TraceId, span_id: SpanId) -> (found: Option<
        &ActiveSpanMetadata,
    >)
        ensures
            match found {
                Some(metadata) => metadata_of(self@, trace_id@, span_id@) == Some(metadata@),
                None => metadata_of(self@, trace_id@, span_id@) is None,
            },
    {
        match self.registry.get(&trace_id) {
            Some(trace) => trace.active_spans.get(&span_id),
            None => None,
        }
    }

    /// Whether one more event can be counted, and one more span as open in a trace.
    pub fn has_room(&self, trace_id: TraceId) -> (room: bool)
        ensures
            room == (metrics_can_grow(self@.metrics) && can_open(self@, trace_id@)),
    {
        let can_open = match self.registry.get(&trace_id) {
            Some(trace) => trace.open_span_count < usize::MAX,
            None => true,
        };
        can_open && self.metrics.spans_created < usize::MAX && self.metrics.spans_finished
            < usize::MAX && self.metrics.trace_segments_created < usize::MAX
            && self.metrics.trace_segments_closed < usize::MAX
            && self.metrics.trace_partial_flush_count < usize::MAX
    }

    /// What happened since this was last asked for.
    pub fn get_metrics(&mut self) -> (metrics: TraceRegistryMetrics)
        ensures
            metrics@ == old(self)@.metrics,
            final(self)@ == without_metrics(old(self)@),
    {
        let mut metrics = TraceRegistryMetrics::default();
        std::mem::swap(&mut metrics, &mut self.metrics);
        metrics
    }
}

/// How many parts the registry has.
pub const TRACE_REGISTRY_SHARDS: usize = 64;

/// A randomly seeded hasher of the `foldhash` crate.
#[verifier::external_type_specification]
#[verifier::external_body]
pub struct ExFoldhashRandomState(foldhash::fast::RandomState);

/// Calls `foldhash::fast::RandomState::default`.
///
/// Nothing is claimed of the result: the seed is random.
#[verifier::external_body]
fn foldhash_default() -> (hasher: RandomState) {
    RandomState::default()
}

/// Calls `BuildHasher::hash_one` on the hasher, with the trace identifier as an integer in the
/// machine's byte order.
///
/// Nothing is claimed of the result: it depends on the random seed.
#[verifier::external_body]
fn foldhash_hash_one(hasher: &RandomState, trace_id: TraceId) -> (hash: u64) {
    hasher.hash_one(u128::from_ne_bytes(trace_id))
}

/// The hash is one that the hasher gives for a trace. Which one that is depends on the random seed.
pub closed spec fn gives_hash(hasher: RandomState, trace_id: TraceId, hash: u64) -> bool {
    call_ensures(foldhash_hash_one, (&hasher, trace_id), hash)
}

/// The part of the registry that a hash picks.
pub open spec fn shard_of(hash: u64) -> int {
    hash as int % TRACE_REGISTRY_SHARDS as int
}

/// The part of the registry that a hash picks.
pub fn shard_index(hash: u64) -> (index: usize)
    ensures
        index == shard_of(hash),
        index < TRACE_REGISTRY_SHARDS,
{
    (hash % TRACE_REGISTRY_SHARDS as u64) as usize
}

/// The parts of a registry that holds nothing.
pub open spec fn fresh_shards(partial_flush: PartialFlush) -> Seq<ShardView> {
    Seq::new(TRACE_REGISTRY_SHARDS as nat, |i: int| empty_shard(partial_flush))
}

/// The parts form a registry: all are there, and they hand out incomplete traces alike.
pub open spec fn uniform(shards: Seq<ShardView>) -> bool {
    &&& shards.len() == TRACE_REGISTRY_SHARDS
    &&& forall|i: int|
        0 <= i < shards.len() ==> (#[trigger] shards[i]).partial_flush == shards[0].partial_flush
}

/// All the metrics taken together.
pub open spec fn total_metrics(shards: Seq<ShardView>) -> MetricsView
    decreases shards.len(),
{
    if shards.len() == 0 {
        no_metrics()
    } else {
        add_metrics(total_metrics(shards.drop_last()), shards.last().metrics)
    }
}

/// Every part after its metrics were read.
pub open spec fn all_without_metrics(shards: Seq<ShardView>) -> Seq<ShardView> {
    shards.map_values(|shard: ShardView| without_metrics(shard))
}

/// The parts after the part that `hash` picks has become `shard`.
pub open spec fn replace_shard(
    shards: Seq<ShardView>,
    hash: u64,
    shard: ShardView,
) -> Seq<ShardView> {
    shards.update(shard_of(hash), shard)
}

/// Propagation data is registered in the part that `hash` picks.
pub open spec fn all_with_propagation(
    shards: Seq<ShardView>,
    hash: u64,
    trace_id: Seq<u8>,
    data: PropagationView,
) -> Seq<ShardView> {
    replace_shard(shards, hash, with_propagation(shards[shard_of(hash)], trace_id, data))
}

/// A root span is registered in the part that `hash` picks.
pub open spec fn all_with_root(
    shards: Seq<ShardView>,
    hash: u64,
    trace_id: Seq<u8>,
    root: Seq<u8>,
) -> Seq<ShardView> {
    replace_shard(shards, hash, with_root(shards[shard_of(hash)], trace_id, root))
}

/// A span is registered in the part that `hash` picks.
pub open spec fn all_with_span(
    shards: Seq<ShardView>,
    hash: u64,
    trace_id: Seq<u8>,
    span_id: Seq<u8>,
    data: PropagationView,
) -> Seq<ShardView> {
    replace_shard(shards, hash, with_span(shards[shard_of(hash)], trace_id, span_id, data))
}

/// A span has finished, in the part that `hash` picks.
pub open spec fn all_with_finished(
    shards: Seq<ShardView>,
    hash: u64,
    trace_id: Seq<u8>,
    finished: SpanView,
) -> Seq<ShardView> {
    replace_shard(shards, hash, with_finished(shards[shard_of(hash)], trace_id, finished))
}

/// The metadata of a span is stored in the part that `hash` picks.
pub open spec fn all_with_metadata(
    shards: Seq<ShardView>,
    hash: u64,
    trace_id: Seq<u8>,
    span_id: Seq<u8>,
    metadata: Option<Seq<char>>,
) -> Seq<ShardView> {
    replace_shard(shards, hash, with_metadata(shards[shard_of(hash)], trace_id, span_id, metadata))
}

/// The route of an open span, if it is known.
pub open spec fn http_route_of(
    shard: ShardView,
    trace_id: Seq<u8>,
    span_id: Seq<u8>,
) -> Option<Seq<char>> {
    match metadata_of(shard, trace_id, span_id) {
        Some(route) => route,
        None => None,
    }
}

/// The text in an option.
pub open spec fn opt_str(text: Option<&str>) -> Option<Seq<char>> {
    match text {
        Some(text) => Some(text@),
        None => None,
    }
}

/// The prefix of a list of parts has no larger metrics.
proof fn lemma_prefix_metrics_fit(shards: Seq<ShardView>, count: int)
    requires
        0 <= count <= shards.len(),
        metrics_fit(total_metrics(shards)),
    ensures
        metrics_fit(total_metrics(shards.take(count))),
    decreases shards.len() - count,
{
    if count == shards.len() {
        assert(shards.take(count) =~= shards);
    } else {
        lemma_prefix_metrics_fit(shards, count + 1);
        assert(shards.take(count + 1).drop_last() =~= shards.take(count));
    }
}

/// The registry of the traces that are being recorded.
///
/// For each trace it knows the root span, the finished spans, the number of open spans and the
/// sampling decision. The traces are spread over parts by a hash of their identifiers.
#[derive(Debug)]
pub struct TraceRegistry {
    inner: Vec<InnerTraceRegistry>,
    hasher: RandomState,
}

impl View for TraceRegistry {
    type V = Seq<ShardView>;

    closed spec fn view(&self) -> Seq<ShardView> {
        self.inner@.map_values(|shard: InnerTraceRegistry| shard@)
    }
}

impl TraceRegistry {
    /// All parts are there.
    #[verifier::type_invariant]
    pub open spec fn has_all_parts(self) -> bool {
        self@.len() == TRACE_REGISTRY_SHARDS
    }

    /// The parts form one registry.
    pub open spec fn wf(self) -> bool {
        uniform(self@)
    }

    /// Every count of events can still grow by one.
    pub open spec fn can_count(self) -> bool {
        forall|i: int| 0 <= i < self@.len() ==> metrics_can_grow((#[trigger] self@[i]).metrics)
    }

    /// One more span can be counted as open in the trace, wherever it is.
    pub open spec fn can_count_open(self, trace_id: Seq<u8>) -> bool {
        forall|i: int| 0 <= i < self@.len() ==> can_open(#[trigger] self@[i], trace_id)
    }

    /// An empty registry.
    pub fn new(config: Arc<Config>) -> (registry: TraceRegistry)
        ensures
            registry.wf(),
            registry@ == fresh_shards(
                PartialFlush {
                    enabled: config.trace_partial_flush_enabled,
                    min_spans: config.trace_partial_flush_min_spans,
                },
            ),
    {
        let partial_flush = PartialFlush {
            enabled: config.trace_partial_flush_enabled,
            min_spans: config.trace_partial_flush_min_spans,
        };
        let mut inner: Vec<InnerTraceRegistry> = Vec::new();
        let mut i: usize = 0;
        while i < TRACE_REGISTRY_SHARDS
            invariant
                i <= TRACE_REGISTRY_SHARDS,
                inner@.len() == i,
                forall|j: int| 0 <= j < i ==> (#[trigger] inner@[j])@ == empty_shard(partial_flush),
            decreases TRACE_REGISTRY_SHARDS - i,
        {
            inner.push(InnerTraceRegistry::new(partial_flush));
            i = i + 1;
        }
        let registry = TraceRegistry { inner, hasher: foldhash_default() };
        assert(registry@ =~= fresh_shards(partial_flush));
        registry
    }

    /// Whether one more event can be counted, and one more span as open in a trace, wherever the
    /// trace is.
    pub fn has_room(&self, trace_id: TraceId) -> (room: bool)
        ensures
            room == (self.can_count() && self.can_count_open(trace_id@)),
    {
        let mut i: usize = 0;
        while i < self.inner.len()
            invariant
                i <= self.inner.len(),
                forall|j: int|
                    0 <= j < i ==> metrics_can_grow((#[trigger] self@[j]).metrics) && can_open(
                        self@[j],
                        trace_id@,
                    ),
            decreases self.inner.len() - i,
        {
            assert(self@[i as int] == self.inner@[i as int]@);
            if !self.inner[i].has_room(trace_id) {
                return false;
            }
            i = i + 1;
        }
        true
    }

    /// The hasher that spreads the traces over the parts.
    pub closed spec fn hasher(self) -> RandomState {
        self.hasher
    }

    /// The hash is one that the hasher of the registry gives for a trace.
    pub open spec fn hashes_to(self, trace_id: TraceId, hash: u64) -> bool {
        gives_hash(self.hasher(), trace_id, hash)
    }

    /// The hash that picks the part of the registry for a trace.
    pub(crate) fn hash(&self, trace_id: TraceId) -> (hash: u64)
        ensures
            self.hashes_to(trace_id, hash),
    {
        foldhash_hash_one(&self.hasher, trace_id)
    }

    /// As [`Self::register_local_root_trace_propagation_data`], in the part that `hash` picks.
    pub fn register_local_root_trace_propagation_data_at(
        &mut self,
        hash: u64,
        trace_id: TraceId,
        propagation_data: TracePropagationData,
    ) -> (result: RegisterTracePropagationResult)
        requires
            metrics_can_grow(old(self)@[shard_of(hash)].metrics),
            decided(old(self)@[shard_of(hash)], trace_id@) is Some || can_open(
                old(self)@[shard_of(hash)],
                trace_id@,
            ),
        ensures
            old(self).wf() ==> final(self).wf(),
            final(self).hasher() == old(self).hasher(),
            final(self)@ == all_with_propagation(
                old(self)@,
                hash,
                trace_id@,
                propagation_data@,
            ),
            result@ == decided(old(self)@[shard_of(hash)], trace_id@),
    {
        proof {
            use_type_invariant(&*self);
        }
        let ghost before = self@;
        let index = shard_index(hash);
        let result = self.inner[index].register_local_root_trace_propagation_data(
            trace_id,
            propagation_data,
        );
        assert(self@ =~= all_with_propagation(before, hash, trace_id@, propagation_data@));
        result
    }

    /// As [`Self::register_local_root_span`], in the part that `hash` picks.
    pub fn register_local_root_span_at(
        &mut self,
        hash: u64,
        trace_id: TraceId,
        root_span_id: SpanId,
    )
        ensures
            old(self).wf() ==> final(self).wf(),
            final(self).hasher() == old(self).hasher(),
            final(self)@ == all_with_root(old(self)@, hash, trace_id@, root_span_id@),
    {
        proof {
            use_type_invariant(&*self);
        }
        let ghost before = self@;
        let index = shard_index(hash);
        self.inner[index].register_local_root_span(trace_id, root_span_id);
        assert(self@ =~= all_with_root(before, hash, trace_id@, root_span_id@));
    }

    /// As [`Self::register_span`], in the part that `hash` picks.
    pub fn register_span_at(
        &mut self,
        hash: u64,
        trace_id: TraceId,
        span_id: SpanId,
        propagation_data: TracePropagationData,
    )
        requires
            metrics_can_grow(old(self)@[shard_of(hash)].metrics),
            can_open(old(self)@[shard_of(hash)], trace_id@),
        ensures
            old(self).wf() ==> final(self).wf(),
            final(self).hasher() == old(self).hasher(),
            final(self)@ == all_with_span(
                old(self)@,
                hash,
                trace_id@,
                span_id@,
                propagation_data@,
            ),
    {
        proof {
            use_type_invariant(&*self);
        }
        let ghost before = self@;
        let index = shard_index(hash);
        self.inner[index].register_span(trace_id, span_id, propagation_data);
        assert(self@ =~= all_with_span(before, hash, trace_id@, span_id@, propagation_data@));
    }

    /// As [`Self::finish_span`], in the part that `hash` picks.
    pub fn finish_span_at(
        &mut self,
        hash: u64,
        trace_id: TraceId,
        finished: FinishedSpan,
    ) -> (chunk: Option<Trace>)
        requires
            metrics_can_grow(old(self)@[shard_of(hash)].metrics),
        ensures
            old(self).wf() ==> final(self).wf(),
            final(self).hasher() == old(self).hasher(),
            final(self)@ == all_with_finished(old(self)@, hash, trace_id@, finished@),
            match chunk {
                Some(trace) => flushed(old(self)@[shard_of(hash)], trace_id@, finished@) == Some(
                    trace@,
                ),
                None => flushed(old(self)@[shard_of(hash)], trace_id@, finished@) is None,
            },
    {
        proof {
            use_type_invariant(&*self);
        }
        let ghost before = self@;
        let index = shard_index(hash);
        let chunk = self.inner[index].finish_span(trace_id, finished);
        assert(self@ =~= all_with_finished(before, hash, trace_id@, finished@));
        chunk
    }

    /// As [`Self::get_trace_propagation_data`], in the part that `hash` picks.
    pub fn get_trace_propagation_data_at(
        &self,
        hash: u64,
        trace_id: TraceId,
    ) -> (data: TracePropagationData)
        ensures
            data@ == propagation_of(self@[shard_of(hash)], trace_id@),
    {
        proof {
            use_type_invariant(&*self);
        }
        self.inner[shard_index(hash)].get_trace_propagation_data(trace_id)
    }

    /// As [`Self::get_local_root_span_id`], in the part that `hash` picks.
    pub fn get_local_root_span_id_at(&self, hash: u64, trace_id: TraceId) -> (root: Option<SpanId>)
        ensures
            match root {
                Some(root) => root_of(self@[shard_of(hash)], trace_id@) == Some(root@),
                None => root_of(self@[shard_of(hash)], trace_id@) is None,
            },
    {
        proof {
            use_type_invariant(&*self);
        }
        self.inner[shard_index(hash)].get_local_root_span_id(trace_id)
    }

    /// As [`Self::set_active_span_metadata`], in the part that `hash` picks.
    pub fn set_active_span_metadata_at(
        &mut self,
        hash: u64,
        trace_id: TraceId,
        span_id: SpanId,
        metadata: ActiveSpanMetadata,
    )
        ensures
            old(self).wf() ==> final(self).wf(),
            final(self).hasher() == old(self).hasher(),
            final(self)@ == all_with_metadata(old(self)@, hash, trace_id@, span_id@, metadata@),
    {
        proof {
            use_type_invariant(&*self);
        }
        let ghost before = self@;
        let index = shard_index(hash);
        self.inner[index].set_active_span_metadata(trace_id, span_id, metadata);
        assert(self@ =~= all_with_metadata(before, hash, trace_id@, span_id@, metadata@));
    }

    /// The metadata of an open span, if it is known, in the part that `hash` picks.
    pub fn get_active_span_metadata_at(
        &self,
        hash: u64,
        trace_id: TraceId,
        span_id: SpanId,
    ) -> (found: Option<&ActiveSpanMetadata>)
        ensures
            match found {
                Some(metadata) => metadata_of(self@[shard_of(hash)], trace_id@, span_id@) == Some(
                    metadata@,
                ),
                None => metadata_of(self@[shard_of(hash)], trace_id@, span_id@) is None,
            },
    {
        proof {
            use_type_invariant(&*self);
        }
        self.inner[shard_index(hash)].get_active_span_metadata(trace_id, span_id)
    }

    /// As [`Self::with_extracted_span_data`], in the part that `hash` picks.
    pub fn with_extracted_span_data_at<F, R>(
        &self,
        hash: u64,
        trace_id: TraceId,
        span_id: SpanId,
        f: F,
    ) -> (result: Option<R>) where F: FnOnce(Option<&str>) -> R
        requires
            metadata_of(self@[shard_of(hash)], trace_id@, span_id@) is Some ==> forall|
                route: Option<&str>,
            |
                opt_str(route) == http_route_of(self@[shard_of(hash)], trace_id@, span_id@)
                    ==> #[trigger] f.requires((route,)),
        ensures
            result is Some <==> metadata_of(self@[shard_of(hash)], trace_id@, span_id@) is Some,
            result is Some ==> exists|route: Option<&str>|
                opt_str(route) == http_route_of(self@[shard_of(hash)], trace_id@, span_id@)
                    && #[trigger] f.ensures((route,), result->0),
    {
        let metadata = match self.get_active_span_metadata_at(hash, trace_id, span_id) {
            Some(metadata) => metadata,
            None => {
                return None;
            },
        };
        let route: Option<&str> = match &metadata.http_route {
            Some(route) => Some(route.as_str()),
            None => None,
        };
        let ghost called = f;
        let value = f(route);
        let result = Some(value);
        assert(called.ensures((route,), result->0));
        result
    }

    /// Stores the propagation data of a trace. This increases the open span count of the trace by 1,
    /// but does not set the root span: `register_local_root_span` is to be called for that.
    ///
    /// Where the trace has a sampling decision already, that decision is returned, and nothing
    /// changes.
    pub fn register_local_root_trace_propagation_data(
        &mut self,
        trace_id: TraceId,
        propagation_data: TracePropagationData,
    ) -> (result: RegisterTracePropagationResult)
        requires
            old(self).can_count(),
            old(self).can_count_open(trace_id@),
        ensures
            old(self).wf() ==> final(self).wf(),
            final(self).hasher() == old(self).hasher(),
            exists|hash: u64|
                {
                    &&& old(self).hashes_to(trace_id, hash)
                    &&& final(self)@ == #[trigger] all_with_propagation(
                        old(self)@,
                        hash,
                        trace_id@,
                        propagation_data@,
                    )
                    &&& result@ == decided(old(self)@[shard_of(hash)], trace_id@)
                },
    {
        proof {
            use_type_invariant(&*self);
        }
        let hash = self.hash(trace_id);
        self.register_local_root_trace_propagation_data_at(hash, trace_id, propagation_data)
    }

    /// Sets the root span of a trace, unless it has one.
    pub fn register_local_root_span(&mut self, trace_id: TraceId, root_span_id: SpanId)
        ensures
            old(self).wf() ==> final(self).wf(),
            final(self).hasher() == old(self).hasher(),
            exists|hash: u64|
                old(self).hashes_to(trace_id, hash) && final(self)@ == #[trigger] all_with_root(
                    old(self)@,
                    hash,
                    trace_id@,
                    root_span_id@,
                ),
    {
        let hash = self.hash(trace_id);
        self.register_local_root_span_at(hash, trace_id, root_span_id)
    }

    /// Registers a span of a trace.
    pub fn register_span(
        &mut self,
        trace_id: TraceId,
        span_id: SpanId,
        propagation_data: TracePropagationData,
    )
        requires
            old(self).can_count(),
            old(self).can_count_open(trace_id@),
        ensures
            old(self).wf() ==> final(self).wf(),
            final(self).hasher() == old(self).hasher(),
            exists|hash: u64|
                old(self).hashes_to(trace_id, hash) && final(self)@ == #[trigger] all_with_span(
                    old(self)@,
                    hash,
                    trace_id@,
                    span_id@,
                    propagation_data@,
                ),
    {
        proof {
            use_type_invariant(&*self);
        }
        let hash = self.hash(trace_id);
        self.register_span_at(hash, trace_id, span_id, propagation_data)
    }

    /// Records that a span has finished. Where the trace is complete, or enough of its spans have
    /// finished, the spans to send are returned.
    pub fn finish_span(&mut self, trace_id: TraceId, finished: FinishedSpan) -> (chunk: Option<
        Trace,
    >)
        requires
            old(self).can_count(),
        ensures
            old(self).wf() ==> final(self).wf(),
            final(self).hasher() == old(self).hasher(),
            exists|hash: u64|
                {
                    &&& old(self).hashes_to(trace_id, hash)
                    &&& final(self)@ == #[trigger] all_with_finished(
                        old(self)@,
                        hash,
                        trace_id@,
                        finished@,
                    )
                    &&& match chunk {
                        Some(trace) => flushed(old(self)@[shard_of(hash)], trace_id@, finished@)
                            == Some(trace@),
                        None => flushed(old(self)@[shard_of(hash)], trace_id@, finished@) is None,
                    }
                },
    {
        proof {
            use_type_invariant(&*self);
        }
        let hash = self.hash(trace_id);
        self.finish_span_at(hash, trace_id, finished)
    }

    /// The propagation data of a trace; empty for an unknown trace.
    pub fn get_trace_propagation_data(&self, trace_id: TraceId) -> (data: TracePropagationData)
        ensures
            exists|hash: u64|
                self.hashes_to(trace_id, hash) && data@ == propagation_of(
                    self@[#[trigger] shard_of(hash)],
                    trace_id@,
                ),
    {
        let hash = self.hash(trace_id);
        self.get_trace_propagation_data_at(hash, trace_id)
    }

    /// The root span of a trace. There is none for an unknown trace, nor while the root span is
    /// not set.
    pub fn get_local_root_span_id(&self, trace_id: TraceId) -> (root: Option<SpanId>)
        ensures
            exists|hash: u64|
                self.hashes_to(trace_id, hash) && match root {
                    Some(root) => root_of(self@[#[trigger] shard_of(hash)], trace_id@) == Some(
                        root@,
                    ),
                    None => root_of(self@[shard_of(hash)], trace_id@) is None,
                },
    {
        let hash = self.hash(trace_id);
        self.get_local_root_span_id_at(hash, trace_id)
    }

    /// Stores the metadata of an open span.
    pub fn set_active_span_metadata(
        &mut self,
        trace_id: TraceId,
        span_id: SpanId,
        metadata: ActiveSpanMetadata,
    )
        ensures
            old(self).wf() ==> final(self).wf(),
            final(self).hasher() == old(self).hasher(),
            exists|hash: u64|
                old(self).hashes_to(trace_id, hash) && final(self)@ == #[trigger] all_with_metadata(
                    old(self)@,
                    hash,
                    trace_id@,
                    span_id@,
                    metadata@,
                ),
    {
        let hash = self.hash(trace_id);
        self.set_active_span_metadata_at(hash, trace_id, span_id, metadata)
    }

    /// Calls `f` with the route of an open span, without copying it. Where the trace or the span is
    /// not found, `f` is not called and there is no result.
    pub fn with_extracted_span_data<F, R>(
        &self,
        trace_id: TraceId,
        span_id: SpanId,
        _local_root_span_id: SpanId,
        f: F,
    ) -> (result: Option<R>) where F: FnOnce(Option<&str>) -> R
        requires
            forall|hash: u64, route: Option<&str>|
                self.hashes_to(trace_id, hash) && metadata_of(
                    self@[#[trigger] shard_of(hash)],
                    trace_id@,
                    span_id@,
                ) is Some && opt_str(route) == http_route_of(
                    self@[shard_of(hash)],
                    trace_id@,
                    span_id@,
                ) ==> #[trigger] f.requires((route,)),
        ensures
            exists|hash: u64|
                {
                    let shard = self@[#[trigger] shard_of(hash)];
                    self.hashes_to(trace_id, hash) && match result {
                        Some(value) => metadata_of(shard, trace_id@, span_id@) is Some && exists|
                            route: Option<&str>,
                        |
                            opt_str(route) == http_route_of(shard, trace_id@, span_id@)
                                && #[trigger] f.ensures((route,), value),
                        None => metadata_of(shard, trace_id@, span_id@) is None,
                    }
                },
    {
        let hash = self.hash(trace_id);
        self.with_extracted_span_data_at(hash, trace_id, span_id, f)
    }

    /// Whether what happened in all parts together can be counted.
    pub fn metrics_fit(&self) -> (fit: bool)
        ensures
            fit == metrics_fit(total_metrics(self@)),
    {
        proof {
            use_type_invariant(&*self);
        }
        let max = usize::MAX as u128;
        let mut created: u128 = 0;
        let mut finished: u128 = 0;
        let mut segments_created: u128 = 0;
        let mut segments_closed: u128 = 0;
        let mut partial_flushes: u128 = 0;
        let mut i: usize = 0;
        while i < TRACE_REGISTRY_SHARDS
            invariant
                i <= TRACE_REGISTRY_SHARDS,
                max == usize::MAX,
                self@.len() == TRACE_REGISTRY_SHARDS,
                self.inner@.len() == self@.len(),
                total_metrics(self@.take(i as int)) == (MetricsView {
                    spans_created: created as nat,
                    spans_finished: finished as nat,
                    trace_segments_created: segments_created as nat,
                    trace_segments_closed: segments_closed as nat,
                    trace_partial_flush_count: partial_flushes as nat,
                }),
                created <= i * 0xffff_ffff_ffff_ffff,
                finished <= i * 0xffff_ffff_ffff_ffff,
                segments_created <= i * 0xffff_ffff_ffff_ffff,
                segments_closed <= i * 0xffff_ffff_ffff_ffff,
                partial_flushes <= i * 0xffff_ffff_ffff_ffff,
            decreases TRACE_REGISTRY_SHARDS - i,
        {
            proof {
                assert(self@.take(i + 1).drop_last() =~= self@.take(i as int));
                assert(self@.take(i + 1).last() == self.inner@[i as int]@);
            }
            let metrics = &self.inner[i].metrics;
            created = created + metrics.spans_created as u128;
            finished = finished + metrics.spans_finished as u128;
            segments_created = segments_created + metrics.trace_segments_created as u128;
            segments_closed = segments_closed + metrics.trace_segments_closed as u128;
            partial_flushes = partial_flushes + metrics.trace_partial_flush_count as u128;
            i = i + 1;
        }
        assert(self@.take(i as int) =~= self@);
        created <= max && finished <= max && segments_created <= max && segments_closed <= max
            && partial_flushes <= max
    }

    /// What happened in the registry since this was last asked for.
    pub fn get_metrics(&mut self) -> (metrics: TraceRegistryMetrics)
        requires
            metrics_fit(total_metrics(old(self)@)),
        ensures
            old(self).wf() ==> final(self).wf(),
            final(self).hasher() == old(self).hasher(),
            final(self)@ == all_without_metrics(old(self)@),
            metrics@ == total_metrics(old(self)@),
    {
        proof {
            use_type_invariant(&*self);
        }
        let ghost before = self@;
        let ghost hasher = self.hasher();
        let mut stats = TraceRegistryMetrics::default();
        let mut i: usize = 0;
        while i < TRACE_REGISTRY_SHARDS
            invariant
                i <= TRACE_REGISTRY_SHARDS,
                before.len() == TRACE_REGISTRY_SHARDS,
                self@.len() == before.len(),
                self.inner@.len() == before.len(),
                self.hasher() == hasher,
                metrics_fit(total_metrics(before)),
                stats@ == total_metrics(before.take(i as int)),
                forall|j: int| 0 <= j < i ==> #[trigger] self@[j] == without_metrics(before[j]),
                forall|j: int| i <= j < before.len() ==> #[trigger] self@[j] == before[j],
            decreases TRACE_REGISTRY_SHARDS - i,
        {
            proof {
                lemma_prefix_metrics_fit(before, i + 1);
                assert(before.take(i + 1).drop_last() =~= before.take(i as int));
                assert(self@[i as int] == before[i as int]);
            }
            let ghost previous = self@;
            let shard_stats = self.inner[i].get_metrics();
            assert(self@ =~= previous.update(i as int, without_metrics(previous[i as int])));
            stats.spans_created = stats.spans_created + shard_stats.spans_created;
            stats.spans_finished = stats.spans_finished + shard_stats.spans_finished;
            stats.trace_segments_created = stats.trace_segments_created
                + shard_stats.trace_segments_created;
            stats.trace_segments_closed = stats.trace_segments_closed
                + shard_stats.trace_segments_closed;
            stats.trace_partial_flush_count = stats.trace_partial_flush_count
                + shard_stats.trace_partial_flush_count;
            i = i + 1;
        }
        assert(before.take(i as int) =~= before);
        assert(self@ =~= all_without_metrics(before));
        stats
    }
}

} // verus!
