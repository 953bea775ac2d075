//! The state of a trace that is being recorded.

use crate::active_spans::ActiveSpanMap;
use crate::ids::{self, SpanId, TraceId};
use crate::sampling::{PropagationView, TracePropagationData};
use crate::span::{self, FinishedSpan, SpanView};
use hashbrown::HashMap;
use vstd::prelude::*;

verus! {

/// A trace of which some spans are open or not sent yet.
#[derive(Debug)]
pub struct Trace {
    /// The topmost span of the trace within this service, all zeros while it is not known.
    pub local_root_span_id: SpanId,
    /// The spans that have finished and were not sent yet. The root span comes first.
    pub finished_spans: Vec<FinishedSpan>,
    /// How many spans are open.
    pub open_span_count: usize,
    /// What is propagated with the trace.
    pub propagation_data: TracePropagationData,
    /// What is known of the open spans.
    pub active_spans: ActiveSpanMap,
}

/// What a [`Trace`] holds.
pub struct TraceView {
    pub local_root_span_id: Seq<u8>,
    pub finished_spans: Seq<SpanView>,
    pub open_span_count: nat,
    pub propagation_data: PropagationView,
    pub active_spans: Map<Seq<u8>, Option<Seq<char>>>,
}

impl View for Trace {
    type V = TraceView;

    open spec fn view(&self) -> TraceView {
        TraceView {
            local_root_span_id: self.local_root_span_id@,
            finished_spans: span::spans_view(self.finished_spans@),
            open_span_count: self.open_span_count as nat,
            propagation_data: self.propagation_data@,
            active_spans: self.active_spans@,
        }
    }
}

/// A trace without finished spans.
pub open spec fn fresh_trace(
    root: Seq<u8>,
    open_span_count: nat,
    propagation_data: PropagationView,
) -> TraceView {
    TraceView {
        local_root_span_id: root,
        finished_spans: Seq::empty(),
        open_span_count,
        propagation_data,
        active_spans: Map::empty(),
    }
}

/// The finished spans after one more has finished. The root span goes to the front, and the span
/// that was there goes to the end.
pub open spec fn add_finished(trace: TraceView, finished: SpanView) -> Seq<SpanView> {
    if trace.finished_spans.len() > 0 && finished.span_id == trace.local_root_span_id {
        trace.finished_spans.update(0, finished).push(trace.finished_spans[0])
    } else {
        trace.finished_spans.push(finished)
    }
}

/// The trace after one more span has finished.
pub open spec fn after_finish(trace: TraceView, finished: SpanView) -> TraceView {
    TraceView {
        finished_spans: add_finished(trace, finished),
        open_span_count: if trace.open_span_count == 0 {
            0
        } else {
            (trace.open_span_count - 1) as nat
        },
        active_spans: trace.active_spans.remove(finished.span_id),
        ..trace
    }
}

impl Trace {
    /// A trace without finished spans.
    pub fn new(
        local_root_span_id: SpanId,
        open_span_count: usize,
        propagation_data: TracePropagationData,
    ) -> (trace: Trace)
        ensures
            trace@ == fresh_trace(
                local_root_span_id@,
                open_span_count as nat,
                propagation_data@,
            ),
    {
        let trace = Trace {
            local_root_span_id,
            finished_spans: Vec::new(),
            open_span_count,
            propagation_data,
            active_spans: ActiveSpanMap::new(),
        };
        assert(trace@.finished_spans =~= Seq::<SpanView>::empty());
        trace
    }

    /// Records that a span has finished.
    pub fn finish(&mut self, finished: FinishedSpan)
        ensures
            final(self)@ == after_finish(old(self)@, finished@),
    {
        let ghost before = self@;
        let span_id = finished.span_context.span_id;
        self.active_spans.remove(&span_id);
        let mut last = finished;
        if !self.finished_spans.is_empty() && ids::same_span(&span_id, &self.local_root_span_id) {
            std::mem::swap(&mut self.finished_spans[0], &mut last);
        }
        self.finished_spans.push(last);
        self.open_span_count = self.open_span_count.saturating_sub(1);
        assert(self@.finished_spans =~= add_finished(before, finished@));
    }
}

/// The traces that are being recorded, found by their identifiers. The map is a
/// `hashbrown::HashMap`.
#[verifier::external_body]
#[derive(Debug)]
pub struct TraceMap {
    traces: HashMap<TraceId, Trace>,
}

/// The trace that the map holds for each identifier.
pub uninterp spec fn traces_in(map: TraceMap) -> Map<Seq<u8>, Trace>;

impl View for TraceMap {
    type V = Map<Seq<u8>, TraceView>;

    open spec fn view(&self) -> Map<Seq<u8>, TraceView> {
        traces_in(*self).map_values(|trace: Trace| trace@)
    }
}

/// Calls `hashbrown::HashMap::new`.
///
/// Trusted: the new map is empty.
#[verifier::external_body]
fn hashbrown_new() -> (map: TraceMap)
    ensures
        traces_in(map).dom() == Set::<Seq<u8>>::empty(),
{
    TraceMap { traces: HashMap::new() }
}

/// Calls `hashbrown::HashMap::get`.
///
/// Trusted: the result is what the map holds under the identifier, if it holds anything there.
#[verifier::external_body]
fn hashbrown_get<'a>(map: &'a TraceMap, id: &TraceId) -> (found: Option<&'a Trace>)
    ensures
        match found {
            Some(trace) => traces_in(*map).contains_pair(id@, *trace),
            None => !traces_in(*map).dom().contains(id@),
        },
{
    map.traces.get(id)
}

/// Calls `hashbrown::HashMap::get_mut`.
///
/// Trusted: the result refers to what the map holds under the identifier, if it holds anything
/// there. What is written through it is then in the map, and all else is as before.
#[verifier::external_body]
fn hashbrown_get_mut<'a>(map: &'a mut TraceMap, id: &TraceId) -> (found: Option<&'a mut Trace>)
    ensures
        match found {
            Some(trace) => {
                &&& traces_in(*old(map)).contains_pair(id@, *trace)
                &&& traces_in(*final(map)) == traces_in(*old(map)).insert(id@, *final(trace))
            },
            None => {
                &&& !traces_in(*old(map)).dom().contains(id@)
                &&& traces_in(*final(map)) == traces_in(*old(map))
            },
        },
{
    map.traces.get_mut(id)
}

/// Calls `hashbrown::HashMap::insert`.
///
/// Trusted: the map then holds the trace under the identifier, and all else as before.
#[verifier::external_body]
fn hashbrown_insert(map: &mut TraceMap, id: TraceId, trace: Trace)
    ensures
        traces_in(*final(map)) == traces_in(*old(map)).insert(id@, trace),
{
    map.traces.insert(id, trace);
}

/// Calls `hashbrown::HashMap::remove`.
///
/// Trusted: the result is what the map held under the identifier, if it held anything there. The
/// map then holds nothing under the identifier, and all else as before.
#[verifier::external_body]
fn hashbrown_remove(map: &mut TraceMap, id: &TraceId) -> (removed: Option<Trace>)
    ensures
        match removed {
            Some(trace) => traces_in(*old(map)).contains_pair(id@, trace),
            None => !traces_in(*old(map)).dom().contains(id@),
        },
        traces_in(*final(map)) == traces_in(*old(map)).remove(id@),
{
    map.traces.remove(id)
}

impl TraceMap {
    /// No traces.
    pub fn new() -> (map: TraceMap)
        ensures
            map@ == Map::<Seq<u8>, TraceView>::empty(),
    {
        let map = hashbrown_new();
        assert(map@ =~= Map::<Seq<u8>, TraceView>::empty());
        map
    }

    /// The trace with this identifier.
    pub fn get(&self, id: &TraceId) -> (found: Option<&Trace>)
        ensures
            match found {
                Some(trace) => self@.contains_pair(id@, trace@),
                None => !self@.dom().contains(id@),
            },
    {
        hashbrown_get(self, id)
    }

    /// The trace with this identifier, for changing it in place.
    pub fn get_mut(&mut self, id: &TraceId) -> (found: Option<&mut Trace>)
        ensures
            match found {
                Some(trace) => {
                    &&& old(self)@.contains_pair(id@, trace@)
                    &&& final(self)@ == old(self)@.insert(id@, final(trace)@)
                },
                None => {
                    &&& !old(self)@.dom().contains(id@)
                    &&& final(self)@ == old(self)@
                },
            },
    {
        hashbrown_get_mut(self, id)
    }

    /// Stores a trace.
    pub fn insert(&mut self, id: TraceId, trace: Trace)
        ensures
            final(self)@ == old(self)@.insert(id@, trace@),
    {
        let ghost before = self@;
        hashbrown_insert(self, id, trace);
        assert(self@ =~= before.insert(id@, trace@));
    }

    /// Takes a trace out.
    pub fn remove(&mut self, id: &TraceId) -> (removed: Option<Trace>)
        ensures
            match removed {
                Some(trace) => old(self)@.contains_pair(id@, trace@),
                None => !old(self)@.dom().contains(id@),
            },
            final(self)@ == old(self)@.remove(id@),
    {
        let ghost before = self@;
        let removed = hashbrown_remove(self, id);
        assert(self@ =~= before.remove(id@));
        removed
    }
}

} // verus!
