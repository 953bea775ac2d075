//! What a span that starts leaves in the registry, and what the spans that are sent carry.

use crate::ids;
use crate::propagation;
use crate::registry::{self, ShardView};
use crate::registry_field_laws;
use crate::sampling::{PropagationView, SamplingView};
use crate::span::{SpanContext, SpanView};
use crate::span_processor::{self, StartKind, StartedSpan};
use crate::traces::TraceView;
use crate::value::{self, KeyValue, KeyValueView, ValueView};
use vstd::prelude::*;

verus! {

/// Whether both identifiers of a context have a byte that is not zero.
pub open spec fn has_identifiers(context: SpanContext) -> bool {
    &&& exists|i: int| 0 <= i < 16 && #[trigger] context.trace_id@[i] != 0
    &&& exists|i: int| 0 <= i < 8 && #[trigger] context.span_id@[i] != 0
}

/// A context with identifiers is valid, and its span identifier is one that names a span.
proof fn lemma_identifiers(context: SpanContext)
    ensures
        context.valid() == has_identifiers(context),
        context.valid() ==> context.span_id@ != ids::no_span(),
{
    let trace_id = context.trace_id@;
    let span_id = context.span_id@;
    if has_identifiers(context) {
        let i = choose|i: int| 0 <= i < 16 && #[trigger] trace_id[i] != 0;
        let j = choose|j: int| 0 <= j < 8 && #[trigger] span_id[j] != 0;
        assert(trace_id[i] != 0);
        assert(span_id[j] != 0);
        assert(ids::no_span()[j] == 0);
    }
}

/// What a span is in its trace: nothing while tracing is disabled, where it is not recorded and where
/// an identifier is missing; then a root where its parent is remote or missing, and a child otherwise.
pub proof fn law_kinds_of_starts(enabled: bool, started: StartedSpan)
    ensures
        ({
            let kind = span_processor::start_kind(enabled, started);
            let counts = enabled && started.is_recording && has_identifiers(started.span_context);
            &&& kind == StartKind::Ignored <==> !counts
            &&& kind == StartKind::RemoteRoot <==> counts && started.parent_is_remote
            &&& kind == StartKind::LocalRoot <==> counts && !started.parent_is_remote
                && !started.parent_has_active_span
            &&& kind == StartKind::Child <==> counts && !started.parent_is_remote
                && started.parent_has_active_span
        }),
{
    lemma_identifiers(started.span_context);
}

/// A span that is not recorded, that lacks an identifier, or that starts while tracing is disabled
/// leaves the registry as it was.
pub proof fn law_ignored_start_changes_nothing(
    shards: Seq<ShardView>,
    hash: u64,
    enabled: bool,
    started: StartedSpan,
)
    requires
        shards.len() == 64,
        !enabled || !started.is_recording || !has_identifiers(started.span_context),
    ensures
        span_processor::all_after_start(shards, hash, enabled, started) == shards,
{
    lemma_identifiers(started.span_context);
    assert(span_processor::all_after_start(shards, hash, enabled, started) =~= shards);
}

/// A span with a remote parent or with none makes its trace known, and is its root unless the trace
/// has one. No span is opened in a known trace, a new one has one open span, and nothing is counted.
pub proof fn law_started_root_is_known(shards: Seq<ShardView>, hash: u64, started: StartedSpan)
    requires
        shards.len() == 64,
        started.is_recording,
        has_identifiers(started.span_context),
        started.parent_is_remote || !started.parent_has_active_span,
    ensures
        ({
            let id = started.span_context.trace_id@;
            let part = hash as int % 64;
            let before = shards[part];
            let after = span_processor::all_after_start(shards, hash, true, started)[part];
            let known = before.traces.dom().contains(id);
            let stored = after.traces[id];
            &&& after.traces.dom().contains(id)
            &&& registry::root_of(after, id) == if registry::root_of(before, id) is Some {
                registry::root_of(before, id)
            } else {
                Some(started.span_context.span_id@)
            }
            &&& stored.local_root_span_id == if known && before.traces[id].local_root_span_id
                != ids::no_span() {
                before.traces[id].local_root_span_id
            } else {
                started.span_context.span_id@
            }
            &&& known ==> {
                &&& stored.open_span_count == before.traces[id].open_span_count
                &&& stored.propagation_data == before.traces[id].propagation_data
                &&& stored.finished_spans == before.traces[id].finished_spans
            }
            &&& !known ==> {
                &&& stored.open_span_count == 1
                &&& registry_field_laws::says_nothing(stored.propagation_data)
                &&& stored.finished_spans.len() == 0
            }
            &&& registry_field_laws::grew_by(before.metrics, after.metrics, 0, 0, 0, 0, 0)
        }),
{
    lemma_identifiers(started.span_context);
}

/// A span with a parent in this service is one more open span of its trace, and the root of a trace
/// that was not known. A known trace keeps its root, its propagation data and its finished spans. The
/// span is counted as created, and a new trace too.
pub proof fn law_started_child_is_open(shards: Seq<ShardView>, hash: u64, started: StartedSpan)
    requires
        shards.len() == 64,
        started.is_recording,
        has_identifiers(started.span_context),
        !started.parent_is_remote,
        started.parent_has_active_span,
    ensures
        ({
            let id = started.span_context.trace_id@;
            let part = hash as int % 64;
            let before = shards[part];
            let after = span_processor::all_after_start(shards, hash, true, started)[part];
            let known = before.traces.dom().contains(id);
            let stored = after.traces[id];
            &&& after.traces.dom().contains(id)
            &&& known ==> {
                &&& stored.open_span_count == before.traces[id].open_span_count + 1
                &&& stored.local_root_span_id == before.traces[id].local_root_span_id
                &&& stored.propagation_data == before.traces[id].propagation_data
                &&& stored.finished_spans == before.traces[id].finished_spans
                &&& registry_field_laws::grew_by(before.metrics, after.metrics, 1, 0, 0, 0, 0)
            }
            &&& !known ==> {
                &&& stored.open_span_count == 1
                &&& stored.local_root_span_id == started.span_context.span_id@
                &&& registry_field_laws::says_nothing(stored.propagation_data)
                &&& stored.finished_spans.len() == 0
                &&& registry_field_laws::grew_by(before.metrics, after.metrics, 1, 0, 1, 0, 0)
            }
        }),
{
    lemma_identifiers(started.span_context);
}

/// A span that starts changes its own trace only, and only in the part that the hash names.
pub proof fn law_start_changes_one_trace(
    shards: Seq<ShardView>,
    hash: u64,
    enabled: bool,
    started: StartedSpan,
    part: int,
    other: Seq<u8>,
)
    requires
        shards.len() == 64,
        0 <= part < 64,
        part != hash as int % 64 || other != started.span_context.trace_id@,
    ensures
        ({
            let all = span_processor::all_after_start(shards, hash, enabled, started);
            &&& all.len() == 64
            &&& all[part].partial_flush == shards[part].partial_flush
            &&& all[part].traces.dom().contains(other) == shards[part].traces.dom().contains(other)
            &&& shards[part].traces.dom().contains(other) ==> all[part].traces[other]
                == shards[part].traces[other]
            &&& part != hash as int % 64 ==> all[part] == shards[part]
        }),
{
}

/// Whether an attribute holds the route of a request.
pub open spec fn names_route(attribute: KeyValue) -> bool {
    attribute.key@ == "http.route"@ || attribute.key@ == "http.target"@
}

/// A span that starts is stored as open, with the text of its first attribute that names a route; with
/// none where no attribute does. The other open spans of the trace keep what they have.
pub proof fn law_started_span_has_its_route(
    shards: Seq<ShardView>,
    hash: u64,
    started: StartedSpan,
    position: int,
    other: Seq<u8>,
)
    requires
        shards.len() == 64,
        started.is_recording,
        has_identifiers(started.span_context),
        started.attributes matches Some(attributes) ==> {
            &&& 0 <= position <= attributes@.len()
            &&& forall|i: int| 0 <= i < position ==> !names_route(#[trigger] attributes@[i])
            &&& position < attributes@.len() ==> names_route(attributes@[position])
        },
        other != started.span_context.span_id@,
    ensures
        ({
            let id = started.span_context.trace_id@;
            let part = hash as int % 64;
            let before = shards[part];
            let after = span_processor::all_after_start(shards, hash, true, started)[part];
            let open = after.traces[id].active_spans;
            let was_open = before.traces.dom().contains(id)
                && before.traces[id].active_spans.dom().contains(other);
            &&& open.dom().contains(started.span_context.span_id@)
            &&& match started.attributes {
                Some(attributes) => if position < attributes@.len() {
                    &&& open[started.span_context.span_id@] == Some(
                        value::str_text(attributes@[position].value@),
                    )
                    &&& attributes@[position].value matches value::Value::String(route)
                        ==> open[started.span_context.span_id@] == Some(route@)
                } else {
                    open[started.span_context.span_id@] is None
                },
                None => open[started.span_context.span_id@] is None,
            }
            &&& open.dom().contains(other) == was_open
            &&& was_open ==> open[other] == before.traces[id].active_spans[other]
        }),
{
    lemma_identifiers(started.span_context);
    if let Some(attributes) = started.attributes {
        let all = value::attributes_view(attributes@);
        assert forall|i: int| 0 <= i < position implies (#[trigger] all[i]).key != "http.route"@
            && all[i].key != "http.target"@ by {
            assert(!names_route(attributes@[i]));
        }
        if position < attributes@.len() {
            assert(all[position] == attributes@[position]@);
        }
        value::law_first_value_is_found(all, "http.route"@, "http.target"@, position);
    }
}

/// Whether a span of a trace gets the mark of the topmost span: traces are sent in parts, and it is the
/// first span with the identifier of the root.
pub open spec fn is_marked(partial_flush_enabled: bool, trace: TraceView, i: int) -> bool {
    &&& partial_flush_enabled
    &&& trace.finished_spans[i].span_id == trace.local_root_span_id
    &&& forall|j: int|
        0 <= j < i ==> (#[trigger] trace.finished_spans[j]).span_id != trace.local_root_span_id
}

/// The first span with an identifier is the one that has it with none before it.
proof fn lemma_first_span_is_first(spans: Seq<SpanView>, span_id: Seq<u8>, i: int)
    requires
        0 <= i < spans.len(),
    ensures
        propagation::first_span(spans, span_id) == i <==> spans[i].span_id == span_id && forall|
            j: int,
        |
            0 <= j < i ==> (#[trigger] spans[j]).span_id != span_id,
    decreases spans.len(),
{
    let rest = spans.drop_first();
    propagation::lemma_first_span_in_range(rest, span_id);
    if spans[0].span_id == span_id {
        if i > 0 {
            assert(spans[0].span_id == span_id);
        }
    } else if i > 0 {
        lemma_first_span_is_first(rest, span_id, i - 1);
        assert(rest[i - 1] == spans[i]);
        if forall|j: int| 0 <= j < i ==> (#[trigger] spans[j]).span_id != span_id {
            assert forall|j: int| 0 <= j < i - 1 implies (#[trigger] rest[j]).span_id
                != span_id by {
                assert(rest[j] == spans[j + 1]);
            }
        }
        if forall|j: int| 0 <= j < i - 1 ==> (#[trigger] rest[j]).span_id != span_id {
            assert forall|j: int| 0 <= j < i implies (#[trigger] spans[j]).span_id != span_id by {
                if j > 0 {
                    assert(rest[j - 1] == spans[j]);
                }
            }
        }
    }
}

/// How many attributes a tag list, or a value that may be missing, becomes.
pub open spec fn count_if(present: bool) -> int {
    if present {
        1
    } else {
        0
    }
}

/// The attributes that a span gets from the propagation data, one by one.
proof fn lemma_propagated_attributes(is_root: bool, data: PropagationView)
    ensures
        ({
            let added = propagation::propagated_attributes(is_root, data);
            let origin = if is_root && data.tags is Some {
                data.tags->0.len() as int
            } else {
                0
            };
            let priority = origin + count_if(data.origin is Some && data.origin->0.len() > 0);
            let mechanism = priority + count_if(data.sampling_decision.priority is Some);
            &&& added.len() == mechanism + count_if(data.sampling_decision.mechanism is Some)
            &&& forall|j: int|
                0 <= j < origin ==> #[trigger] added[j] == (KeyValueView {
                    key: data.tags->0[j].0,
                    value: ValueView::String(data.tags->0[j].1),
                })
            &&& data.origin is Some && data.origin->0.len() > 0 ==> added[origin] == (
            KeyValueView { key: "_dd.origin"@, value: ValueView::String(data.origin->0) })
            &&& data.sampling_decision.priority matches Some(p) ==> added[priority] == (
            KeyValueView { key: "_sampling_priority_v1"@, value: ValueView::I64(p as i64) })
            &&& data.sampling_decision.mechanism matches Some(m) ==> added[mechanism] == (
            KeyValueView { key: "_dd.p.dm"@, value: ValueView::String(m) })
        }),
{
}

/// A span that is sent is the span itself, marked where it is to be, with what it gets.
proof fn lemma_sent_span(partial_flush_enabled: bool, trace: TraceView, i: int)
    requires
        0 <= i < trace.finished_spans.len(),
    ensures
        ({
            let sent = span_processor::exported_spans(true, partial_flush_enabled, Some(trace));
            let before = trace.finished_spans[i];
            let mark = if is_marked(partial_flush_enabled, trace, i) {
                seq![KeyValueView { key: "_top_level"@, value: ValueView::F64("1"@) }]
            } else {
                Seq::empty()
            };
            &&& sent is Some
            &&& sent->0.len() == trace.finished_spans.len()
            &&& sent->0[i] == SpanView {
                attributes: before.attributes + mark + propagation::propagated_attributes(
                    before.span_id == trace.local_root_span_id,
                    trace.propagation_data,
                ),
                ..before
            }
        }),
{
    let spans = trace.finished_spans;
    let root = trace.local_root_span_id;
    propagation::lemma_first_span_in_range(spans, root);
    lemma_first_span_is_first(spans, root, i);
    let sent = span_processor::exported_spans(true, partial_flush_enabled, Some(trace));
    let before = spans[i];
    let mark = if is_marked(partial_flush_enabled, trace, i) {
        seq![KeyValueView { key: "_top_level"@, value: ValueView::F64("1"@) }]
    } else {
        Seq::empty()
    };
    let marked = if partial_flush_enabled {
        propagation::top_level_marked(spans, root)[i]
    } else {
        before
    };
    assert(marked.attributes =~= before.attributes + mark);
    assert(sent->0[i] == propagation::propagated_span(marked, root, trace.propagation_data));
}

/// What is added to a span that is sent, in this order and nothing else: `_top_level` with the number
/// one on the span that is marked, the tags of the trace on its root, `_dd.origin` with an origin that
/// is not empty, `_sampling_priority_v1` with the priority, and `_dd.p.dm` with the mechanism. The
/// attributes that the span had come before that, and nothing else of it changes.
pub proof fn law_attributes_of_sent_spans(partial_flush_enabled: bool, trace: TraceView, i: int)
    requires
        0 <= i < trace.finished_spans.len(),
    ensures
        ({
            let sent = span_processor::exported_spans(true, partial_flush_enabled, Some(trace));
            let data = trace.propagation_data;
            let before = trace.finished_spans[i];
            let after = sent->0[i];
            let own = before.attributes.len() as int;
            let tags = own + count_if(is_marked(partial_flush_enabled, trace, i));
            let origin = tags + if before.span_id == trace.local_root_span_id && data.tags is Some {
                data.tags->0.len() as int
            } else {
                0
            };
            let priority = origin + count_if(data.origin is Some && data.origin->0.len() > 0);
            let mechanism = priority + count_if(data.sampling_decision.priority is Some);
            let all = mechanism + count_if(data.sampling_decision.mechanism is Some);
            &&& sent is Some
            &&& sent->0.len() == trace.finished_spans.len()
            &&& after.trace_id == before.trace_id
            &&& after.span_id == before.span_id
            &&& after.trace_flags == before.trace_flags
            &&& after.is_remote == before.is_remote
            &&& after.rest == before.rest
            &&& after.attributes.len() == all
            &&& forall|j: int|
                0 <= j < own ==> #[trigger] after.attributes[j] == before.attributes[j]
            &&& is_marked(partial_flush_enabled, trace, i) ==> after.attributes[own] == (
            KeyValueView { key: "_top_level"@, value: ValueView::F64("1"@) })
            &&& forall|j: int|
                tags <= j < origin ==> (#[trigger] after.attributes[j]) == (KeyValueView {
                    key: data.tags->0[j - tags].0,
                    value: ValueView::String(data.tags->0[j - tags].1),
                })
            &&& data.origin is Some && data.origin->0.len() > 0 ==> after.attributes[origin] == (
            KeyValueView { key: "_dd.origin"@, value: ValueView::String(data.origin->0) })
            &&& data.sampling_decision.priority matches Some(p) ==> {
                &&& after.attributes[priority].key == "_sampling_priority_v1"@
                &&& after.attributes[priority].value matches ValueView::I64(n) && n as int
                    == p as int
            }
            &&& data.sampling_decision.mechanism matches Some(m) ==> after.attributes[mechanism]
                == (KeyValueView { key: "_dd.p.dm"@, value: ValueView::String(m) })
        }),
{
    let before = trace.finished_spans[i];
    lemma_sent_span(partial_flush_enabled, trace, i);
    lemma_propagated_attributes(
        before.span_id == trace.local_root_span_id,
        trace.propagation_data,
    );
}

/// Every span that is sent of a trace with a sampling priority gets, after the attributes that it had,
/// one named `_sampling_priority_v1` whose value is that number.
pub proof fn law_priority_is_sent(
    partial_flush_enabled: bool,
    trace: TraceView,
    priority: i8,
    i: int,
)
    requires
        0 <= i < trace.finished_spans.len(),
        trace.propagation_data.sampling_decision.priority == Some(priority),
    ensures
        ({
            let sent = span_processor::exported_spans(true, partial_flush_enabled, Some(trace))->0;
            exists|j: int|
                {
                    &&& trace.finished_spans[i].attributes.len() <= j < sent[i].attributes.len()
                    &&& (#[trigger] sent[i].attributes[j]).key == "_sampling_priority_v1"@
                    &&& sent[i].attributes[j].value matches ValueView::I64(n) && n as int
                        == priority as int
                }
        }),
{
    law_attributes_of_sent_spans(partial_flush_enabled, trace, i);
    let data = trace.propagation_data;
    let before = trace.finished_spans[i];
    let sent = span_processor::exported_spans(true, partial_flush_enabled, Some(trace))->0;
    let tags = before.attributes.len() + count_if(is_marked(partial_flush_enabled, trace, i));
    let origin = tags + if before.span_id == trace.local_root_span_id && data.tags is Some {
        data.tags->0.len() as int
    } else {
        0
    };
    let j = origin + count_if(data.origin is Some && data.origin->0.len() > 0);
    assert(sent[i].attributes[j].key == "_sampling_priority_v1"@);
}

/// Two traces with the same spans and different sampling priorities are never sent alike: no span of
/// the one is sent as it is sent of the other.
pub proof fn law_priorities_are_told_apart(
    partial_flush_enabled: bool,
    trace: TraceView,
    priority: i8,
    other_priority: i8,
    i: int,
)
    requires
        0 <= i < trace.finished_spans.len(),
        priority != other_priority,
        trace.propagation_data.sampling_decision.priority == Some(priority),
    ensures
        ({
            let data = trace.propagation_data;
            let other = TraceView {
                propagation_data: PropagationView {
                    sampling_decision: SamplingView {
                        priority: Some(other_priority),
                        ..data.sampling_decision
                    },
                    ..data
                },
                ..trace
            };
            span_processor::exported_spans(true, partial_flush_enabled, Some(trace))->0[i]
                != span_processor::exported_spans(true, partial_flush_enabled, Some(other))->0[i]
        }),
{
    let data = trace.propagation_data;
    let other = TraceView {
        propagation_data: PropagationView {
            sampling_decision: SamplingView {
                priority: Some(other_priority),
                ..data.sampling_decision
            },
            ..data
        },
        ..trace
    };
    law_attributes_of_sent_spans(partial_flush_enabled, trace, i);
    law_attributes_of_sent_spans(partial_flush_enabled, other, i);
    assert(is_marked(partial_flush_enabled, trace, i) == is_marked(
        partial_flush_enabled,
        other,
        i,
    ));
    let before = trace.finished_spans[i];
    let tags = before.attributes.len() + count_if(is_marked(partial_flush_enabled, trace, i));
    let origin = tags + if before.span_id == trace.local_root_span_id && data.tags is Some {
        data.tags->0.len() as int
    } else {
        0
    };
    let j = origin + count_if(data.origin is Some && data.origin->0.len() > 0);
    let a = span_processor::exported_spans(true, partial_flush_enabled, Some(trace))->0[i];
    let b = span_processor::exported_spans(true, partial_flush_enabled, Some(other))->0[i];
    assert(a.attributes[j].value != b.attributes[j].value);
}

/// What was registered for a trace is what its spans are sent with: from the registration of a sampling
/// priority on, every span that is handed out of the trace is sent with that number.
pub proof fn law_registered_priority_is_sent(
    shard: ShardView,
    trace_id: Seq<u8>,
    data: PropagationView,
    priority: i8,
    finished: SpanView,
    partial_flush_enabled: bool,
    i: int,
)
    requires
        shard.traces.dom().contains(trace_id)
            ==> shard.traces[trace_id].propagation_data.sampling_decision.priority is None,
        data.sampling_decision.priority == Some(priority),
    ensures
        ({
            let registered = registry::with_propagation(shard, trace_id, data);
            let sent = span_processor::exported_spans(
                true,
                partial_flush_enabled,
                registry::flushed(registered, trace_id, finished),
            );
            sent is Some && 0 <= i < sent->0.len() ==> exists|j: int|
                {
                    &&& 0 <= j < sent->0[i].attributes.len()
                    &&& (#[trigger] sent->0[i].attributes[j]).key == "_sampling_priority_v1"@
                    &&& sent->0[i].attributes[j].value matches ValueView::I64(n) && n as int
                        == priority as int
                }
        }),
{
    let registered = registry::with_propagation(shard, trace_id, data);
    let chunk = registry::flushed(registered, trace_id, finished);
    let sent = span_processor::exported_spans(true, partial_flush_enabled, chunk);
    if sent is Some && 0 <= i < sent->0.len() {
        registry_field_laws::law_handed_out_trace_keeps_its_data(registered, trace_id, finished);
        propagation::lemma_first_span_in_range(
            chunk->0.finished_spans,
            chunk->0.local_root_span_id,
        );
        law_priority_is_sent(partial_flush_enabled, chunk->0, priority, i);
    }
}

/// The mark of the topmost span goes to the first span that has the identifier of the root, at the end
/// of its attributes, and to no other span.
pub proof fn law_mark_of_the_root(trace: TraceView, i: int)
    requires
        0 <= i < trace.finished_spans.len(),
    ensures
        ({
            let before = trace.finished_spans[i];
            let marked = propagation::top_level_marked(
                trace.finished_spans,
                trace.local_root_span_id,
            );
            &&& marked.len() == trace.finished_spans.len()
            &&& is_marked(true, trace, i) ==> {
                &&& marked[i].attributes.len() == before.attributes.len() + 1
                &&& marked[i].attributes.drop_last() == before.attributes
                &&& marked[i].attributes.last().key == "_top_level"@
                &&& marked[i].attributes.last().value == ValueView::F64("1"@)
            }
            &&& !is_marked(true, trace, i) ==> marked[i] == before
        }),
{
    propagation::lemma_first_span_in_range(trace.finished_spans, trace.local_root_span_id);
    lemma_first_span_is_first(trace.finished_spans, trace.local_root_span_id, i);
    let before = trace.finished_spans[i];
    let marked = propagation::top_level_marked(trace.finished_spans, trace.local_root_span_id);
    if is_marked(true, trace, i) {
        assert(marked[i].attributes.drop_last() =~= before.attributes);
    }
}

} // verus!
