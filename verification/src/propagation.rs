//! How the spans of a trace are completed with what is known of the trace before they are sent.

use crate::ids::{self, SpanId};
use crate::sampling::{PropagationView, TracePropagationData};
use crate::span::{self, FinishedSpan, SpanView};
use crate::traces::{Trace, TraceView};
use crate::value::{self, KeyValue, KeyValueView, Value, ValueView};
use vstd::prelude::*;

verus! {

/// An attribute with a number.
pub open spec fn number_attribute(key: Seq<char>, number: i64) -> KeyValueView {
    KeyValueView { key, value: ValueView::I64(number) }
}

/// The attributes that the tags of a trace become.
pub open spec fn tag_attributes(tags: Option<Seq<(Seq<char>, Seq<char>)>>) -> Seq<KeyValueView> {
    match tags {
        Some(tags) => tags.map_values(
            |tag: (Seq<char>, Seq<char>)| value::text_attribute(tag.0, tag.1),
        ),
        None => Seq::empty(),
    }
}

/// The attribute that tells where a trace comes from.
pub open spec fn origin_attributes(origin: Option<Seq<char>>) -> Seq<KeyValueView> {
    match origin {
        Some(origin) if origin.len() > 0 => seq![value::text_attribute("_dd.origin"@, origin)],
        _ => Seq::empty(),
    }
}

/// The attribute that tells the sampling priority.
pub open spec fn priority_attributes(priority: Option<i8>) -> Seq<KeyValueView> {
    match priority {
        Some(priority) => seq![number_attribute("_sampling_priority_v1"@, priority as i64)],
        None => Seq::empty(),
    }
}

/// The attribute that tells what decided on sampling.
pub open spec fn mechanism_attributes(mechanism: Option<Seq<char>>) -> Seq<KeyValueView> {
    match mechanism {
        Some(mechanism) => seq![value::text_attribute("_dd.p.dm"@, mechanism)],
        None => Seq::empty(),
    }
}

/// The attributes that a span gets. The tags go to the root span only.
pub open spec fn propagated_attributes(is_root: bool, data: PropagationView) -> Seq<KeyValueView> {
    (if is_root {
        tag_attributes(data.tags)
    } else {
        Seq::empty()
    }) + origin_attributes(data.origin) + priority_attributes(data.sampling_decision.priority)
        + mechanism_attributes(data.sampling_decision.mechanism)
}

/// The span with the attributes that it gets.
pub open spec fn propagated_span(
    finished: SpanView,
    root: Seq<u8>,
    data: PropagationView,
) -> SpanView {
    SpanView {
        attributes: finished.attributes + propagated_attributes(finished.span_id == root, data),
        ..finished
    }
}

/// The spans of a trace, each with the attributes that it gets.
pub open spec fn propagated_spans(trace: TraceView) -> Seq<SpanView> {
    trace.finished_spans.map_values(
        |finished: SpanView|
            propagated_span(finished, trace.local_root_span_id, trace.propagation_data),
    )
}

/// Adds the tags to a list of attributes.
fn push_tags(attributes: &mut Vec<KeyValue>, data: &TracePropagationData)
    ensures
        value::attributes_view(final(attributes)@) == value::attributes_view(old(attributes)@)
            + tag_attributes(data@.tags),
{
    let ghost before = value::attributes_view(attributes@);
    if let Some(tags) = &data.tags {
        let entries = tags.entries();
        let mut i: usize = 0;
        while i < entries.len()
            invariant
                i <= entries.len(),
                tags@.len() == entries@.len(),
                forall|j: int|
                    0 <= j < entries@.len() ==> #[trigger] tags@[j] == (
                        entries@[j].0@,
                        entries@[j].1@,
                    ),
                value::attributes_view(attributes@) == before + tag_attributes(
                    Some(tags@.take(i as int)),
                ),
            decreases entries.len() - i,
        {
            let ghost so_far = value::attributes_view(attributes@);
            let attribute = KeyValue::text(entries[i].0.as_str(), entries[i].1.as_str());
            let ghost added = attribute@;
            attributes.push(attribute);
            assert(tags@[i as int] == (entries@[i as int].0@, entries@[i as int].1@));
            assert(value::attributes_view(attributes@) =~= so_far.push(added));
            i = i + 1;
            assert(value::attributes_view(attributes@) =~= before + tag_attributes(
                Some(tags@.take(i as int)),
            ));
        }
        assert(tags@.take(i as int) =~= tags@);
    }
    assert(value::attributes_view(attributes@) =~= before + tag_attributes(data@.tags));
}

/// Adds the origin to a list of attributes.
fn push_origin(attributes: &mut Vec<KeyValue>, data: &TracePropagationData)
    ensures
        value::attributes_view(final(attributes)@) == value::attributes_view(old(attributes)@)
            + origin_attributes(data@.origin),
{
    let ghost before = value::attributes_view(attributes@);
    if let Some(origin) = &data.origin {
        if !origin.as_str().is_empty() {
            attributes.push(KeyValue::text("_dd.origin", origin.as_str()));
        }
    }
    assert(value::attributes_view(attributes@) =~= before + origin_attributes(data@.origin));
}

/// Adds the sampling priority to a list of attributes.
fn push_priority(attributes: &mut Vec<KeyValue>, data: &TracePropagationData)
    ensures
        value::attributes_view(final(attributes)@) == value::attributes_view(old(attributes)@)
            + priority_attributes(data@.sampling_decision.priority),
{
    let ghost before = value::attributes_view(attributes@);
    if let Some(priority) = data.sampling_decision.priority {
        attributes.push(
            KeyValue {
                key: "_sampling_priority_v1".to_owned(),
                value: Value::I64(priority as i64),
            },
        );
    }
    assert(value::attributes_view(attributes@) =~= before + priority_attributes(
        data@.sampling_decision.priority,
    ));
}

/// Adds the decision maker to a list of attributes.
fn push_mechanism(attributes: &mut Vec<KeyValue>, data: &TracePropagationData)
    ensures
        value::attributes_view(final(attributes)@) == value::attributes_view(old(attributes)@)
            + mechanism_attributes(data@.sampling_decision.mechanism),
{
    let ghost before = value::attributes_view(attributes@);
    if let Some(mechanism) = &data.sampling_decision.mechanism {
        attributes.push(KeyValue::text("_dd.p.dm", mechanism.as_str()));
    }
    assert(value::attributes_view(attributes@) =~= before + mechanism_attributes(
        data@.sampling_decision.mechanism,
    ));
}

/// Adds to a span what it gets.
fn propagate_to_span(finished: &mut FinishedSpan, root: &SpanId, data: &TracePropagationData)
    ensures
        final(finished)@ == propagated_span(old(finished)@, root@, data@),
{
    let ghost before = finished@;
    if ids::same_span(&finished.span_context.span_id, root) {
        push_tags(&mut finished.attributes, data);
    }
    push_origin(&mut finished.attributes, data);
    push_priority(&mut finished.attributes, data);
    push_mechanism(&mut finished.attributes, data);
    assert(finished@.attributes =~= propagated_span(before, root@, data@).attributes);
}

/// Adds the origin, the sampling decision and the tags of a trace to its spans.
///
/// Every span gets the origin and the sampling decision, and the root span gets the tags.
pub fn add_trace_propagation_data(trace: Trace) -> (spans: Vec<FinishedSpan>)
    ensures
        span::spans_view(spans@) == propagated_spans(trace@),
{
    let ghost given = trace@;
    let root = trace.local_root_span_id;
    let data = trace.propagation_data;
    let mut spans = trace.finished_spans;
    let mut i: usize = 0;
    while i < spans.len()
        invariant
            i <= spans.len(),
            spans@.len() == given.finished_spans.len(),
            root@ == given.local_root_span_id,
            data@ == given.propagation_data,
            forall|j: int|
                0 <= j < i ==> (#[trigger] spans@[j])@ == propagated_spans(given)[j],
            forall|j: int|
                i <= j < spans@.len() ==> (#[trigger] spans@[j])@ == given.finished_spans[j],
        decreases spans.len() - i,
    {
        propagate_to_span(&mut spans[i], &root, &data);
        i = i + 1;
    }
    assert(span::spans_view(spans@) =~= propagated_spans(given));
    spans
}

/// The position of the first span with this identifier, or the number of spans where none has it.
pub open spec fn first_span(spans: Seq<SpanView>, span_id: Seq<u8>) -> int
    decreases spans.len(),
{
    if spans.len() == 0 {
        0
    } else if spans[0].span_id == span_id {
        0
    } else {
        1 + first_span(spans.drop_first(), span_id)
    }
}

/// The mark of a span that is the topmost one in its service: the number one, as a double.
pub open spec fn top_level_attribute() -> KeyValueView {
    KeyValueView { key: "_top_level"@, value: ValueView::F64("1"@) }
}

/// The spans, with the mark on the first one that is the root span.
pub open spec fn top_level_marked(spans: Seq<SpanView>, root: Seq<u8>) -> Seq<SpanView> {
    let position = first_span(spans, root);
    if position < spans.len() {
        spans.update(position, span::with_attribute(spans[position], top_level_attribute()))
    } else {
        spans
    }
}

/// The first span with an identifier is where nothing before it has that identifier.
proof fn lemma_first_span(spans: Seq<SpanView>, span_id: Seq<u8>, position: int)
    requires
        0 <= position <= spans.len(),
        position < spans.len() ==> spans[position].span_id == span_id,
        forall|i: int| 0 <= i < position ==> (#[trigger] spans[i]).span_id != span_id,
    ensures
        first_span(spans, span_id) == position,
    decreases spans.len(),
{
    if position > 0 {
        assert(spans[0].span_id != span_id);
        let rest = spans.drop_first();
        assert forall|i: int| 0 <= i < position - 1 implies (#[trigger] rest[i]).span_id
            != span_id by {
            assert(rest[i] == spans[i + 1]);
        }
        lemma_first_span(rest, span_id, position - 1);
    }
}

/// The first span with an identifier is at a position of the list, or at its end.
pub proof fn lemma_first_span_in_range(spans: Seq<SpanView>, span_id: Seq<u8>)
    ensures
        0 <= first_span(spans, span_id) <= spans.len(),
    decreases spans.len(),
{
    if spans.len() > 0 && spans[0].span_id != span_id {
        lemma_first_span_in_range(spans.drop_first(), span_id);
    }
}

/// Marks the root span of a trace as topmost in its service.
pub fn mark_top_level(trace: &mut Trace)
    ensures
        final(trace)@ == (TraceView {
            finished_spans: top_level_marked(
                old(trace)@.finished_spans,
                old(trace)@.local_root_span_id,
            ),
            ..old(trace)@
        }),
{
    let ghost before = trace@;
    let mut i: usize = 0;
    while i < trace.finished_spans.len() && !ids::same_span(
        &trace.finished_spans[i].span_context.span_id,
        &trace.local_root_span_id,
    )
        invariant
            i <= trace.finished_spans.len(),
            trace@ == before,
            forall|j: int|
                0 <= j < i ==> (#[trigger] before.finished_spans[j]).span_id
                    != before.local_root_span_id,
        decreases trace.finished_spans.len() - i,
    {
        assert(before.finished_spans[i as int] == trace.finished_spans@[i as int]@);
        i = i + 1;
    }
    proof {
        if i < trace.finished_spans.len() {
            assert(before.finished_spans[i as int] == trace.finished_spans@[i as int]@);
        }
        lemma_first_span(before.finished_spans, before.local_root_span_id, i as int);
    }
    if i < trace.finished_spans.len() {
        let ghost unmarked = trace.finished_spans@[i as int]@;
        trace.finished_spans[i].attributes.push(
            KeyValue { key: "_top_level".to_owned(), value: Value::F64("1".to_owned()) },
        );
        assert(trace.finished_spans@[i as int]@.attributes =~= unmarked.attributes.push(
            top_level_attribute(),
        ));
    }
    assert(trace@.finished_spans =~= top_level_marked(
        before.finished_spans,
        before.local_root_span_id,
    ));
}

} // verus!
