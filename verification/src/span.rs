//! Finished spans and the contexts that identify them.

use crate::ids::{self, SpanId, TraceId};
use crate::value::{self, KeyValue, KeyValueView};
use vstd::prelude::*;

verus! {

/// The finished span as the OpenTelemetry SDK hands it over. It is carried along unread.
#[verifier::external_type_specification]
#[verifier::external_body]
pub struct ExOtelSpanData(opentelemetry_sdk::trace::SpanData);

/// The part of a span that is propagated to other services.
#[derive(Debug, Clone, Copy, PartialEq, Eq)]
pub struct SpanContext {
    pub trace_id: TraceId,
    pub span_id: SpanId,
    pub trace_flags: u8,
    pub is_remote: bool,
}

/// The bit of the trace flags that says that a span is sampled.
pub const SAMPLED_FLAG: u8 = 1;

impl SpanContext {
    /// Whether both identifiers are set.
    pub open spec fn valid(self) -> bool {
        !ids::all_zero(self.trace_id@) && !ids::all_zero(self.span_id@)
    }

    /// Whether the sampled flag is set.
    pub open spec fn sampled(self) -> bool {
        self.trace_flags & SAMPLED_FLAG == SAMPLED_FLAG
    }

    /// Whether the trace identifier and the span identifier are both non-zero.
    pub fn is_valid(&self) -> (valid: bool)
        ensures
            valid == self.valid(),
    {
        !ids::is_all_zero(&self.trace_id) && !ids::is_all_zero(&self.span_id)
    }

    /// Whether the sampled trace flag is set.
    pub fn is_sampled(&self) -> (sampled: bool)
        ensures
            sampled == self.sampled(),
    {
        self.trace_flags & SAMPLED_FLAG == SAMPLED_FLAG
    }
}

/// A finished span: its context and its attributes, and the rest of what the SDK recorded.
#[derive(Debug)]
pub struct FinishedSpan {
    pub span_context: SpanContext,
    pub attributes: Vec<KeyValue>,
    pub rest: opentelemetry_sdk::trace::SpanData,
}

/// What a [`FinishedSpan`] holds.
pub struct SpanView {
    pub trace_id: Seq<u8>,
    pub span_id: Seq<u8>,
    pub trace_flags: u8,
    pub is_remote: bool,
    pub attributes: Seq<KeyValueView>,
    pub rest: opentelemetry_sdk::trace::SpanData,
}

impl View for FinishedSpan {
    type V = SpanView;

    open spec fn view(&self) -> SpanView {
        SpanView {
            trace_id: self.span_context.trace_id@,
            span_id: self.span_context.span_id@,
            trace_flags: self.span_context.trace_flags,
            is_remote: self.span_context.is_remote,
            attributes: value::attributes_view(self.attributes@),
            rest: self.rest,
        }
    }
}

/// What a list of spans holds.
pub open spec fn spans_view(spans: Seq<FinishedSpan>) -> Seq<SpanView> {
    spans.map_values(|span: FinishedSpan| span@)
}

/// The span with one more attribute at the end.
pub open spec fn with_attribute(span: SpanView, attribute: KeyValueView) -> SpanView {
    SpanView { attributes: span.attributes.push(attribute), ..span }
}

/// A context is valid where each of its identifiers has a byte that is not zero, and sampled where its
/// flags are odd. Neither depends on anything else of the context.
pub proof fn law_valid_and_sampled_contexts(context: SpanContext)
    ensures
        context.valid() <==> {
            &&& exists|i: int| 0 <= i < 16 && #[trigger] context.trace_id@[i] != 0
            &&& exists|i: int| 0 <= i < 8 && #[trigger] context.span_id@[i] != 0
        },
        context.sampled() <==> context.trace_flags % 2 == 1,
{
    let flags = context.trace_flags;
    assert((flags & 1u8 == 1u8) == (flags % 2 == 1)) by (bit_vector);
    let (trace_id, span_id) = (context.trace_id@, context.span_id@);
    if exists|i: int| 0 <= i < 16 && #[trigger] trace_id[i] != 0 {
        let i = choose|i: int| 0 <= i < 16 && #[trigger] trace_id[i] != 0;
        assert(trace_id[i] != 0);
    }
    if exists|i: int| 0 <= i < 8 && #[trigger] span_id[i] != 0 {
        let i = choose|i: int| 0 <= i < 8 && #[trigger] span_id[i] != 0;
        assert(span_id[i] != 0);
    }
}

} // verus!
