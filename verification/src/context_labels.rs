//! Labels that show outside of the process which span a thread works on.
//!
//! Whenever a thread enters or leaves a context, the identifiers of the span in the new context are
//! handed to a writer. Where there is none, the writer clears what it wrote.

use crate::ids::{self, SpanId, TraceId};
use crate::registry::{self, ShardView, TraceRegistry};
use crate::span::{self, SpanContext};
use crate::text;
use crate::worker::{LogLevel, LogLine, LogView};
use vstd::prelude::*;

verus! {

/// What a writer is told of the span in the current context.
///
/// The identifiers are raw: a writer formats them as it needs.
#[derive(Debug, Clone, Copy, PartialEq, Eq)]
pub struct ExtractedSpanData<'a> {
    /// The identifier of the trace.
    pub trace_id: TraceId,
    /// The identifier of the span.
    pub span_id: SpanId,
    /// The identifier of the topmost span of the trace in this service.
    pub local_root_span_id: SpanId,
    /// The route that the span serves, such as "/do_work", where it serves one.
    pub http_route: Option<&'a str>,
}

/// What an [`ExtractedSpanData`] holds.
pub struct LabelsView {
    pub trace_id: Seq<u8>,
    pub span_id: Seq<u8>,
    pub local_root_span_id: Seq<u8>,
    pub http_route: Option<Seq<char>>,
}

impl<'a> View for ExtractedSpanData<'a> {
    type V = LabelsView;

    open spec fn view(&self) -> LabelsView {
        LabelsView {
            trace_id: self.trace_id@,
            span_id: self.span_id@,
            local_root_span_id: self.local_root_span_id@,
            http_route: registry::opt_str(self.http_route),
        }
    }
}

/// What writes labels out to some place.
pub trait ContextLabelWriter: Send + Sync + 'static {
    /// Whether the writer may be told to write these labels. Any may, unless the impl says otherwise;
    /// code that works with every writer cannot rely on that.
    open spec fn may_write(&self, labels: LabelsView) -> bool {
        true
    }

    /// Whether the writer may be told to clear all labels. It may, unless the impl says otherwise.
    open spec fn may_clear(&self) -> bool {
        true
    }

    /// Writes labels. This is called every time a context is entered, so it should be fast.
    fn write_labels(&self, data: &ExtractedSpanData<'_>)
        requires
            self.may_write(data@),
    ;

    /// Clears all labels. This is called when a context is left and no span is active any more.
    fn clear_labels(&self)
        requires
            self.may_clear(),
    ;
}

/// Whether labels are written for a context: only for a span that is valid and sampled.
pub open spec fn is_labelled(context: Option<SpanContext>) -> bool {
    context matches Some(context) && context.valid() && context.sampled()
}

/// The labels of a span, from what the registry knows of its trace. A span whose root is unknown is
/// taken for the root.
pub open spec fn labels_of(shard: ShardView, context: SpanContext) -> LabelsView {
    LabelsView {
        trace_id: context.trace_id@,
        span_id: context.span_id@,
        local_root_span_id: match registry::root_of(shard, context.trace_id@) {
            Some(root) => root,
            None => context.span_id@,
        },
        http_route: registry::http_route_of(shard, context.trace_id@, context.span_id@),
    }
}

/// What is told of a span, from the root of its trace and the route that it serves, where these are
/// known.
pub fn extract<'a>(
    context: &SpanContext,
    local_root_span_id: Option<SpanId>,
    http_route: Option<&'a str>,
) -> (data: ExtractedSpanData<'a>)
    ensures
        data.trace_id == context.trace_id,
        data.span_id == context.span_id,
        data.local_root_span_id == match local_root_span_id {
            Some(root) => root,
            None => context.span_id,
        },
        data.http_route == http_route,
{
    let local_root_span_id = match local_root_span_id {
        Some(root) => root,
        None => context.span_id,
    };
    ExtractedSpanData {
        trace_id: context.trace_id,
        span_id: context.span_id,
        local_root_span_id,
        http_route,
    }
}

/// The span in a context, if there is one whose labels are written.
pub fn labelled_span(context: Option<SpanContext>) -> (labelled: Option<SpanContext>)
    ensures
        labelled == if is_labelled(context) {
            context
        } else {
            None
        },
{
    match context {
        Some(context) => if !context.is_valid() || !context.is_sampled() {
            None
        } else {
            Some(context)
        },
        None => None,
    }
}

/// The one call that a writer gets when the context changes.
#[derive(Debug, Clone, Copy, PartialEq, Eq)]
pub enum LabelCall<'a> {
    /// It is to write these labels.
    Write(ExtractedSpanData<'a>),
    /// It is to clear all labels.
    Clear,
}

/// What a [`LabelCall`] says.
pub enum LabelCallView {
    Write(LabelsView),
    Clear,
}

impl<'a> View for LabelCall<'a> {
    type V = LabelCallView;

    open spec fn view(&self) -> LabelCallView {
        match self {
            LabelCall::Write(data) => LabelCallView::Write(data@),
            LabelCall::Clear => LabelCallView::Clear,
        }
    }
}

/// The call that a writer gets when the context changes to this one, whatever the context was before:
/// it writes the labels of the span, or clears all labels where there is none whose labels are
/// written.
pub open spec fn call_for(shard: ShardView, to: Option<SpanContext>) -> LabelCallView {
    if is_labelled(to) {
        LabelCallView::Write(labels_of(shard, to->0))
    } else {
        LabelCallView::Clear
    }
}

/// As [`label_call`], in the part of the registry that `hash` picks.
pub fn label_call_at<'a>(
    traces: &'a TraceRegistry,
    hash: u64,
    to: Option<SpanContext>,
) -> (call: LabelCall<'a>)
    ensures
        call@ == call_for(traces@[registry::shard_of(hash)], to),
{
    let context = match labelled_span(to) {
        Some(context) => context,
        None => {
            return LabelCall::Clear;
        },
    };
    let root = traces.get_local_root_span_id_at(hash, context.trace_id);
    let http_route: Option<&'a str> = match traces.get_active_span_metadata_at(
        hash,
        context.trace_id,
        context.span_id,
    ) {
        Some(metadata) => match &metadata.http_route {
            Some(route) => Some(route.as_str()),
            None => None,
        },
        None => None,
    };
    LabelCall::Write(extract(&context, root, http_route))
}

/// The one call that a writer gets when the context changes to this one.
pub fn label_call<'a>(traces: &'a TraceRegistry, to: Option<SpanContext>) -> (call: LabelCall<'a>)
    ensures
        is_labelled(to) ==> exists|hash: u64|
            traces.hashes_to(to->0.trace_id, hash) && call@ == call_for(
                traces@[#[trigger] registry::shard_of(hash)],
                to,
            ),
        !is_labelled(to) ==> call@ == LabelCallView::Clear,
{
    match labelled_span(to) {
        Some(context) => {
            let hash = traces.hash(context.trace_id);
            let call = label_call_at(traces, hash, to);
            assert(call@ == call_for(traces@[registry::shard_of(hash)], to));
            call
        },
        None => LabelCall::Clear,
    }
}

/// Reads the labels of the current span and hands them to a writer when the context changes.
pub struct ContextLabelObserver<W> {
    writer: W,
}

impl<W: ContextLabelWriter> ContextLabelObserver<W> {
    /// The writer that labels are handed to.
    pub closed spec fn writer(self) -> W {
        self.writer
    }

    /// The writer may get this call. A function that asks for this of one call alone makes no other.
    pub open spec fn may_get(self, call: LabelCallView) -> bool {
        match call {
            LabelCallView::Write(labels) => self.writer().may_write(labels),
            LabelCallView::Clear => self.writer().may_clear(),
        }
    }

    /// The writer can return from this call.
    pub open spec fn can_return_from(self, call: LabelCallView) -> bool {
        match call {
            LabelCallView::Write(labels) => exists|data: ExtractedSpanData|
                data@ == labels && #[trigger] call_ensures(
                    W::write_labels,
                    (&self.writer(), &data),
                    (),
                ),
            LabelCallView::Clear => call_ensures(W::clear_labels, (&self.writer(),), ()),
        }
    }

    /// An observer that hands labels to this writer.
    pub fn new(writer: W) -> (observer: Self)
        ensures
            observer.writer() == writer,
    {
        ContextLabelObserver { writer }
    }

    /// Writes the labels of a context, and tells whether it did: it makes the call that is to be made
    /// where that one writes labels, and none otherwise.
    fn write_trace_context(&self, call: &LabelCall<'_>) -> (written: bool)
        requires
            call is Write ==> self.may_get(call@),
        ensures
            written == (call is Write),
            written ==> self.can_return_from(call@),
    {
        match call {
            LabelCall::Write(data) => {
                self.writer.write_labels(data);
                assert(call_ensures(W::write_labels, (&self.writer(), data), ()));
                true
            },
            LabelCall::Clear => false,
        }
    }

    /// Makes the one call that is to be made.
    fn on_context_change(&self, call: LabelCall<'_>)
        requires
            self.may_get(call@),
        ensures
            self.can_return_from(call@),
    {
        if !self.write_trace_context(&call) {
            self.writer.clear_labels();
        }
    }

    /// A new context was entered: the writer gets the call of [`label_call`], and no other.
    pub fn on_context_enter(
        &self,
        traces: &TraceRegistry,
        _from: Option<SpanContext>,
        to: Option<SpanContext>,
    )
        requires
            is_labelled(to) ==> forall|hash: u64|
                traces.hashes_to(to->0.trace_id, hash) ==> self.may_get(
                    call_for(traces@[#[trigger] registry::shard_of(hash)], to),
                ),
            !is_labelled(to) ==> self.may_get(LabelCallView::Clear),
        ensures
            is_labelled(to) ==> exists|hash: u64|
                traces.hashes_to(to->0.trace_id, hash) && self.can_return_from(
                    call_for(traces@[#[trigger] registry::shard_of(hash)], to),
                ),
            !is_labelled(to) ==> self.can_return_from(LabelCallView::Clear),
    {
        self.on_context_change(label_call(traces, to))
    }

    /// A previous context was returned to: the writer gets the call of [`label_call`], and no other.
    pub fn on_context_exit(
        &self,
        traces: &TraceRegistry,
        _from: Option<SpanContext>,
        to: Option<SpanContext>,
    )
        requires
            is_labelled(to) ==> forall|hash: u64|
                traces.hashes_to(to->0.trace_id, hash) ==> self.may_get(
                    call_for(traces@[#[trigger] registry::shard_of(hash)], to),
                ),
            !is_labelled(to) ==> self.may_get(LabelCallView::Clear),
        ensures
            is_labelled(to) ==> exists|hash: u64|
                traces.hashes_to(to->0.trace_id, hash) && self.can_return_from(
                    call_for(traces@[#[trigger] registry::shard_of(hash)], to),
                ),
            !is_labelled(to) ==> self.can_return_from(LabelCallView::Clear),
    {
        self.on_context_change(label_call(traces, to))
    }
}

/// What is logged of labels.
pub open spec fn logged_labels(labels: LabelsView) -> LogView {
    let ids = "trace context entered: trace_id="@ + text::hex_chars(labels.trace_id)
        + ", span_id="@ + text::hex_chars(labels.span_id) + ", local_root_span_id="@
        + text::hex_chars(labels.local_root_span_id);
    LogView {
        level: LogLevel::Debug,
        message: match labels.http_route {
            Some(route) => ids + ", http_route="@ + route,
            None => ids,
        },
    }
}

/// Writes labels into the log, which shows what other writers get.
#[derive(Debug, Clone, Copy, Default)]
pub struct LoggingContextWriter;

impl LoggingContextWriter {
    /// A writer into the log.
    pub fn new() -> (writer: Self)
        ensures
            writer == LoggingContextWriter,
    {
        LoggingContextWriter
    }

    /// What is logged of labels.
    pub fn write_labels(&self, data: &ExtractedSpanData<'_>) -> (line: LogLine)
        ensures
            line@ == logged_labels(data@),
    {
        let mut message = "trace context entered: trace_id=".to_owned();
        let trace_id = text::hex(&data.trace_id);
        message.append(trace_id.as_str());
        message.append(", span_id=");
        let span_id = text::hex(&data.span_id);
        message.append(span_id.as_str());
        message.append(", local_root_span_id=");
        let local_root_span_id = text::hex(&data.local_root_span_id);
        message.append(local_root_span_id.as_str());
        match data.http_route {
            Some(route) => {
                message.append(", http_route=");
                message.append(route);
            },
            None => {},
        }
        LogLine { level: LogLevel::Debug, message }
    }

    /// What is logged when labels are cleared.
    pub fn clear_labels(&self) -> (line: LogLine)
        ensures
            line@ == (LogView { level: LogLevel::Debug, message: "trace context cleared"@ }),
    {
        LogLine { level: LogLevel::Debug, message: "trace context cleared".to_owned() }
    }
}

/// Once the root of a trace is registered, the labels of every span of the trace name it.
pub proof fn law_labels_name_the_root(shard: ShardView, root: Seq<u8>, context: SpanContext)
    requires
        registry::root_of(shard, context.trace_id@) is None,
        root != ids::no_span(),
    ensures
        labels_of(
            registry::with_root(shard, context.trace_id@, root),
            context,
        ).local_root_span_id == root,
{
}

/// Once the route of a span is stored, the labels of the span show it.
pub proof fn law_labels_show_the_route(
    shard: ShardView,
    context: SpanContext,
    route: Option<Seq<char>>,
)
    requires
        shard.traces.dom().contains(context.trace_id@),
    ensures
        labels_of(
            registry::with_metadata(shard, context.trace_id@, context.span_id@, route),
            context,
        ).http_route == route,
{
}

/// Labels are written for a span exactly where it is valid and its flags are odd. They name its own
/// trace and span, the root of the trace or else the span itself, and the route that is stored for it.
/// In every other case all labels are cleared.
pub proof fn law_which_labels_are_written(shard: ShardView, to: Option<SpanContext>)
    ensures
        ({
            let call = call_for(shard, to);
            let writes = to matches Some(context) && {
                &&& exists|i: int| 0 <= i < 16 && #[trigger] context.trace_id@[i] != 0
                &&& exists|i: int| 0 <= i < 8 && #[trigger] context.span_id@[i] != 0
                &&& context.trace_flags % 2 == 1
            };
            &&& call is Clear <==> !writes
            &&& call matches LabelCallView::Write(labels) ==> {
                let (trace_id, span_id) = (to->0.trace_id@, to->0.span_id@);
                let known = shard.traces.dom().contains(trace_id);
                let trace = shard.traces[trace_id];
                &&& labels.trace_id == trace_id
                &&& labels.span_id == span_id
                &&& labels.local_root_span_id == if known && trace.local_root_span_id
                    != ids::no_span() {
                    trace.local_root_span_id
                } else {
                    span_id
                }
                &&& labels.http_route == if known && trace.active_spans.dom().contains(span_id) {
                    trace.active_spans[span_id]
                } else {
                    None
                }
            }
        }),
{
    if let Some(context) = to {
        span::law_valid_and_sampled_contexts(context);
    }
}

/// What is logged of labels: the identifiers in base sixteen, each after its name, and then the route
/// where there is one.
pub proof fn law_what_is_logged_of_labels(labels: LabelsView)
    ensures
        ({
            let line = logged_labels(labels);
            let trace = "trace context entered: trace_id="@ + text::hex_chars(labels.trace_id);
            let span = ", span_id="@ + text::hex_chars(labels.span_id);
            let root = ", local_root_span_id="@ + text::hex_chars(labels.local_root_span_id);
            &&& line.level == LogLevel::Debug
            &&& labels.http_route is None ==> line.message == trace + span + root
            &&& labels.http_route matches Some(route) ==> line.message == trace + span + root + (
            ", http_route="@ + route)
        }),
{
    let message = logged_labels(labels).message;
    let trace = "trace context entered: trace_id="@ + text::hex_chars(labels.trace_id);
    let span = ", span_id="@ + text::hex_chars(labels.span_id);
    let root = ", local_root_span_id="@ + text::hex_chars(labels.local_root_span_id);
    match labels.http_route {
        Some(route) => {
            assert(message =~= trace + span + root + (", http_route="@ + route));
        },
        None => {
            assert(message =~= trace + span + root);
        },
    }
}

} // verus!
