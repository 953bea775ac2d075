//! Links from a span to spans of other traces, as they are recovered from a remote parent.

use crate::sampling::Tags;
use crate::text;
use crate::value::{self, KeyValue, KeyValueView, ValueView};
use opentelemetry::trace::TraceState;
use std::str::FromStr;
use vstd::prelude::*;

verus! {

/// A link to a span, as it was extracted from a carrier.
#[derive(Debug)]
pub struct SpanLink {
    pub trace_id: u64,
    pub span_id: u64,
    pub flags: Option<u32>,
    pub tracestate: Option<String>,
    pub attributes: Option<Tags>,
}

/// A link to a span, as it is added to a span.
#[derive(Debug, PartialEq, Eq)]
pub struct LinkContext {
    pub trace_id: u128,
    pub span_id: u64,
    pub trace_flags: u8,
    pub is_remote: bool,
    /// The trace state, in the notation of its header.
    pub trace_state: String,
    pub attributes: Vec<KeyValue>,
}

/// What a [`LinkContext`] holds.
pub struct LinkContextView {
    pub trace_id: u128,
    pub span_id: u64,
    pub trace_flags: u8,
    pub is_remote: bool,
    pub trace_state: Seq<char>,
    pub attributes: Seq<KeyValueView>,
}

impl View for LinkContext {
    type V = LinkContextView;

    open spec fn view(&self) -> LinkContextView {
        LinkContextView {
            trace_id: self.trace_id,
            span_id: self.span_id,
            trace_flags: self.trace_flags,
            is_remote: self.is_remote,
            trace_state: self.trace_state@,
            attributes: value::attributes_view(self.attributes@),
        }
    }
}

/// The header of the trace state that `opentelemetry::trace::TraceState::from_str` reads from a text,
/// if it can read it.
pub uninterp spec fn otel_trace_state(header: Seq<char>) -> Option<Seq<char>>;

/// Calls `TraceState::from_str`, and `header` on the result.
///
/// Trusted: whether the text can be read, and the header of what was read, are a function of the
/// text.
#[verifier::external_body]
fn otel_trace_state_from_str(header: &str) -> (read: Option<String>)
    ensures
        text::opt_text(read) == otel_trace_state(header@),
{
    TraceState::from_str(header).ok().map(|state| state.header())
}

/// The trace state of a link: what could be read of it, and an empty one otherwise.
pub open spec fn link_trace_state(
    header: Option<Seq<char>>,
    read: Option<Seq<char>>,
) -> Seq<char> {
    match header {
        Some(_) => match read {
            Some(read) => read,
            None => Seq::empty(),
        },
        None => Seq::empty(),
    }
}

/// What a link becomes, where `read` was read of its trace state.
pub open spec fn link_context_view(link: SpanLink, read: Option<Seq<char>>) -> LinkContextView {
    LinkContextView {
        trace_id: link.trace_id as u128,
        span_id: link.span_id,
        trace_flags: match link.flags {
            Some(flags) => (flags % 256) as u8,
            None => 0,
        },
        is_remote: false,
        trace_state: link_trace_state(text::opt_text(link.tracestate), read),
        attributes: match link.attributes {
            Some(attributes) => attributes@.map_values(
                |entry: (Seq<char>, Seq<char>)| value::text_attribute(entry.0, entry.1),
            ),
            None => Seq::empty(),
        },
    }
}

/// What was read of the trace state of a link.
pub open spec fn link_state_read(link: SpanLink) -> Option<Seq<char>> {
    match link.tracestate {
        Some(header) => otel_trace_state(header@),
        None => None,
    }
}

/// The attributes that these entries become.
fn text_attributes(entries: &Vec<(String, String)>) -> (attributes: Vec<KeyValue>)
    ensures
        value::attributes_view(attributes@) == text::entries_view(entries@).map_values(
            |entry: (Seq<char>, Seq<char>)| value::text_attribute(entry.0, entry.1),
        ),
{
    let mut attributes: Vec<KeyValue> = Vec::new();
    let mut i: usize = 0;
    while i < entries.len()
        invariant
            i <= entries.len(),
            attributes@.len() == i,
            forall|j: int|
                0 <= j < i ==> (#[trigger] attributes@[j])@ == value::text_attribute(
                    entries@[j].0@,
                    entries@[j].1@,
                ),
        decreases entries.len() - i,
    {
        attributes.push(KeyValue::text(entries[i].0.as_str(), entries[i].1.as_str()));
        i = i + 1;
    }
    assert(value::attributes_view(attributes@) =~= text::entries_view(entries@).map_values(
        |entry: (Seq<char>, Seq<char>)| value::text_attribute(entry.0, entry.1),
    ));
    attributes
}

/// What a link becomes, where `read` was read of its trace state.
pub fn link_context_with(link: &SpanLink, read: Option<String>) -> (context: LinkContext)
    ensures
        context@ == link_context_view(*link, text::opt_text(read)),
        context.trace_id as int == link.trace_id as int,
        context.span_id as int == link.span_id as int,
{
    let trace_flags: u8 = match link.flags {
        Some(flags) => (flags % 256) as u8,
        None => 0,
    };
    let trace_state = match &link.tracestate {
        Some(_) => match read {
            Some(read) => read,
            None => String::new(),
        },
        None => String::new(),
    };
    let attributes: Vec<KeyValue> = match &link.attributes {
        Some(attributes) => text_attributes(attributes.entries()),
        None => Vec::new(),
    };
    let context = LinkContext {
        trace_id: link.trace_id as u128,
        span_id: link.span_id,
        trace_flags,
        is_remote: false,
        trace_state,
        attributes,
    };
    assert(context@.attributes =~= link_context_view(*link, text::opt_text(read)).attributes);
    context
}

/// What a link becomes.
pub fn link_context(link: &SpanLink) -> (context: LinkContext)
    ensures
        context@ == link_context_view(*link, link_state_read(*link)),
        context.trace_id as int == link.trace_id as int,
        context.span_id as int == link.span_id as int,
{
    let read = match &link.tracestate {
        Some(header) => otel_trace_state_from_str(header.as_str()),
        None => None,
    };
    link_context_with(link, read)
}

/// The links that are added to a span whose parent is remote.
pub fn remote_links(links: &Vec<SpanLink>) -> (contexts: Vec<LinkContext>)
    ensures
        contexts@.len() == links@.len(),
        forall|i: int|
            0 <= i < links@.len() ==> (#[trigger] contexts@[i])@ == link_context_view(
                links@[i],
                link_state_read(links@[i]),
            ),
        forall|i: int|
            0 <= i < links@.len() ==> {
                &&& (#[trigger] contexts@[i]).trace_id as int == links@[i].trace_id as int
                &&& contexts@[i].span_id as int == links@[i].span_id as int
            },
{
    let mut contexts: Vec<LinkContext> = Vec::new();
    let mut i: usize = 0;
    while i < links.len()
        invariant
            i <= links.len(),
            contexts@.len() == i,
            forall|j: int|
                0 <= j < i ==> (#[trigger] contexts@[j])@ == link_context_view(
                    links@[j],
                    link_state_read(links@[j]),
                ),
            forall|j: int|
                0 <= j < i ==> {
                    &&& (#[trigger] contexts@[j]).trace_id as int == links@[j].trace_id as int
                    &&& contexts@[j].span_id as int == links@[j].span_id as int
                },
        decreases links.len() - i,
    {
        contexts.push(link_context(&links[i]));
        i = i + 1;
    }
    contexts
}

/// A link names the span that was extracted: its trace identifier and its span identifier are the same
/// numbers, it is not remote, its flags are the low eight bits of those that were extracted, and zero
/// without them.
pub proof fn law_link_names_the_extracted_span(link: SpanLink, read: Option<Seq<char>>)
    ensures
        ({
            let context = link_context_view(link, read);
            &&& context.trace_id as int == link.trace_id as int
            &&& context.span_id as int == link.span_id as int
            &&& !context.is_remote
            &&& match link.flags {
                Some(flags) => context.trace_flags as u32 == flags & 0xff,
                None => context.trace_flags == 0,
            }
        }),
{
    if let Some(flags) = link.flags {
        assert(flags % 256 == flags & 0xff) by (bit_vector);
    }
}

/// Links to different spans stay different: in the trace identifier where the traces differ, and in
/// the span identifier where the spans do.
pub proof fn law_links_stay_different(
    a: SpanLink,
    b: SpanLink,
    read_a: Option<Seq<char>>,
    read_b: Option<Seq<char>>,
)
    ensures
        a.trace_id != b.trace_id <==> link_context_view(a, read_a).trace_id != link_context_view(
            b,
            read_b,
        ).trace_id,
        a.span_id != b.span_id <==> link_context_view(a, read_a).span_id != link_context_view(
            b,
            read_b,
        ).span_id,
{
}

/// A link has what could be read of its trace state; it has an empty one where it was extracted without
/// one, and where nothing could be read.
pub proof fn law_trace_state_of_a_link(link: SpanLink, read: Option<Seq<char>>)
    ensures
        ({
            let state = link_context_view(link, read).trace_state;
            &&& link.tracestate is Some && read is Some ==> state == read->0
            &&& link.tracestate is None || read is None ==> state.len() == 0
        }),
        link.tracestate matches Some(header) ==> link_state_read(link) == otel_trace_state(
            header@,
        ),
        link.tracestate is None ==> link_state_read(link) is None,
{
}

/// A link has one attribute for each that was extracted, in their order, with the same name and the
/// same text; it has none where none were.
pub proof fn law_attributes_of_a_link(link: SpanLink, read: Option<Seq<char>>)
    ensures
        ({
            let attributes = link_context_view(link, read).attributes;
            match link.attributes {
                Some(given) => {
                    &&& attributes.len() == given@.len()
                    &&& forall|i: int|
                        0 <= i < given@.len() ==> {
                            &&& (#[trigger] attributes[i]).key == given@[i].0
                            &&& attributes[i].value == ValueView::String(given@[i].1)
                        }
                },
                None => attributes.len() == 0,
            }
        }),
{
}

} // verus!
