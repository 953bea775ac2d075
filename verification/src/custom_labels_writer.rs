//! The labels that a profiler reads from the memory of a thread.
//!
//! They are written twice: as a set of labels by name, and as a record with attributes by index.

use crate::context_labels::{ExtractedSpanData, LabelsView};
use crate::ids::{SpanId, TraceId};
use vstd::prelude::*;

verus! {

/// Whether the current thread has a set of labels.
#[derive(Debug, Clone, Copy, PartialEq, Eq)]
pub enum LabelsetState {
    /// It had one before, or has one now.
    Present,
    /// It had none, and none could be allocated.
    AllocationFailed,
}

/// The value of a label.
#[derive(Debug, Clone, Copy, PartialEq, Eq)]
pub enum LabelValue<'a> {
    TraceId(TraceId),
    SpanId(SpanId),
    Text(&'a str),
}

/// What a [`LabelValue`] holds.
pub enum LabelValueView {
    TraceId(Seq<u8>),
    SpanId(Seq<u8>),
    Text(Seq<char>),
}

impl<'a> View for LabelValue<'a> {
    type V = LabelValueView;

    open spec fn view(&self) -> LabelValueView {
        match self {
            LabelValue::TraceId(id) => LabelValueView::TraceId(id@),
            LabelValue::SpanId(id) => LabelValueView::SpanId(id@),
            LabelValue::Text(text) => LabelValueView::Text(text@),
        }
    }
}

/// What a list of labels holds.
pub open spec fn labels_view(labels: Seq<(&str, LabelValue)>) -> Seq<(Seq<char>, LabelValueView)> {
    labels.map_values(|label: (&str, LabelValue)| (label.0@, label.1@))
}

/// What a list of attributes holds.
pub open spec fn attributes_view(attributes: Seq<(u8, &str)>) -> Seq<(u8, Seq<char>)> {
    attributes.map_values(|attribute: (u8, &str)| (attribute.0, attribute.1@))
}

/// What a list of names holds.
pub open spec fn names_view(names: Seq<&str>) -> Seq<Seq<char>> {
    names.map_values(|name: &str| name@)
}

/// What is written for a span.
#[derive(Debug)]
pub struct LabelPlan<'a> {
    /// The labels that are set, by name.
    pub labels: Vec<(&'a str, LabelValue<'a>)>,
    /// The span that the record belongs to.
    pub record_key: SpanId,
    pub record_trace_id: TraceId,
    pub record_span_id: SpanId,
    pub record_local_root_span_id: SpanId,
    /// The attributes of the record, by index.
    pub record_attributes: Vec<(u8, &'a str)>,
}

/// What is cleared when no span is active.
#[derive(Debug)]
pub struct ClearPlan {
    /// The labels that are deleted.
    pub delete: Vec<&'static str>,
    /// Whether the record is cleared.
    pub clear_record: bool,
}

/// The labels of a span, by name.
pub open spec fn named_labels(labels: LabelsView) -> Seq<(Seq<char>, LabelValueView)> {
    let ids = seq![
        ("trace_id"@, LabelValueView::TraceId(labels.trace_id)),
        ("span_id"@, LabelValueView::SpanId(labels.span_id)),
        ("local_root_span_id"@, LabelValueView::SpanId(labels.local_root_span_id)),
    ];
    match labels.http_route {
        Some(route) => ids.push(("http_route"@, LabelValueView::Text(route))),
        None => ids,
    }
}

/// The attributes of the record of a span, by index.
pub open spec fn record_attributes(
    http_route_key: u8,
    some_custom_field_key: u8,
    labels: LabelsView,
) -> Seq<(u8, Seq<char>)> {
    let custom = (some_custom_field_key, "123abc"@);
    match labels.http_route {
        Some(route) => seq![(http_route_key, route), custom],
        None => seq![custom],
    }
}

/// The names of all labels that may have been set.
pub open spec fn all_names() -> Seq<Seq<char>> {
    seq!["trace_id"@, "span_id"@, "local_root_span_id"@, "http_route"@]
}

/// Decides what is written into the memory of a thread.
#[derive(Debug, Clone, Copy)]
pub struct CustomLabelsWriter {
    http_route_key: u8,
    some_custom_field_key: u8,
}

impl CustomLabelsWriter {
    /// The index of the attribute that holds the route.
    pub closed spec fn http_route_key(self) -> u8 {
        self.http_route_key
    }

    /// The index of the attribute that holds a fixed text.
    pub closed spec fn some_custom_field_key(self) -> u8 {
        self.some_custom_field_key
    }

    /// A writer that uses attributes with these indices.
    pub fn new(http_route_idx: u8, some_custom_field_idx: u8) -> (writer: Self)
        ensures
            writer.http_route_key() == http_route_idx,
            writer.some_custom_field_key() == some_custom_field_idx,
    {
        CustomLabelsWriter {
            http_route_key: http_route_idx,
            some_custom_field_key: some_custom_field_idx,
        }
    }

    /// What is written for a span. Without a set of labels, nothing is.
    pub fn write_labels<'a>(&self, data: &ExtractedSpanData<'a>, labelset: LabelsetState) -> (plan:
        Option<LabelPlan<'a>>)
        ensures
            plan is None <==> labelset is AllocationFailed,
            plan matches Some(plan) ==> {
                &&& labels_view(plan.labels@) == named_labels(data@)
                &&& plan.record_key == data.span_id
                &&& plan.record_trace_id == data.trace_id
                &&& plan.record_span_id == data.span_id
                &&& plan.record_local_root_span_id == data.local_root_span_id
                &&& attributes_view(plan.record_attributes@) == record_attributes(
                    self.http_route_key(),
                    self.some_custom_field_key(),
                    data@,
                )
            },
    {
        match labelset {
            LabelsetState::AllocationFailed => {
                return None;
            },
            LabelsetState::Present => {},
        }
        let mut labels: Vec<(&'a str, LabelValue<'a>)> = Vec::new();
        labels.push(("trace_id", LabelValue::TraceId(data.trace_id)));
        labels.push(("span_id", LabelValue::SpanId(data.span_id)));
        labels.push(("local_root_span_id", LabelValue::SpanId(data.local_root_span_id)));
        let mut attributes: Vec<(u8, &'a str)> = Vec::new();
        match data.http_route {
            Some(route) => {
                labels.push(("http_route", LabelValue::Text(route)));
                attributes.push((self.http_route_key, route));
            },
            None => {},
        }
        attributes.push((self.some_custom_field_key, "123abc"));
        assert(labels_view(labels@) =~= named_labels(data@));
        assert(attributes_view(attributes@) =~= record_attributes(
            self.http_route_key(),
            self.some_custom_field_key(),
            data@,
        ));
        Some(
            LabelPlan {
                labels,
                record_key: data.span_id,
                record_trace_id: data.trace_id,
                record_span_id: data.span_id,
                record_local_root_span_id: data.local_root_span_id,
                record_attributes: attributes,
            },
        )
    }

    /// What is cleared when no span is active: the record, and the labels where there is a set of
    /// them.
    pub fn clear_labels(&self, has_labelset: bool) -> (plan: ClearPlan)
        ensures
            names_view(plan.delete@) == if has_labelset {
                all_names()
            } else {
                Seq::empty()
            },
            plan.clear_record,
    {
        let mut delete: Vec<&'static str> = Vec::new();
        if has_labelset {
            delete.push("trace_id");
            delete.push("span_id");
            delete.push("local_root_span_id");
            delete.push("http_route");
        }
        assert(names_view(delete@) =~= if has_labelset {
            all_names()
        } else {
            Seq::empty()
        });
        ClearPlan { delete, clear_record: true }
    }
}

/// Clearing takes back everything that was written by name: each label that is set for a span is
/// among those that are deleted.
pub proof fn law_clearing_takes_back_all_labels(labels: LabelsView)
    ensures
        forall|i: int|
            0 <= i < named_labels(labels).len() ==> all_names().contains(
                #[trigger] named_labels(labels)[i].0,
            ),
{
    let names = all_names();
    assert(names[0] == "trace_id"@);
    assert(names[1] == "span_id"@);
    assert(names[2] == "local_root_span_id"@);
    assert(names[3] == "http_route"@);
}

/// The labels that are set for a span: the three identifiers, each under its own name, and the route
/// where there is one, and none else.
pub proof fn law_labels_by_name(labels: LabelsView)
    ensures
        ({
            let named = named_labels(labels);
            &&& named.len() == if labels.http_route is Some {
                4int
            } else {
                3int
            }
            &&& named[0].0 == "trace_id"@
            &&& named[0].1 == LabelValueView::TraceId(labels.trace_id)
            &&& named[1].0 == "span_id"@
            &&& named[1].1 == LabelValueView::SpanId(labels.span_id)
            &&& named[2].0 == "local_root_span_id"@
            &&& named[2].1 == LabelValueView::SpanId(labels.local_root_span_id)
            &&& labels.http_route matches Some(route) ==> {
                &&& named[3].0 == "http_route"@
                &&& named[3].1 == LabelValueView::Text(route)
            }
        }),
{
}

/// The attributes of the record of a span: the route under its index, where there is one, and then the
/// fixed text under its own.
pub proof fn law_attributes_by_index(http_route_key: u8, some_custom_field_key: u8, labels: LabelsView)
    ensures
        ({
            let attributes = record_attributes(http_route_key, some_custom_field_key, labels);
            &&& labels.http_route matches Some(route) ==> {
                &&& attributes.len() == 2
                &&& attributes[0] == (http_route_key, route)
                &&& attributes[1] == (some_custom_field_key, "123abc"@)
            }
            &&& labels.http_route is None ==> {
                &&& attributes.len() == 1
                &&& attributes[0] == (some_custom_field_key, "123abc"@)
            }
        }),
{
}

/// Only names that may have been set are deleted: each is set for a span that serves a route.
pub proof fn law_only_own_labels_are_deleted(labels: LabelsView)
    requires
        labels.http_route is Some,
    ensures
        all_names().len() == named_labels(labels).len(),
        forall|i: int|
            0 <= i < all_names().len() ==> #[trigger] all_names()[i] == named_labels(labels)[i].0,
{
}

} // verus!
