//! What is known of a trace as a whole: its sampling decision, its origin and its tags.

use crate::text;
use vstd::prelude::*;

verus! {

/// Whether a trace is kept, and what decided that.
#[derive(Debug, PartialEq, Eq)]
pub struct SamplingDecision {
    /// The sampling priority.
    pub priority: Option<i8>,
    /// The decision maker, as it is written in a tag.
    pub mechanism: Option<String>,
}

/// What a [`SamplingDecision`] holds.
pub struct SamplingView {
    pub priority: Option<i8>,
    pub mechanism: Option<Seq<char>>,
}

impl View for SamplingDecision {
    type V = SamplingView;

    open spec fn view(&self) -> SamplingView {
        SamplingView { priority: self.priority, mechanism: text::opt_text(self.mechanism) }
    }
}

impl Clone for SamplingDecision {
    fn clone(&self) -> (copy: Self)
        ensures
            copy@ == self@,
    {
        SamplingDecision { priority: self.priority, mechanism: text::copy_opt_text(&self.mechanism) }
    }
}

/// Named texts. No name occurs twice, and the names keep the order in which they came.
#[derive(Debug)]
pub struct Tags {
    entries: Vec<(String, String)>,
}

/// Whether no name occurs twice.
pub open spec fn distinct_names(entries: Seq<(Seq<char>, Seq<char>)>) -> bool {
    forall|i: int, j: int| 0 <= i < j < entries.len() ==> entries[i].0 != entries[j].0
}

/// The position of a name, or the number of entries where the name does not occur.
pub open spec fn name_position(entries: Seq<(Seq<char>, Seq<char>)>, name: Seq<char>) -> int
    decreases entries.len(),
{
    if entries.len() == 0 {
        0
    } else if entries[0].0 == name {
        0
    } else {
        1 + name_position(entries.drop_first(), name)
    }
}

impl View for Tags {
    type V = Seq<(Seq<char>, Seq<char>)>;

    closed spec fn view(&self) -> Seq<(Seq<char>, Seq<char>)> {
        text::entries_view(self.entries@)
    }
}

/// The entries after `text` was stored under `name`: an entry of that name gets the new text in
/// its place, another name comes last.
pub open spec fn with_entry(
    entries: Seq<(Seq<char>, Seq<char>)>,
    name: Seq<char>,
    text: Seq<char>,
) -> Seq<(Seq<char>, Seq<char>)> {
    let position = name_position(entries, name);
    if position < entries.len() {
        entries.update(position, (name, text))
    } else {
        entries.push((name, text))
    }
}

/// A name is found at its position, and not before it.
proof fn lemma_name_position(entries: Seq<(Seq<char>, Seq<char>)>, name: Seq<char>)
    ensures
        0 <= name_position(entries, name) <= entries.len(),
        name_position(entries, name) < entries.len() ==> entries[name_position(entries, name)].0
            == name,
        forall|i: int|
            0 <= i < name_position(entries, name) ==> (#[trigger] entries[i]).0 != name,
    decreases entries.len(),
{
    if entries.len() > 0 && entries[0].0 != name {
        let rest = entries.drop_first();
        lemma_name_position(rest, name);
        assert forall|i: int| 0 <= i < name_position(entries, name) implies (
        #[trigger] entries[i]).0 != name by {
            if i > 0 {
                assert(entries[i] == rest[i - 1]);
            }
        }
    }
}

/// The first position of a name is its position.
proof fn lemma_first_is_position(
    entries: Seq<(Seq<char>, Seq<char>)>,
    name: Seq<char>,
    first: int,
)
    requires
        0 <= first <= entries.len(),
        first < entries.len() ==> entries[first].0 == name,
        forall|i: int| 0 <= i < first ==> (#[trigger] entries[i]).0 != name,
    ensures
        name_position(entries, name) == first,
{
    lemma_name_position(entries, name);
    let position = name_position(entries, name);
    if position < first {
        assert(entries[position].0 == name);
    }
    if first < position {
        assert(entries[first].0 != name);
    }
}

impl Tags {
    #[verifier::type_invariant]
    spec fn well_formed(self) -> bool {
        distinct_names(text::entries_view(self.entries@))
    }

    /// No tags.
    pub fn new() -> (tags: Tags)
        ensures
            tags@ == Seq::<(Seq<char>, Seq<char>)>::empty(),
    {
        let tags = Tags { entries: Vec::new() };
        assert(tags@ =~= Seq::<(Seq<char>, Seq<char>)>::empty());
        tags
    }

    /// No name occurs twice.
    pub fn entries(&self) -> (entries: &Vec<(String, String)>)
        ensures
            text::entries_view(entries@) == self@,
            distinct_names(self@),
    {
        proof {
            use_type_invariant(self);
        }
        &self.entries
    }

    /// Stores a text under a name, in place of the text that the name had.
    pub fn insert(&mut self, name: String, text: String)
        ensures
            final(self)@ == with_entry(old(self)@, name@, text@),
    {
        proof {
            use_type_invariant(&*self);
        }
        let ghost before = self@;
        let mut entries: Vec<(String, String)> = Vec::new();
        std::mem::swap(&mut entries, &mut self.entries);
        let mut i: usize = 0;
        while i < entries.len() && !text::same_text(entries[i].0.as_str(), name.as_str())
            invariant
                i <= entries.len(),
                text::entries_view(entries@) == before,
                forall|j: int| 0 <= j < i ==> (#[trigger] before[j]).0 != name@,
            decreases entries.len() - i,
        {
            assert(before[i as int].0 == entries@[i as int].0@);
            i = i + 1;
        }
        proof {
            if i < entries.len() {
                assert(before[i as int].0 == entries@[i as int].0@);
            }
            lemma_first_is_position(before, name@, i as int);
        }
        let ghost entry = (name@, text@);
        if i < entries.len() {
            entries.set(i, (name, text));
            assert(text::entries_view(entries@) =~= before.update(i as int, entry));
        } else {
            entries.push((name, text));
            assert(text::entries_view(entries@) =~= before.push(entry));
        }
        assert(distinct_names(text::entries_view(entries@)));
        self.entries = entries;
    }
}

/// A copy of a list of entries.
fn copy_entries(entries: &Vec<(String, String)>) -> (copy: Vec<(String, String)>)
    ensures
        text::entries_view(copy@) == text::entries_view(entries@),
{
    let mut copy: Vec<(String, String)> = Vec::new();
    let mut i: usize = 0;
    while i < entries.len()
        invariant
            i <= entries.len(),
            copy@.len() == i,
            forall|j: int|
                0 <= j < i ==> (#[trigger] copy@[j]).0@ == entries@[j].0@ && copy@[j].1@
                    == entries@[j].1@,
        decreases entries.len() - i,
    {
        copy.push((entries[i].0.clone(), entries[i].1.clone()));
        i = i + 1;
    }
    assert(text::entries_view(copy@) =~= text::entries_view(entries@));
    copy
}

impl Clone for Tags {
    fn clone(&self) -> (copy: Self)
        ensures
            copy@ == self@,
    {
        proof {
            use_type_invariant(self);
        }
        Tags { entries: copy_entries(&self.entries) }
    }
}

/// What is propagated along with a trace.
#[derive(Debug)]
pub struct TracePropagationData {
    pub sampling_decision: SamplingDecision,
    pub origin: Option<String>,
    pub tags: Option<Tags>,
}

/// What a [`TracePropagationData`] holds.
pub struct PropagationView {
    pub sampling_decision: SamplingView,
    pub origin: Option<Seq<char>>,
    pub tags: Option<Seq<(Seq<char>, Seq<char>)>>,
}

/// Propagation data that says nothing.
pub open spec fn empty_propagation() -> PropagationView {
    PropagationView {
        sampling_decision: SamplingView { priority: None, mechanism: None },
        origin: None,
        tags: None,
    }
}

/// The tags in an option.
pub open spec fn opt_tags(tags: Option<Tags>) -> Option<Seq<(Seq<char>, Seq<char>)>> {
    match tags {
        Some(tags) => Some(tags@),
        None => None,
    }
}

impl View for TracePropagationData {
    type V = PropagationView;

    open spec fn view(&self) -> PropagationView {
        PropagationView {
            sampling_decision: self.sampling_decision@,
            origin: text::opt_text(self.origin),
            tags: opt_tags(self.tags),
        }
    }
}

impl TracePropagationData {
    /// Propagation data that says nothing.
    pub fn empty() -> (data: TracePropagationData)
        ensures
            data@ == empty_propagation(),
    {
        TracePropagationData {
            sampling_decision: SamplingDecision { priority: None, mechanism: None },
            origin: None,
            tags: None,
        }
    }
}

impl Clone for TracePropagationData {
    fn clone(&self) -> (copy: Self)
        ensures
            copy@ == self@,
    {
        TracePropagationData {
            sampling_decision: self.sampling_decision.clone(),
            origin: text::copy_opt_text(&self.origin),
            tags: match &self.tags {
                Some(tags) => Some(tags.clone()),
                None => None,
            },
        }
    }
}

/// Storing a text under a name: the name has that text then, in the place that it had, or last where it
/// is new. Every other name keeps its text and its place, and no name occurs twice.
pub proof fn law_stored_text_is_found(
    entries: Seq<(Seq<char>, Seq<char>)>,
    name: Seq<char>,
    text: Seq<char>,
)
    requires
        distinct_names(entries),
    ensures
        ({
            let after = with_entry(entries, name, text);
            let known = exists|i: int| 0 <= i < entries.len() && (#[trigger] entries[i]).0 == name;
            &&& distinct_names(after)
            &&& after.len() == if known {
                entries.len()
            } else {
                entries.len() + 1
            }
            &&& !known ==> after[entries.len() as int] == (name, text)
            &&& forall|i: int|
                0 <= i < entries.len() ==> #[trigger] after[i] == if entries[i].0 == name {
                    (name, text)
                } else {
                    entries[i]
                }
        }),
{
    lemma_name_position(entries, name);
    let position = name_position(entries, name);
    let after = with_entry(entries, name, text);
    if position < entries.len() {
        assert(entries[position].0 == name);
        assert forall|i: int| 0 <= i < entries.len() implies #[trigger] after[i]
            == if entries[i].0 == name {
            (name, text)
        } else {
            entries[i]
        } by {
            if i != position && entries[i].0 == name {
                assert(entries[i].0 != entries[position].0);
            }
        }
    }
}

/// The text that was stored last under a name stands, and storing it again changes nothing.
pub proof fn law_last_stored_text_stands(
    entries: Seq<(Seq<char>, Seq<char>)>,
    name: Seq<char>,
    first: Seq<char>,
    second: Seq<char>,
)
    requires
        distinct_names(entries),
    ensures
        with_entry(with_entry(entries, name, first), name, second) == with_entry(
            entries,
            name,
            second,
        ),
{
    law_stored_text_is_found(entries, name, first);
    law_stored_text_is_found(entries, name, second);
    let middle = with_entry(entries, name, first);
    law_stored_text_is_found(middle, name, second);
    lemma_name_position(entries, name);
    let position = name_position(entries, name);
    assert(middle[position].0 == name);
    let after = with_entry(middle, name, second);
    let direct = with_entry(entries, name, second);
    assert(after.len() == direct.len());
    assert forall|i: int| 0 <= i < after.len() implies after[i] == direct[i] by {
        if i < entries.len() {
            assert(middle[i].0 == entries[i].0);
            assert(direct[i] == if entries[i].0 == name {
                (name, second)
            } else {
                entries[i]
            });
        }
        assert(after[i] == if middle[i].0 == name {
            (name, second)
        } else {
            middle[i]
        });
    }
    assert(after =~= direct);
}

/// Propagation data that says nothing has no priority, no mechanism, no origin and no tags.
pub proof fn law_empty_data_says_nothing()
    ensures
        empty_propagation().sampling_decision.priority is None,
        empty_propagation().sampling_decision.mechanism is None,
        empty_propagation().origin is None,
        empty_propagation().tags is None,
{
}

} // verus!
