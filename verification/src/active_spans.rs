//! What is known of spans that have not finished yet.

use crate::ids::SpanId;
use crate::text;
use hashbrown::HashMap;
use vstd::prelude::*;

verus! {

/// What is known of a span while it is open.
#[derive(Debug)]
pub struct ActiveSpanMetadata {
    /// The route of the request that the span serves.
    pub http_route: Option<String>,
}

impl View for ActiveSpanMetadata {
    type V = Option<Seq<char>>;

    open spec fn view(&self) -> Option<Seq<char>> {
        text::opt_text(self.http_route)
    }
}

impl Clone for ActiveSpanMetadata {
    fn clone(&self) -> (copy: Self)
        ensures
            copy@ == self@,
    {
        ActiveSpanMetadata { http_route: text::copy_opt_text(&self.http_route) }
    }
}

/// The open spans of a trace, found by their identifiers. The map is a `hashbrown::HashMap`.
#[verifier::external_body]
#[derive(Debug)]
pub struct ActiveSpanMap {
    spans: HashMap<SpanId, ActiveSpanMetadata>,
}

/// The metadata that the map holds for each span identifier.
pub uninterp spec fn active_spans_in(map: ActiveSpanMap) -> Map<Seq<u8>, ActiveSpanMetadata>;

impl View for ActiveSpanMap {
    type V = Map<Seq<u8>, Option<Seq<char>>>;

    open spec fn view(&self) -> Map<Seq<u8>, Option<Seq<char>>> {
        active_spans_in(*self).map_values(|metadata: ActiveSpanMetadata| metadata@)
    }
}

/// Calls `hashbrown::HashMap::new`.
///
/// Trusted: the new map is empty.
#[verifier::external_body]
fn hashbrown_new() -> (map: ActiveSpanMap)
    ensures
        active_spans_in(map).dom() == Set::<Seq<u8>>::empty(),
{
    ActiveSpanMap { spans: HashMap::new() }
}

/// Calls `hashbrown::HashMap::insert`.
///
/// Trusted: the map then holds the metadata under the identifier, and all else as before.
#[verifier::external_body]
fn hashbrown_insert(map: &mut ActiveSpanMap, id: SpanId, metadata: ActiveSpanMetadata)
    ensures
        active_spans_in(*final(map)) == active_spans_in(*old(map)).insert(id@, metadata),
{
    map.spans.insert(id, metadata);
}

/// Calls `hashbrown::HashMap::remove`.
///
/// Trusted: the map then holds nothing under the identifier, and all else as before.
#[verifier::external_body]
fn hashbrown_remove(map: &mut ActiveSpanMap, id: &SpanId)
    ensures
        active_spans_in(*final(map)) == active_spans_in(*old(map)).remove(id@),
{
    map.spans.remove(id);
}

/// Calls `hashbrown::HashMap::get`.
///
/// Trusted: the result is what the map holds under the identifier, if it holds anything there.
#[verifier::external_body]
fn hashbrown_get<'a>(map: &'a ActiveSpanMap, id: &SpanId) -> (found: Option<&'a ActiveSpanMetadata>)
    ensures
        match found {
            Some(metadata) => active_spans_in(*map).contains_pair(id@, *metadata),
            None => !active_spans_in(*map).dom().contains(id@),
        },
{
    map.spans.get(id)
}

impl ActiveSpanMap {
    /// No open spans.
    pub fn new() -> (map: ActiveSpanMap)
        ensures
            map@ == Map::<Seq<u8>, Option<Seq<char>>>::empty(),
    {
        let map = hashbrown_new();
        assert(map@ =~= Map::<Seq<u8>, Option<Seq<char>>>::empty());
        map
    }

    /// Stores the metadata of a span.
    pub fn insert(&mut self, id: SpanId, metadata: ActiveSpanMetadata)
        ensures
            final(self)@ == old(self)@.insert(id@, metadata@),
    {
        let ghost before = self@;
        hashbrown_insert(self, id, metadata);
        assert(self@ =~= before.insert(id@, metadata@));
    }

    /// Forgets a span.
    pub fn remove(&mut self, id: &SpanId)
        ensures
            final(self)@ == old(self)@.remove(id@),
    {
        let ghost before = self@;
        hashbrown_remove(self, id);
        assert(self@ =~= before.remove(id@));
    }

    /// The metadata of a span.
    pub fn get(&self, id: &SpanId) -> (found: Option<&ActiveSpanMetadata>)
        ensures
            match found {
                Some(metadata) => self@.contains_pair(id@, metadata@),
                None => !self@.dom().contains(id@),
            },
    {
        hashbrown_get(self, id)
    }
}

} // verus!
