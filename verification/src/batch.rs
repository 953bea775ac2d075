//! The spans that wait for being sent.

use crate::span::{self, FinishedSpan, SpanView};
use crate::text;
use crate::value;
use vstd::prelude::*;

verus! {

/// How many chunks a batch has room for from the start, which avoids growing it while it is small.
pub const PRE_ALLOCATE_CHUNKS: usize = 400;

/// The spans of one trace that are sent together.
#[derive(Debug)]
pub struct TraceChunk {
    pub chunk: Vec<FinishedSpan>,
}

impl View for TraceChunk {
    type V = Seq<SpanView>;

    open spec fn view(&self) -> Seq<SpanView> {
        span::spans_view(self.chunk@)
    }
}

/// What a list of chunks holds.
pub open spec fn chunks_view(chunks: Seq<TraceChunk>) -> Seq<Seq<SpanView>> {
    chunks.map_values(|chunk: TraceChunk| chunk@)
}

/// The batch holds as much as it may. The spans that were to be added are dropped.
#[derive(Debug, Clone, Copy, PartialEq, Eq)]
pub struct BatchFullError {
    pub spans_dropped: usize,
}

/// The spans that wait for being sent, and the names of services that were seen in them.
#[derive(Debug)]
pub struct Batch {
    chunks: Vec<TraceChunk>,
    last_flush: u128,
    span_count: usize,
    max_buffered_spans: usize,
    main_service: String,
    extra_services: Vec<String>,
}

/// What a [`Batch`] holds.
pub struct BatchView {
    pub chunks: Seq<Seq<SpanView>>,
    /// When the batch was last emptied, in nanoseconds.
    pub last_flush: u128,
    pub span_count: nat,
    pub max_buffered_spans: nat,
    /// The name of the service that is configured.
    pub main_service: Seq<char>,
    /// The names of other services that were seen in spans.
    pub extra_services: Seq<Seq<char>>,
}

impl View for Batch {
    type V = BatchView;

    closed spec fn view(&self) -> BatchView {
        BatchView {
            chunks: chunks_view(self.chunks@),
            last_flush: self.last_flush,
            span_count: self.span_count as nat,
            max_buffered_spans: self.max_buffered_spans as nat,
            main_service: self.main_service@,
            extra_services: value::texts(self.extra_services@),
        }
    }
}

/// How many spans there are in all chunks.
pub open spec fn total_spans(chunks: Seq<Seq<SpanView>>) -> nat
    decreases chunks.len(),
{
    if chunks.len() == 0 {
        0
    } else {
        total_spans(chunks.drop_last()) + chunks.last().len()
    }
}

/// The name that a span has for a service that nobody named.
pub open spec fn unnamed_service() -> Seq<char> {
    "otlpresourcenoservicename"@
}

/// Whether a name stands for a service.
pub open spec fn names_a_service(name: Seq<char>) -> bool {
    name.len() > 0 && name != unnamed_service()
}

/// The name of the service that a span belongs to, if the span gives one.
pub open spec fn service_of(finished: SpanView) -> Option<Seq<char>> {
    match value::first_value(finished.attributes, "service.name"@, "service.name"@) {
        Some(name) if names_a_service(value::display_text(name)) => Some(
            value::display_text(name),
        ),
        _ => None,
    }
}

/// The names of other services after one more was seen.
pub open spec fn with_extra_service(
    services: Seq<Seq<char>>,
    main_service: Seq<char>,
    name: Seq<char>,
) -> Seq<Seq<char>> {
    if name == main_service || services.contains(name) {
        services
    } else {
        services.push(name)
    }
}

/// The names of other services after these spans were seen.
pub open spec fn with_services_of(
    services: Seq<Seq<char>>,
    main_service: Seq<char>,
    spans: Seq<SpanView>,
) -> Seq<Seq<char>>
    decreases spans.len(),
{
    if spans.len() == 0 {
        services
    } else {
        let before = with_services_of(services, main_service, spans.drop_last());
        match service_of(spans.last()) {
            Some(name) => with_extra_service(before, main_service, name),
            None => before,
        }
    }
}

/// The spans are counted right, no chunk is empty, and the names of other services are names, each
/// once, and not that of this service.
pub open spec fn batch_wf(batch: BatchView) -> bool {
    &&& batch.span_count == total_spans(batch.chunks)
    &&& forall|i: int| 0 <= i < batch.chunks.len() ==> (#[trigger] batch.chunks[i]).len() > 0
    &&& batch.extra_services.no_duplicates()
    &&& forall|i: int|
        0 <= i < batch.extra_services.len() ==> names_a_service(#[trigger] batch.extra_services[i])
            && batch.extra_services[i] != batch.main_service
}

/// Whether a batch takes no more spans.
pub open spec fn is_full(batch: BatchView) -> bool {
    batch.span_count > batch.max_buffered_spans
}

/// The batch after a chunk was added. An empty chunk is not kept.
pub open spec fn with_chunk(batch: BatchView, chunk: Seq<SpanView>) -> BatchView {
    if is_full(batch) || chunk.len() == 0 {
        batch
    } else {
        BatchView {
            chunks: batch.chunks.push(chunk),
            span_count: batch.span_count + chunk.len(),
            extra_services: with_services_of(batch.extra_services, batch.main_service, chunk),
            ..batch
        }
    }
}

/// The batch after it was emptied at `now`.
pub open spec fn emptied(batch: BatchView, now: u128) -> BatchView {
    BatchView { chunks: Seq::empty(), span_count: 0, last_flush: now, ..batch }
}

/// Naming more services keeps the names in order.
proof fn lemma_services_stay_names(
    services: Seq<Seq<char>>,
    main_service: Seq<char>,
    spans: Seq<SpanView>,
)
    requires
        services.no_duplicates(),
        forall|i: int|
            0 <= i < services.len() ==> names_a_service(#[trigger] services[i]) && services[i]
                != main_service,
    ensures
        ({
            let after = with_services_of(services, main_service, spans);
            &&& after.no_duplicates()
            &&& forall|i: int|
                0 <= i < after.len() ==> names_a_service(#[trigger] after[i]) && after[i]
                    != main_service
        }),
    decreases spans.len(),
{
    if spans.len() > 0 {
        lemma_services_stay_names(services, main_service, spans.drop_last());
    }
}

/// A batch stays well formed when a chunk is added or when it is emptied.
pub proof fn law_batch_stays_well_formed(batch: BatchView, chunk: Seq<SpanView>, now: u128)
    requires
        batch_wf(batch),
    ensures
        batch_wf(with_chunk(batch, chunk)),
        batch_wf(emptied(batch, now)),
{
    lemma_services_stay_names(batch.extra_services, batch.main_service, chunk);
    assert(batch.chunks.push(chunk).drop_last() =~= batch.chunks);
}

/// A batch takes one chunk beyond its limit, however large, and then none: the spans that it holds
/// without the last chunk never exceed the limit.
pub proof fn law_only_the_last_chunk_exceeds_the_limit(batch: BatchView, chunk: Seq<SpanView>)
    requires
        batch_wf(batch),
        batch.chunks.len() > 0 ==> total_spans(batch.chunks.drop_last())
            <= batch.max_buffered_spans,
    ensures
        ({
            let after = with_chunk(batch, chunk);
            after.chunks.len() > 0 ==> total_spans(after.chunks.drop_last())
                <= after.max_buffered_spans
        }),
{
    assert(batch.chunks.push(chunk).drop_last() =~= batch.chunks);
}

impl Batch {
    /// An empty batch, made at `now`.
    pub fn new(max_buffered_spans: usize, main_service: String, now: u128) -> (batch: Batch)
        ensures
            batch@ == (BatchView {
                chunks: Seq::empty(),
                last_flush: now,
                span_count: 0,
                max_buffered_spans: max_buffered_spans as nat,
                main_service: main_service@,
                extra_services: Seq::empty(),
            }),
            batch_wf(batch@),
    {
        let batch = Batch {
            chunks: Vec::with_capacity(PRE_ALLOCATE_CHUNKS),
            last_flush: now,
            span_count: 0,
            max_buffered_spans,
            main_service,
            extra_services: Vec::new(),
        };
        assert(batch@.chunks =~= Seq::<Seq<SpanView>>::empty());
        assert(batch@.extra_services =~= Seq::<Seq<char>>::empty());
        batch
    }

    /// How many spans wait.
    pub fn span_count(&self) -> (count: usize)
        ensures
            count == self@.span_count,
    {
        self.span_count
    }

    /// Whether the batch takes no more spans.
    pub fn is_full(&self) -> (full: bool)
        ensures
            full == is_full(self@),
    {
        self.span_count > self.max_buffered_spans
    }

    /// When the batch was last emptied.
    pub fn last_flush(&self) -> (time: u128)
        ensures
            time == self@.last_flush,
    {
        self.last_flush
    }

    /// The names of other services that were seen in spans.
    pub fn get_extra_services(&self) -> (services: &Vec<String>)
        ensures
            value::texts(services@) == self@.extra_services,
    {
        &self.extra_services
    }

    /// Remembers the name of another service.
    fn add_extra_service(&mut self, name: String)
        ensures
            final(self)@ == (BatchView {
                extra_services: with_extra_service(
                    old(self)@.extra_services,
                    old(self)@.main_service,
                    name@,
                ),
                ..old(self)@
            }),
    {
        let ghost before = self@;
        if text::same_text(name.as_str(), self.main_service.as_str()) {
            return;
        }
        let mut i: usize = 0;
        while i < self.extra_services.len()
            invariant
                i <= self.extra_services.len(),
                self@ == before,
                forall|j: int| 0 <= j < i ==> #[trigger] before.extra_services[j] != name@,
            decreases self.extra_services.len() - i,
        {
            assert(before.extra_services[i as int] == self.extra_services@[i as int]@);
            if text::same_text(name.as_str(), self.extra_services[i].as_str()) {
                assert(before.extra_services.contains(name@));
                return;
            }
            i = i + 1;
        }
        assert(!before.extra_services.contains(name@));
        let ghost added = name@;
        self.extra_services.push(name);
        assert(self@.extra_services =~= before.extra_services.push(added));
    }

    /// Remembers the name of the service that a span belongs to, so that all services are known when
    /// configuration is asked for.
    pub fn extract_and_add_service_from_span(&mut self, finished: &FinishedSpan)
        ensures
            final(self)@ == (BatchView {
                extra_services: with_services_of(
                    old(self)@.extra_services,
                    old(self)@.main_service,
                    seq![finished@],
                ),
                ..old(self)@
            }),
    {
        let ghost before = self@;
        assert(seq![finished@].drop_last() =~= Seq::<SpanView>::empty());
        assert(with_services_of(
            before.extra_services,
            before.main_service,
            Seq::<SpanView>::empty(),
        ) == before.extra_services);
        let name = match value::find_value(&finished.attributes, "service.name", "service.name") {
            Some(name) => name.display(),
            None => {
                return;
            },
        };
        if !name.as_str().is_empty() && !text::same_text(
            name.as_str(),
            "otlpresourcenoservicename",
        ) {
            self.add_extra_service(name);
        }
    }

    /// Adds a chunk of spans, unless the batch is full.
    ///
    /// A chunk is taken as a whole even where it exceeds what the batch may hold: a trace that is
    /// larger than that would otherwise always be dropped.
    pub fn add_trace_chunk(&mut self, chunk: Vec<FinishedSpan>) -> (result: Result<
        (),
        BatchFullError,
    >)
        requires
            is_full(old(self)@) || old(self)@.span_count + chunk@.len() <= usize::MAX,
        ensures
            final(self)@ == with_chunk(old(self)@, span::spans_view(chunk@)),
            batch_wf(old(self)@) ==> batch_wf(final(self)@),
            result == if is_full(old(self)@) {
                Err(BatchFullError { spans_dropped: chunk@.len() as usize })
            } else {
                Ok(())
            },
    {
        let ghost before = self@;
        let ghost added = span::spans_view(chunk@);
        proof {
            if batch_wf(before) {
                law_batch_stays_well_formed(before, added, 0);
            }
        }
        if self.is_full() {
            return Err(BatchFullError { spans_dropped: chunk.len() });
        }
        if chunk.is_empty() {
            return Ok(());
        }
        let mut i: usize = 0;
        assert(added.take(0) =~= Seq::<SpanView>::empty());
        while i < chunk.len()
            invariant
                i <= chunk.len(),
                added == span::spans_view(chunk@),
                self@ == (BatchView {
                    extra_services: with_services_of(
                        before.extra_services,
                        before.main_service,
                        added.take(i as int),
                    ),
                    ..before
                }),
            decreases chunk.len() - i,
        {
            let ghost so_far = self@.extra_services;
            self.extract_and_add_service_from_span(&chunk[i]);
            proof {
                assert(added.take(i + 1).drop_last() =~= added.take(i as int));
                assert(added.take(i + 1).last() == chunk@[i as int]@);
                assert(seq![chunk@[i as int]@].drop_last() =~= Seq::<SpanView>::empty());
                assert(with_services_of(so_far, before.main_service, Seq::<SpanView>::empty())
                    == so_far);
            }
            i = i + 1;
        }
        assert(added.take(i as int) =~= added);
        let chunk_len = chunk.len();
        self.chunks.push(TraceChunk { chunk });
        self.span_count = self.span_count + chunk_len;
        assert(self@.chunks =~= before.chunks.push(added));
        Ok(())
    }

    /// Empties the batch at `now`, and returns what it held.
    pub fn export(&mut self, now: u128) -> (chunks: Vec<TraceChunk>)
        ensures
            chunks_view(chunks@) == old(self)@.chunks,
            final(self)@ == emptied(old(self)@, now),
            batch_wf(old(self)@) ==> batch_wf(final(self)@),
    {
        let ghost before = self@;
        proof {
            if batch_wf(before) {
                law_batch_stays_well_formed(before, Seq::empty(), now);
            }
        }
        let mut chunks: Vec<TraceChunk> = Vec::with_capacity(PRE_ALLOCATE_CHUNKS);
        std::mem::swap(&mut chunks, &mut self.chunks);
        self.span_count = 0;
        self.last_flush = now;
        assert(self@.chunks =~= Seq::<Seq<SpanView>>::empty());
        chunks
    }
}

/// A batch with more spans than it may hold, and an empty chunk, change nothing. Any other chunk comes
/// after those that wait, whole, and its spans are counted.
pub proof fn law_chunk_is_taken_whole(batch: BatchView, chunk: Seq<SpanView>)
    ensures
        ({
            let after = with_chunk(batch, chunk);
            if batch.span_count > batch.max_buffered_spans || chunk.len() == 0 {
                after == batch
            } else {
                &&& after.chunks.len() == batch.chunks.len() + 1
                &&& after.chunks.last() == chunk
                &&& after.chunks.drop_last() == batch.chunks
                &&& after.span_count == batch.span_count + chunk.len()
                &&& after.last_flush == batch.last_flush
                &&& after.max_buffered_spans == batch.max_buffered_spans
                &&& after.main_service == batch.main_service
            }
        }),
{
    assert(batch.chunks.push(chunk).drop_last() =~= batch.chunks);
}

/// A batch takes spans as long as it holds at most as many as it may: one that holds just as many takes
/// one more chunk.
pub proof fn law_when_a_batch_is_full(batch: BatchView)
    ensures
        is_full(batch) <==> batch.max_buffered_spans < batch.span_count,
{
}

/// A batch that was emptied holds no spans, was emptied then, and has all else as before.
pub proof fn law_emptied_batch(batch: BatchView, now: u128)
    ensures
        ({
            let after = emptied(batch, now);
            &&& after.chunks.len() == 0
            &&& after.span_count == 0
            &&& after.last_flush == now
            &&& after.max_buffered_spans == batch.max_buffered_spans
            &&& after.main_service == batch.main_service
            &&& after.extra_services == batch.extra_services
        }),
{
}

/// Whether a span has an attribute `service.name` at a position, and none before it.
pub open spec fn names_service_at(finished: SpanView, position: int) -> bool {
    &&& 0 <= position < finished.attributes.len()
    &&& finished.attributes[position].key == "service.name"@
    &&& forall|i: int|
        0 <= i < position ==> (#[trigger] finished.attributes[i]).key != "service.name"@
}

/// Whether a span gives a name for its service: it is the text of its first attribute `service.name`,
/// not empty, and not the name that stands for none.
pub open spec fn gives_name(finished: SpanView, name: Seq<char>) -> bool {
    &&& name.len() > 0
    &&& name != "otlpresourcenoservicename"@
    &&& exists|position: int|
        #[trigger] names_service_at(finished, position) && name == value::display_text(
            finished.attributes[position].value,
        )
}

/// An attribute with a key is where no attribute before it has that key, if there is one at all.
proof fn lemma_first_position(attributes: Seq<value::KeyValueView>, key: Seq<char>) -> (first: int)
    ensures
        0 <= first <= attributes.len(),
        forall|i: int| 0 <= i < first ==> (#[trigger] attributes[i]).key != key,
        first < attributes.len() ==> attributes[first].key == key,
    decreases attributes.len(),
{
    if attributes.len() == 0 {
        0
    } else if attributes[0].key == key {
        0
    } else {
        let rest = attributes.drop_first();
        let first: int = lemma_first_position(rest, key) + 1;
        assert forall|i: int| 0 <= i < first implies (#[trigger] attributes[i]).key != key by {
            if i > 0 {
                assert(rest[i - 1] == attributes[i]);
            }
        }
        first
    }
}

/// The name of the service of a span is the one that the span gives.
pub proof fn law_service_of_a_span(finished: SpanView, name: Seq<char>)
    ensures
        service_of(finished) == Some(name) <==> gives_name(finished, name),
{
    let first = lemma_first_position(finished.attributes, "service.name"@);
    value::law_first_value_is_found(
        finished.attributes,
        "service.name"@,
        "service.name"@,
        first,
    );
    if first < finished.attributes.len() {
        assert(names_service_at(finished, first));
    }
    if gives_name(finished, name) {
        let position = choose|position: int| #[trigger]
            names_service_at(finished, position) && name == value::display_text(
                finished.attributes[position].value,
            );
        assert(position == first);
    }
}

/// The services that are remembered after a list of spans: those from before, in their order, and then
/// every name that a span gives and that is not the name of this service.
pub proof fn law_services_are_remembered(
    services: Seq<Seq<char>>,
    main_service: Seq<char>,
    spans: Seq<SpanView>,
    name: Seq<char>,
)
    ensures
        ({
            let after = with_services_of(services, main_service, spans);
            &&& services.is_prefix_of(after)
            &&& after.contains(name) <==> {
                ||| services.contains(name)
                ||| name != main_service && exists|i: int|
                    0 <= i < spans.len() && gives_name(#[trigger] spans[i], name)
            }
        }),
    decreases spans.len(),
{
    let after = with_services_of(services, main_service, spans);
    if spans.len() == 0 {
        assert(services =~= after.subrange(0, services.len() as int));
    } else {
        let init = spans.drop_last();
        law_services_are_remembered(services, main_service, init, name);
        law_service_of_a_span(spans.last(), name);
        let before = with_services_of(services, main_service, init);
        if let Some(given) = service_of(spans.last()) {
            law_service_of_a_span(spans.last(), given);
            let pushed = before.push(given);
            assert(pushed[before.len() as int] == given);
            if before.contains(name) {
                let k = choose|k: int| 0 <= k < before.len() && before[k] == name;
                assert(pushed[k] == name);
            }
        }
        assert(before =~= after.subrange(0, before.len() as int));
        assert(services =~= after.subrange(0, services.len() as int));
        if exists|i: int| 0 <= i < init.len() && gives_name(#[trigger] init[i], name) {
            let i = choose|i: int| 0 <= i < init.len() && gives_name(#[trigger] init[i], name);
            assert(gives_name(spans[i], name));
        }
        if exists|i: int| 0 <= i < spans.len() && gives_name(#[trigger] spans[i], name) {
            let i = choose|i: int| 0 <= i < spans.len() && gives_name(#[trigger] spans[i], name);
            if i < init.len() {
                assert(gives_name(init[i], name));
            }
        }
    }
}

/// A chunk that a batch takes names its services: each is remembered from then on, also after the batch
/// was emptied. What a batch does not take names none.
pub proof fn law_taken_spans_name_services(
    batch: BatchView,
    chunk: Seq<SpanView>,
    now: u128,
    name: Seq<char>,
)
    ensures
        ({
            let after = with_chunk(batch, chunk);
            &&& emptied(after, now).extra_services == after.extra_services
            &&& after.extra_services.contains(name) <==> {
                ||| batch.extra_services.contains(name)
                ||| batch.span_count <= batch.max_buffered_spans && name != batch.main_service
                    && exists|i: int| 0 <= i < chunk.len() && gives_name(#[trigger] chunk[i], name)
            }
        }),
{
    law_services_are_remembered(batch.extra_services, batch.main_service, chunk, name);
}

/// The spans of a list of chunks are counted chunk by chunk.
pub proof fn law_spans_are_counted(chunks: Seq<Seq<SpanView>>, chunk: Seq<SpanView>)
    ensures
        total_spans(Seq::empty()) == 0,
        total_spans(chunks.push(chunk)) == total_spans(chunks) + chunk.len(),
{
    assert(chunks.push(chunk).drop_last() =~= chunks);
}

} // verus!
