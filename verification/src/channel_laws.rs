//! What holds of the hand-over of spans as a whole.

use crate::batch;
use crate::channel::{
    self, ReceiveView, SenderError, ShutdownWait, TraceExporterMessage, Wake, WaiterView,
};
use crate::span::SpanView;
use opentelemetry_sdk::Resource;
use vstd::prelude::*;

verus! {

/// The state after several chunks came in, one after the other.
pub open spec fn with_all_spans(
    waiter: WaiterView,
    flush_trigger: nat,
    chunks: Seq<Seq<SpanView>>,
) -> WaiterView
    decreases chunks.len(),
{
    if chunks.len() == 0 {
        waiter
    } else {
        channel::with_spans(
            with_all_spans(waiter, flush_trigger, chunks.drop_last()),
            flush_trigger,
            chunks.last(),
        )
    }
}

/// Those of several chunks that are kept: all that hold a span and come in before the batch is full.
pub open spec fn kept_chunks(held: nat, max_spans: nat, chunks: Seq<Seq<SpanView>>) -> Seq<
    Seq<SpanView>,
>
    decreases chunks.len(),
{
    if chunks.len() == 0 {
        Seq::empty()
    } else {
        let kept = kept_chunks(held, max_spans, chunks.drop_last());
        if chunks.last().len() == 0 || held + batch::total_spans(kept) > max_spans {
            kept
        } else {
            kept.push(chunks.last())
        }
    }
}

/// Enough spans wait only where they are to be sent.
pub open spec fn sends_when_enough(waiter: WaiterView, flush_trigger: nat) -> bool {
    waiter.state.batch.span_count > flush_trigger ==> waiter.state.flush_needed
}

/// How many spans came in since the metrics were last read.
pub open spec fn counted_spans(waiter: WaiterView) -> nat {
    waiter.state.metrics.spans_queued + waiter.state.metrics.spans_dropped_full_buffer
}

/// The state after chunks came in, as far as the chunks go.
proof fn lemma_with_all_spans(waiter: WaiterView, flush_trigger: nat, chunks: Seq<Seq<SpanView>>)
    requires
        channel::sender_error(waiter) is None,
    ensures
        ({
            let after = with_all_spans(waiter, flush_trigger, chunks);
            let kept = kept_chunks(
                waiter.state.batch.span_count,
                waiter.state.batch.max_buffered_spans,
                chunks,
            );
            &&& channel::sender_error(after) is None
            &&& after.state.batch.max_buffered_spans == waiter.state.batch.max_buffered_spans
            &&& after.state.batch.span_count == waiter.state.batch.span_count
                + batch::total_spans(kept)
            &&& after.state.batch.chunks == waiter.state.batch.chunks + kept
            &&& after.state.set_resource == waiter.state.set_resource
            &&& after.state.shutdown_needed == waiter.state.shutdown_needed
        }),
    decreases chunks.len(),
{
    let kept = kept_chunks(
        waiter.state.batch.span_count,
        waiter.state.batch.max_buffered_spans,
        chunks,
    );
    if chunks.len() > 0 {
        lemma_with_all_spans(waiter, flush_trigger, chunks.drop_last());
        let before = kept_chunks(
            waiter.state.batch.span_count,
            waiter.state.batch.max_buffered_spans,
            chunks.drop_last(),
        );
        assert(before.push(chunks.last()).drop_last() =~= before);
        assert((waiter.state.batch.chunks + before).push(chunks.last()) =~= waiter.state.batch.chunks
            + before.push(chunks.last()));
    } else {
        assert(waiter.state.batch.chunks + kept =~= waiter.state.batch.chunks);
    }
}

/// The receiving side takes all that waits at once: the chunks that waited before, followed by those
/// kept of the ones that came in, and none of them waits any longer.
pub proof fn law_all_waiting_spans_are_received(
    waiter: WaiterView,
    flush_trigger: nat,
    chunks: Seq<Seq<SpanView>>,
    deadline: u128,
    now: u128,
)
    requires
        channel::sender_error(waiter) is None,
        waiter.state.set_resource is None,
    ensures
        ({
            let after = with_all_spans(waiter, flush_trigger, chunks);
            channel::poll_step(after, deadline, now) matches ReceiveView::Ready(_, received)
                ==> received == waiter.state.batch.chunks + kept_chunks(
                waiter.state.batch.span_count,
                waiter.state.batch.max_buffered_spans,
                chunks,
            ) && channel::after_poll(after, deadline, now).state.batch.chunks.len() == 0
        }),
{
    lemma_with_all_spans(waiter, flush_trigger, chunks);
}

/// Something that happens to the hand-over.
pub enum ChannelEvent {
    /// Spans come in.
    Spans(Seq<SpanView>),
    /// A resource is set.
    Resource(Resource),
    /// Spans are asked to be sent.
    Flush,
    /// The receiving side is asked to stop.
    Shutdown,
    /// The receiving side looks, or goes on after it has waited.
    Look { deadline: u128, timed_out: bool, now: u128 },
    /// The receiving side has stopped.
    Stopped,
    /// The metrics are read.
    MetricsRead,
}

/// The state after something happened.
pub open spec fn after_event(
    waiter: WaiterView,
    flush_trigger: nat,
    event: ChannelEvent,
) -> WaiterView {
    match event {
        ChannelEvent::Spans(chunk) => channel::with_spans(waiter, flush_trigger, chunk),
        ChannelEvent::Resource(resource) => channel::with_resource(waiter, resource),
        ChannelEvent::Flush => channel::with_flush(waiter),
        ChannelEvent::Shutdown => channel::with_shutdown(waiter),
        ChannelEvent::Look { deadline, timed_out, now } => channel::after_woken(
            waiter,
            deadline,
            timed_out,
            now,
        ),
        ChannelEvent::Stopped => channel::with_shutdown_done(waiter),
        ChannelEvent::MetricsRead => channel::after_metrics_read(waiter),
    }
}

/// The state after all these things happened, in this order.
pub open spec fn after_events(
    waiter: WaiterView,
    flush_trigger: nat,
    events: Seq<ChannelEvent>,
) -> WaiterView
    decreases events.len(),
{
    if events.len() == 0 {
        waiter
    } else {
        after_event(
            after_events(waiter, flush_trigger, events.drop_last()),
            flush_trigger,
            events.last(),
        )
    }
}

/// The chunks that are taken in when something happens.
pub open spec fn taken_in(waiter: WaiterView, event: ChannelEvent) -> Seq<Seq<SpanView>> {
    match event {
        ChannelEvent::Spans(chunk) if chunk.len() > 0 && channel::spans_result(
            waiter,
            chunk,
        ) is Ok => seq![chunk],
        _ => Seq::empty(),
    }
}

/// The chunks that the receiving side gets when something happens.
pub open spec fn given_out(waiter: WaiterView, event: ChannelEvent) -> Seq<Seq<SpanView>> {
    match event {
        ChannelEvent::Look { deadline, timed_out, now } => match channel::woken_step(
            waiter,
            deadline,
            timed_out,
            now,
        ) {
            ReceiveView::Ready(_, chunks) => chunks,
            ReceiveView::Wait { .. } => Seq::empty(),
        },
        _ => Seq::empty(),
    }
}

/// All chunks that are taken in while these things happen: those for which the sender got `Ok`.
pub open spec fn all_taken_in(
    waiter: WaiterView,
    flush_trigger: nat,
    events: Seq<ChannelEvent>,
) -> Seq<Seq<SpanView>>
    decreases events.len(),
{
    if events.len() == 0 {
        Seq::empty()
    } else {
        let before = events.drop_last();
        all_taken_in(waiter, flush_trigger, before) + taken_in(
            after_events(waiter, flush_trigger, before),
            events.last(),
        )
    }
}

/// All chunks that the receiving side gets while these things happen.
pub open spec fn all_given_out(
    waiter: WaiterView,
    flush_trigger: nat,
    events: Seq<ChannelEvent>,
) -> Seq<Seq<SpanView>>
    decreases events.len(),
{
    if events.len() == 0 {
        Seq::empty()
    } else {
        let before = events.drop_last();
        all_given_out(waiter, flush_trigger, before) + given_out(
            after_events(waiter, flush_trigger, before),
            events.last(),
        )
    }
}

/// The receiving side gets what was taken in, whole, in order and once, however sending, asking and
/// receiving alternate: what it has got, followed by what still waits, is what waited at first,
/// followed by all that was taken in since.
pub proof fn law_spans_are_received_in_order(
    waiter: WaiterView,
    flush_trigger: nat,
    events: Seq<ChannelEvent>,
)
    ensures
        all_given_out(waiter, flush_trigger, events) + after_events(
            waiter,
            flush_trigger,
            events,
        ).state.batch.chunks == waiter.state.batch.chunks + all_taken_in(
            waiter,
            flush_trigger,
            events,
        ),
    decreases events.len(),
{
    let out = all_given_out(waiter, flush_trigger, events);
    let taken = all_taken_in(waiter, flush_trigger, events);
    let after = after_events(waiter, flush_trigger, events);
    let start = waiter.state.batch.chunks;
    if events.len() == 0 {
        assert(out + start =~= start + taken);
    } else {
        let init = events.drop_last();
        law_spans_are_received_in_order(waiter, flush_trigger, init);
        let before = after_events(waiter, flush_trigger, init);
        let new_out = given_out(before, events.last());
        let new_taken = taken_in(before, events.last());
        assert(new_out + after.state.batch.chunks =~= before.state.batch.chunks + new_taken);
        assert(out + after.state.batch.chunks =~= all_given_out(waiter, flush_trigger, init) + (
        new_out + after.state.batch.chunks));
        assert(out + after.state.batch.chunks =~= (all_given_out(waiter, flush_trigger, init)
            + before.state.batch.chunks) + new_taken);
        assert(out + after.state.batch.chunks =~= start + taken);
    }
}

/// Nothing is dropped as long as all that comes in fits into the batch.
pub proof fn law_nothing_is_dropped_below_the_limit(
    held: nat,
    max_spans: nat,
    chunks: Seq<Seq<SpanView>>,
)
    requires
        held + batch::total_spans(chunks) <= max_spans,
        forall|i: int| 0 <= i < chunks.len() ==> (#[trigger] chunks[i]).len() > 0,
    ensures
        kept_chunks(held, max_spans, chunks) == chunks,
    decreases chunks.len(),
{
    if chunks.len() > 0 {
        law_nothing_is_dropped_below_the_limit(held, max_spans, chunks.drop_last());
        assert(chunks.last() == chunks[chunks.len() - 1]);
        assert(chunks.drop_last().push(chunks.last()) =~= chunks);
    } else {
        assert(chunks =~= Seq::<Seq<SpanView>>::empty());
    }
}

/// Every span that comes in is counted once, as queued where it is taken and as dropped where it is
/// not, until the receiving side has stopped.
pub proof fn law_every_span_is_counted(
    waiter: WaiterView,
    flush_trigger: nat,
    chunk: Seq<SpanView>,
)
    ensures
        ({
            let after = channel::with_spans(waiter, flush_trigger, chunk);
            let result = channel::spans_result(waiter, chunk);
            &&& channel::sender_error(waiter) is None ==> counted_spans(after) == counted_spans(
                waiter,
            ) + chunk.len()
            &&& channel::sender_error(waiter) is None && result is Ok
                ==> after.state.metrics.spans_queued == waiter.state.metrics.spans_queued
                + chunk.len()
            &&& channel::sender_error(waiter) is None && result is Err
                ==> after.state.metrics.spans_dropped_full_buffer
                == waiter.state.metrics.spans_dropped_full_buffer + chunk.len()
            &&& channel::sender_error(waiter) is Some ==> counted_spans(after) == counted_spans(
                waiter,
            )
        }),
{
}

/// The metrics say what happened since they were last read, and start anew then.
pub proof fn law_metrics_are_read_once(waiter: WaiterView)
    ensures
        channel::queue_metrics_read(channel::after_metrics_read(waiter))
            == channel::no_queue_metrics(),
        !waiter.poisoned ==> channel::queue_metrics_read(waiter) == waiter.state.metrics,
{
}

/// Once the receiving side has stopped, everything that is handed over is refused with the same
/// error and changes nothing.
pub proof fn law_stopped_side_takes_nothing(
    waiter: WaiterView,
    flush_trigger: nat,
    chunk: Seq<SpanView>,
    resource: Resource,
)
    requires
        !waiter.poisoned,
    ensures
        ({
            let stopped = channel::with_shutdown_done(waiter);
            &&& channel::sender_error(stopped) == Some(SenderError::AlreadyShutdown)
            &&& channel::spans_result(stopped, chunk) == Err::<(), SenderError>(
                SenderError::AlreadyShutdown,
            )
            &&& channel::with_spans(stopped, flush_trigger, chunk) == stopped
            &&& channel::with_resource(stopped, resource) == stopped
            &&& channel::with_flush(stopped) == stopped
            &&& channel::with_shutdown(stopped) == stopped
        }),
{
}

/// Nothing makes the receiving side run again after it has stopped.
pub proof fn law_stopped_side_stays_stopped(
    waiter: WaiterView,
    flush_trigger: nat,
    chunk: Seq<SpanView>,
    resource: Resource,
    deadline: u128,
    timed_out: bool,
    now: u128,
)
    requires
        waiter.state.has_shutdown,
    ensures
        channel::with_spans(waiter, flush_trigger, chunk).state.has_shutdown,
        channel::with_resource(waiter, resource).state.has_shutdown,
        channel::with_flush(waiter).state.has_shutdown,
        channel::with_shutdown(waiter).state.has_shutdown,
        channel::after_woken(waiter, deadline, timed_out, now).state.has_shutdown,
        channel::with_shutdown_done(waiter).state.has_shutdown,
        channel::after_metrics_read(waiter).state.has_shutdown,
{
}

/// More spans than may wait are sent without waiting: in every state that can be reached, such spans
/// are to be sent.
pub proof fn law_enough_spans_are_sent(
    waiter: WaiterView,
    flush_trigger: nat,
    chunk: Seq<SpanView>,
    resource: Resource,
    deadline: u128,
    timed_out: bool,
    now: u128,
)
    requires
        sends_when_enough(waiter, flush_trigger),
    ensures
        sends_when_enough(channel::with_spans(waiter, flush_trigger, chunk), flush_trigger),
        sends_when_enough(channel::with_resource(waiter, resource), flush_trigger),
        sends_when_enough(channel::with_flush(waiter), flush_trigger),
        sends_when_enough(channel::with_shutdown(waiter), flush_trigger),
        sends_when_enough(channel::after_woken(waiter, deadline, timed_out, now), flush_trigger),
        sends_when_enough(channel::with_shutdown_done(waiter), flush_trigger),
        sends_when_enough(channel::after_metrics_read(waiter), flush_trigger),
{
}

/// No spans are to be sent before any came in.
pub proof fn law_fresh_state_sends_nothing(
    flush_trigger: nat,
    max_number_of_spans: nat,
    main_service: Seq<char>,
    now: u128,
)
    ensures
        ({
            let waiter = channel::fresh_waiter(max_number_of_spans, main_service, now);
            &&& sends_when_enough(waiter, flush_trigger)
            &&& channel::sender_error(waiter) is None
            &&& forall|timeout: u128|
                0 < timeout && now + timeout <= u128::MAX ==> #[trigger] channel::receive_step(
                    waiter,
                    timeout,
                    now,
                ) == (ReceiveView::Wait { left: timeout, deadline: (now + timeout) as u128 })
        }),
{
}

/// The receiving side waits exactly where no resource was set, nobody asked it to stop or to send,
/// and it is not time yet; and it waits until it is time.
pub proof fn law_spans_wait_for_a_reason(waiter: WaiterView, deadline: u128, now: u128)
    ensures
        channel::poll_step(waiter, deadline, now) is Wait <==> waiter.state.set_resource is None
            && !waiter.state.shutdown_needed && !waiter.state.flush_needed && now < deadline,
        channel::poll_step(waiter, deadline, now) matches ReceiveView::Wait { left, deadline: until }
            ==> now + left == deadline && until == deadline && channel::after_poll(
            waiter,
            deadline,
            now,
        ) == waiter,
{
}

/// Once asked to stop, the receiving side is told so with the spans that wait, and again with none
/// each time it asks.
pub proof fn law_shutdown_is_repeated(
    waiter: WaiterView,
    first_deadline: u128,
    first: u128,
    second_deadline: u128,
    second: u128,
)
    requires
        channel::sender_error(waiter) is None,
        waiter.state.set_resource is None,
    ensures
        ({
            let asked = channel::with_shutdown(waiter);
            let after = channel::after_poll(asked, first_deadline, first);
            &&& channel::poll_step(asked, first_deadline, first) == ReceiveView::Ready(
                TraceExporterMessage::Shutdown,
                waiter.state.batch.chunks,
            )
            &&& channel::poll_step(after, second_deadline, second) == ReceiveView::Ready(
                TraceExporterMessage::Shutdown,
                Seq::empty(),
            )
        }),
{
}

/// Of two resources that are set, the receiving side gets the last one, once, before anything else,
/// and the spans keep waiting.
pub proof fn law_last_resource_is_received(
    waiter: WaiterView,
    first: Resource,
    second: Resource,
    deadline: u128,
    now: u128,
)
    requires
        channel::sender_error(waiter) is None,
    ensures
        ({
            let set = channel::with_resource(channel::with_resource(waiter, first), second);
            let after = channel::after_poll(set, deadline, now);
            &&& channel::poll_step(set, deadline, now) == ReceiveView::Ready(
                TraceExporterMessage::SetResource { resource: second },
                Seq::empty(),
            )
            &&& after.state.set_resource is None
            &&& after.state.batch == waiter.state.batch
        }),
{
}

/// A flush that was asked for is given once.
pub proof fn law_flush_is_given_once(waiter: WaiterView, deadline: u128, now: u128)
    requires
        channel::sender_error(waiter) is None,
        waiter.state.set_resource is None,
        !waiter.state.shutdown_needed,
    ensures
        ({
            let asked = channel::with_flush(waiter);
            &&& channel::poll_step(asked, deadline, now) == ReceiveView::Ready(
                TraceExporterMessage::FlushTraceChunks,
                waiter.state.batch.chunks,
            )
            &&& !channel::after_poll(asked, deadline, now).state.flush_needed
        }),
{
}

/// Who waits for the receiving side to stop is told so once it has, when the wait begins and when it
/// goes on.
pub proof fn law_wait_ends_once_stopped(
    waiter: WaiterView,
    timeout: u128,
    deadline: u128,
    start: u128,
    now: u128,
)
    requires
        !waiter.poisoned,
        timeout > 0,
    ensures
        ({
            let stopped = channel::with_shutdown_done(waiter);
            &&& stopped.notify
            &&& channel::shutdown_wait_start(stopped, timeout, start) == ShutdownWait::Done(Ok(()))
            &&& channel::shutdown_wait_next(stopped, deadline, Wake::Notified, now)
                == ShutdownWait::Done(Ok(()))
        }),
{
}

} // verus!
