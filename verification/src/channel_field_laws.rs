//! What each call of the hand-over answers and changes, field by field.

use crate::channel::{
    self, ReceiveView, SenderError, ShutdownWait, TraceExporterMessage, Wake, WaiterView,
};
use crate::span::SpanView;
use opentelemetry_sdk::Resource;
use vstd::prelude::*;

verus! {

/// Whether the sending side can hand something over: the lock can be used and the other side runs.
pub open spec fn can_send(waiter: WaiterView) -> bool {
    !waiter.poisoned && !waiter.state.has_shutdown
}

/// Whether the batch of two states is the same but for the chunks and their number.
pub open spec fn same_limits(before: WaiterView, after: WaiterView) -> bool {
    &&& after.state.batch.max_buffered_spans == before.state.batch.max_buffered_spans
    &&& after.state.batch.main_service == before.state.batch.main_service
}

/// What the sending side is answered: that the lock is poisoned, where it is; that the other side has
/// stopped, where it has; and nothing wrong otherwise.
pub proof fn law_answer_of_the_sending_side(waiter: WaiterView)
    ensures
        ({
            let answer = channel::as_result(channel::sender_error(waiter));
            &&& waiter.poisoned ==> answer == Err::<(), SenderError>(SenderError::MutexPoisoned)
            &&& !waiter.poisoned && waiter.state.has_shutdown ==> answer == Err::<(), SenderError>(
                SenderError::AlreadyShutdown,
            )
            &&& can_send(waiter) ==> answer == Ok::<(), SenderError>(())
        }),
{
}

/// What the sending side is answered when it hands spans over: as for anything else where it can hand
/// over nothing; that the batch is full and all these spans are dropped, where more spans wait than
/// may; and nothing wrong otherwise.
pub proof fn law_answer_to_spans(waiter: WaiterView, chunk: Seq<SpanView>)
    requires
        chunk.len() <= usize::MAX,
    ensures
        ({
            let answer = channel::spans_result(waiter, chunk);
            let full = waiter.state.batch.span_count > waiter.state.batch.max_buffered_spans;
            &&& waiter.poisoned ==> answer == Err::<(), SenderError>(SenderError::MutexPoisoned)
            &&& !waiter.poisoned && waiter.state.has_shutdown ==> answer == Err::<(), SenderError>(
                SenderError::AlreadyShutdown,
            )
            &&& can_send(waiter) && full ==> {
                &&& answer matches Err(SenderError::BatchFull(dropped))
                &&& dropped.spans_dropped as nat == chunk.len()
            }
            &&& can_send(waiter) && !full ==> answer == Ok::<(), SenderError>(())
        }),
{
}

/// What spans that are handed over change. Nothing where nothing can be handed over. Where more spans
/// wait than may, they are counted as dropped and nothing else changes. Otherwise they wait after the
/// others, and are counted as queued; the other side is woken to take them where more spans wait then
/// than the number that triggers it.
pub proof fn law_spans_are_queued_or_dropped(
    waiter: WaiterView,
    flush_trigger: nat,
    chunk: Seq<SpanView>,
)
    ensures
        ({
            let after = channel::with_spans(waiter, flush_trigger, chunk);
            let full = waiter.state.batch.span_count > waiter.state.batch.max_buffered_spans;
            let count = waiter.state.batch.span_count + chunk.len();
            &&& !can_send(waiter) ==> after == waiter
            &&& after.poisoned == waiter.poisoned
            &&& after.state.has_shutdown == waiter.state.has_shutdown
            &&& after.state.shutdown_needed == waiter.state.shutdown_needed
            &&& after.state.set_resource == waiter.state.set_resource
            &&& same_limits(waiter, after)
            &&& after.state.batch.last_flush == waiter.state.batch.last_flush
            &&& can_send(waiter) && full ==> {
                &&& after.state.batch == waiter.state.batch
                &&& after.state.metrics.spans_dropped_full_buffer
                    == waiter.state.metrics.spans_dropped_full_buffer + chunk.len()
                &&& after.state.metrics.spans_queued == waiter.state.metrics.spans_queued
                &&& after.state.flush_needed == waiter.state.flush_needed
                &&& after.notify == waiter.notify
            }
            &&& can_send(waiter) && !full ==> {
                &&& after.state.batch.span_count == count
                &&& after.state.batch.chunks == if chunk.len() == 0 {
                    waiter.state.batch.chunks
                } else {
                    waiter.state.batch.chunks.push(chunk)
                }
                &&& after.state.metrics.spans_queued == waiter.state.metrics.spans_queued
                    + chunk.len()
                &&& after.state.metrics.spans_dropped_full_buffer
                    == waiter.state.metrics.spans_dropped_full_buffer
                &&& after.state.flush_needed == (waiter.state.flush_needed || count > flush_trigger)
                &&& after.notify == (waiter.notify || count > flush_trigger)
            }
        }),
{
}

/// Asking for something: where something can be handed over, a resource, a flush or a stop is noted in
/// its own field and the other side is woken; every other field stays. Nothing changes otherwise.
pub proof fn law_requests_are_noted(waiter: WaiterView, resource: Resource)
    ensures
        ({
            let set = channel::with_resource(waiter, resource);
            let flush = channel::with_flush(waiter);
            let stop = channel::with_shutdown(waiter);
            &&& !can_send(waiter) ==> set == waiter && flush == waiter && stop == waiter
            &&& can_send(waiter) ==> {
                &&& set.notify && flush.notify && stop.notify
                &&& !set.poisoned && !flush.poisoned && !stop.poisoned
                &&& !set.state.has_shutdown && !flush.state.has_shutdown && !stop.state.has_shutdown
                &&& set.state.batch == waiter.state.batch
                &&& flush.state.batch == waiter.state.batch
                &&& stop.state.batch == waiter.state.batch
                &&& set.state.metrics == waiter.state.metrics
                &&& flush.state.metrics == waiter.state.metrics
                &&& stop.state.metrics == waiter.state.metrics
                &&& set.state.set_resource == Some(resource)
                &&& flush.state.set_resource == waiter.state.set_resource
                &&& stop.state.set_resource == waiter.state.set_resource
                &&& set.state.flush_needed == waiter.state.flush_needed
                &&& flush.state.flush_needed
                &&& stop.state.flush_needed == waiter.state.flush_needed
                &&& set.state.shutdown_needed == waiter.state.shutdown_needed
                &&& flush.state.shutdown_needed == waiter.state.shutdown_needed
                &&& stop.state.shutdown_needed
            }
        }),
{
}

/// What the receiving side is told when it looks: the resource that was set, before anything else and
/// without spans; then that it is to stop; then that it is to send; then, from the deadline on, that
/// time has passed; each of these with all the spans that wait. Otherwise it waits for the rest of
/// the time.
pub proof fn law_what_is_received(waiter: WaiterView, deadline: u128, now: u128)
    ensures
        ({
            let state = waiter.state;
            let step = channel::poll_step(waiter, deadline, now);
            &&& state.set_resource matches Some(resource) ==> {
                &&& step matches ReceiveView::Ready(
                    TraceExporterMessage::SetResource { resource: told },
                    chunks,
                )
                &&& told == resource
                &&& chunks.len() == 0
            }
            &&& state.set_resource is None && state.shutdown_needed ==> {
                &&& step matches ReceiveView::Ready(TraceExporterMessage::Shutdown, chunks)
                &&& chunks == state.batch.chunks
            }
            &&& state.set_resource is None && !state.shutdown_needed && state.flush_needed ==> {
                &&& step matches ReceiveView::Ready(TraceExporterMessage::FlushTraceChunks, chunks)
                &&& chunks == state.batch.chunks
            }
            &&& state.set_resource is None && !state.shutdown_needed && !state.flush_needed && now
                >= deadline ==> {
                &&& step matches ReceiveView::Ready(
                    TraceExporterMessage::FlushTraceChunksWithTimeout,
                    chunks,
                )
                &&& chunks == state.batch.chunks
            }
            &&& state.set_resource is None && !state.shutdown_needed && !state.flush_needed && now
                < deadline ==> {
                &&& step matches ReceiveView::Wait { left, deadline: until }
                &&& left as int == deadline - now
                &&& until == deadline
            }
        }),
{
}

/// What a look of the receiving side changes: a resource that it is told of is no longer set, and a
/// flush that it is told of is no longer asked for. The spans that it gets no longer wait and the
/// time is noted. A stop that was asked for stays asked for, the numbers stay, and nobody is woken.
pub proof fn law_what_receiving_changes(waiter: WaiterView, deadline: u128, now: u128)
    ensures
        ({
            let state = waiter.state;
            let after = channel::after_poll(waiter, deadline, now);
            let told_resource = state.set_resource is Some;
            let told_flush = !told_resource && !state.shutdown_needed && state.flush_needed;
            let taken = !told_resource && (state.shutdown_needed || state.flush_needed || now
                >= deadline);
            &&& after.poisoned == waiter.poisoned
            &&& after.notify == waiter.notify
            &&& after.state.has_shutdown == state.has_shutdown
            &&& after.state.shutdown_needed == state.shutdown_needed
            &&& after.state.metrics == state.metrics
            &&& after.state.set_resource is None
            &&& after.state.flush_needed == (state.flush_needed && !told_flush)
            &&& same_limits(waiter, after)
            &&& after.state.batch.extra_services == state.batch.extra_services
            &&& taken ==> {
                &&& after.state.batch.chunks.len() == 0
                &&& after.state.batch.span_count == 0
                &&& after.state.batch.last_flush == now
            }
            &&& !taken ==> after.state.batch == state.batch
        }),
{
}

/// The receiving side looks with a deadline that is the timeout after spans were last taken. Where the
/// lock is poisoned it changes nothing.
pub proof fn law_deadline_of_receiving(waiter: WaiterView, timeout: u128, now: u128, deadline: u128)
    requires
        waiter.state.batch.last_flush + timeout == deadline,
    ensures
        channel::receive_step(waiter, timeout, now) == channel::poll_step(waiter, deadline, now),
        waiter.poisoned ==> channel::after_receive(waiter, timeout, now) == waiter,
        !waiter.poisoned ==> channel::after_receive(waiter, timeout, now) == channel::after_poll(
            waiter,
            deadline,
            now,
        ),
        channel::receive_step(waiter, timeout, now) is Wait <==> waiter.state.set_resource is None
            && !waiter.state.shutdown_needed && !waiter.state.flush_needed && now
            < waiter.state.batch.last_flush + timeout,
{
}

/// Where the time of a wait was over, the receiving side takes all the spans that wait, whatever was
/// asked for meanwhile, and that stays asked for. Where it was woken, it looks again.
pub proof fn law_after_a_wait(waiter: WaiterView, deadline: u128, now: u128)
    ensures
        ({
            let after = channel::after_woken(waiter, deadline, true, now);
            &&& channel::woken_step(waiter, deadline, true, now) matches ReceiveView::Ready(
                TraceExporterMessage::FlushTraceChunksWithTimeout,
                chunks,
            )
            &&& chunks == waiter.state.batch.chunks
            &&& after.state.batch.chunks.len() == 0
            &&& after.state.batch.span_count == 0
            &&& after.state.batch.last_flush == now
            &&& after.state.batch.extra_services == waiter.state.batch.extra_services
            &&& same_limits(waiter, after)
            &&& after.state.flush_needed == waiter.state.flush_needed
            &&& after.state.shutdown_needed == waiter.state.shutdown_needed
            &&& after.state.has_shutdown == waiter.state.has_shutdown
            &&& after.state.set_resource == waiter.state.set_resource
            &&& after.state.metrics == waiter.state.metrics
            &&& after.poisoned == waiter.poisoned
            &&& after.notify == waiter.notify
        }),
        channel::woken_step(waiter, deadline, false, now) == channel::poll_step(
            waiter,
            deadline,
            now,
        ),
        channel::after_woken(waiter, deadline, false, now) == channel::after_poll(
            waiter,
            deadline,
            now,
        ),
{
}

/// The receiving side that has stopped says so and wakes who waits for that, and changes nothing else;
/// nothing at all where the lock is poisoned.
pub proof fn law_stop_is_told(waiter: WaiterView)
    ensures
        ({
            let after = channel::with_shutdown_done(waiter);
            &&& waiter.poisoned ==> after == waiter
            &&& !waiter.poisoned ==> {
                &&& after.state.has_shutdown
                &&& after.notify
                &&& !after.poisoned
                &&& after.state.batch == waiter.state.batch
                &&& after.state.metrics == waiter.state.metrics
                &&& after.state.set_resource == waiter.state.set_resource
                &&& after.state.flush_needed == waiter.state.flush_needed
                &&& after.state.shutdown_needed == waiter.state.shutdown_needed
            }
        }),
{
}

/// How a wait for the receiving side begins: it is over at once where no time is given, where the lock
/// is poisoned and where the other side has stopped; otherwise it lasts as long as was given.
pub proof fn law_how_a_wait_begins(waiter: WaiterView, timeout: u128, now: u128)
    requires
        now + timeout <= u128::MAX,
    ensures
        ({
            let step = channel::shutdown_wait_start(waiter, timeout, now);
            &&& timeout == 0 ==> step == ShutdownWait::Done(Err(SenderError::TimedOut))
            &&& timeout > 0 && waiter.poisoned ==> step == ShutdownWait::Done(
                Err(SenderError::MutexPoisoned),
            )
            &&& timeout > 0 && !waiter.poisoned && waiter.state.has_shutdown ==> step
                == ShutdownWait::Done(Ok(()))
            &&& timeout > 0 && can_send(waiter) ==> {
                &&& step matches ShutdownWait::Wait { left, deadline }
                &&& left == timeout
                &&& deadline == now + timeout
            }
        }),
{
}

/// How a wait for the receiving side goes on: a poisoned lock and the end of the time end it with an
/// error; woken, it ends well where the other side has stopped, and otherwise lasts until the same
/// deadline.
pub proof fn law_how_a_wait_goes_on(waiter: WaiterView, deadline: u128, now: u128)
    ensures
        channel::shutdown_wait_next(waiter, deadline, Wake::Poisoned, now) == ShutdownWait::Done(
            Err(SenderError::MutexPoisoned),
        ),
        channel::shutdown_wait_next(waiter, deadline, Wake::TimedOut, now) == ShutdownWait::Done(
            Err(SenderError::TimedOut),
        ),
        ({
            let step = channel::shutdown_wait_next(waiter, deadline, Wake::Notified, now);
            &&& waiter.state.has_shutdown ==> step == ShutdownWait::Done(Ok(()))
            &&& !waiter.state.has_shutdown ==> {
                &&& step matches ShutdownWait::Wait { left, deadline: until }
                &&& until == deadline
                &&& now <= deadline ==> now + left == deadline
                &&& now > deadline ==> left == 0
            }
        }),
{
}

/// The numbers that are read are those that were counted, and are zero then; nothing else changes.
/// Where the lock is poisoned zeros are read and nothing changes.
pub proof fn law_numbers_are_read(waiter: WaiterView)
    ensures
        ({
            let read = channel::queue_metrics_read(waiter);
            let after = channel::after_metrics_read(waiter);
            &&& waiter.poisoned ==> {
                &&& read.spans_queued == 0
                &&& read.spans_dropped_full_buffer == 0
                &&& after == waiter
            }
            &&& !waiter.poisoned ==> {
                &&& read.spans_queued == waiter.state.metrics.spans_queued
                &&& read.spans_dropped_full_buffer
                    == waiter.state.metrics.spans_dropped_full_buffer
                &&& after.state.metrics.spans_queued == 0
                &&& after.state.metrics.spans_dropped_full_buffer == 0
                &&& after.state.batch == waiter.state.batch
                &&& after.state.set_resource == waiter.state.set_resource
                &&& after.state.flush_needed == waiter.state.flush_needed
                &&& after.state.shutdown_needed == waiter.state.shutdown_needed
                &&& after.state.has_shutdown == waiter.state.has_shutdown
                &&& after.notify == waiter.notify
                &&& !after.poisoned
            }
        }),
{
}

/// Before anything was handed over no span waits, nothing was asked for or counted, and the limit, the
/// name of the service and the time are those that were given.
pub proof fn law_fresh_state(max_spans: nat, main_service: Seq<char>, now: u128)
    ensures
        ({
            let waiter = channel::fresh_waiter(max_spans, main_service, now);
            &&& waiter.state.batch.chunks.len() == 0
            &&& waiter.state.batch.span_count == 0
            &&& waiter.state.batch.extra_services.len() == 0
            &&& waiter.state.batch.last_flush == now
            &&& waiter.state.batch.max_buffered_spans == max_spans
            &&& waiter.state.batch.main_service == main_service
            &&& waiter.state.metrics.spans_queued == 0
            &&& waiter.state.metrics.spans_dropped_full_buffer == 0
            &&& waiter.state.set_resource is None
            &&& !waiter.state.flush_needed
            &&& !waiter.state.shutdown_needed
            &&& !waiter.state.has_shutdown
            &&& !waiter.poisoned
            &&& !waiter.notify
        }),
{
}

/// There is room for spans where they change no number, and otherwise where each number that they
/// change fits in a machine word then.
pub proof fn law_when_there_is_room(waiter: WaiterView, spans: nat)
    ensures
        ({
            let state = waiter.state;
            let full = state.batch.span_count > state.batch.max_buffered_spans;
            &&& !can_send(waiter) ==> channel::has_room(waiter, spans)
            &&& can_send(waiter) && full ==> (channel::has_room(waiter, spans)
                <==> state.metrics.spans_dropped_full_buffer + spans <= usize::MAX)
            &&& can_send(waiter) && !full ==> (channel::has_room(waiter, spans)
                <==> state.batch.span_count + spans <= usize::MAX && state.metrics.spans_queued
                + spans <= usize::MAX)
        }),
{
}

} // verus!
