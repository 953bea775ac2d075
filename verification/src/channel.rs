//! The hand-over of spans from the threads that record them to the one that sends them.
//!
//! Both sides share a [`Waiter`], which is guarded by a lock. Whoever holds the lock calls the
//! operations here, wakes the waiting threads where the operation says so, and waits where it says
//! so. Times are in nanoseconds.

use crate::batch::{self, Batch, BatchFullError, BatchView, TraceChunk};
use crate::config::Config;
use crate::span::{self, FinishedSpan, SpanView};
use opentelemetry_sdk::Resource;
use std::sync::Arc;
use vstd::prelude::*;

verus! {

/// What happened to the spans that came in since these numbers were last asked for.
#[derive(Debug, PartialEq, Eq)]
pub struct QueueMetrics {
    pub spans_dropped_full_buffer: usize,
    pub spans_queued: usize,
}

/// What a [`QueueMetrics`] holds.
pub struct QueueMetricsView {
    pub spans_dropped_full_buffer: nat,
    pub spans_queued: nat,
}

impl View for QueueMetrics {
    type V = QueueMetricsView;

    open spec fn view(&self) -> QueueMetricsView {
        QueueMetricsView {
            spans_dropped_full_buffer: self.spans_dropped_full_buffer as nat,
            spans_queued: self.spans_queued as nat,
        }
    }
}

/// Nothing happened.
pub open spec fn no_queue_metrics() -> QueueMetricsView {
    QueueMetricsView { spans_dropped_full_buffer: 0, spans_queued: 0 }
}

impl Default for QueueMetrics {
    fn default() -> (metrics: Self)
        ensures
            metrics@ == no_queue_metrics(),
    {
        QueueMetrics { spans_dropped_full_buffer: 0, spans_queued: 0 }
    }
}

/// Why nothing was handed over.
#[derive(Debug, Clone, Copy, PartialEq, Eq)]
pub enum SenderError {
    /// The receiving side has stopped.
    AlreadyShutdown,
    /// The receiving side did not stop in time.
    TimedOut,
    /// A thread panicked while it held the lock.
    MutexPoisoned,
    /// Too many spans wait.
    BatchFull(BatchFullError),
}

/// A thread panicked while it held the lock. Nothing is left but to stop.
#[derive(Debug, Clone, Copy, PartialEq, Eq)]
pub struct MutexPoisonedError;

/// What the receiving side is told.
#[derive(Debug, PartialEq)]
pub enum TraceExporterMessage {
    /// Spans are to be sent.
    FlushTraceChunks,
    /// Spans are to be sent, because time has passed.
    FlushTraceChunksWithTimeout,
    /// The resource that describes the service has changed.
    SetResource { resource: Resource },
    /// The last spans are to be sent.
    Shutdown,
}

/// What both sides share.
#[derive(Debug)]
pub struct SharedState {
    pub flush_needed: bool,
    pub shutdown_needed: bool,
    pub has_shutdown: bool,
    pub batch: Batch,
    pub set_resource: Option<Resource>,
    pub metrics: QueueMetrics,
}

/// What a [`SharedState`] holds.
pub struct StateView {
    pub flush_needed: bool,
    pub shutdown_needed: bool,
    pub has_shutdown: bool,
    pub batch: BatchView,
    pub set_resource: Option<Resource>,
    pub metrics: QueueMetricsView,
}

impl View for SharedState {
    type V = StateView;

    open spec fn view(&self) -> StateView {
        StateView {
            flush_needed: self.flush_needed,
            shutdown_needed: self.shutdown_needed,
            has_shutdown: self.has_shutdown,
            batch: self.batch@,
            set_resource: self.set_resource,
            metrics: self.metrics@,
        }
    }
}

/// What both sides share, with what is known of its lock.
#[derive(Debug)]
pub struct Waiter {
    pub state: SharedState,
    /// Whether a thread panicked while it held the lock. Set by whoever takes the lock.
    pub poisoned: bool,
    /// Whether the waiting threads are to be woken once the lock is released. Cleared by whoever
    /// wakes them.
    pub notify: bool,
}

/// What a [`Waiter`] holds.
pub struct WaiterView {
    pub state: StateView,
    pub poisoned: bool,
    pub notify: bool,
}

impl View for Waiter {
    type V = WaiterView;

    open spec fn view(&self) -> WaiterView {
        WaiterView { state: self.state@, poisoned: self.poisoned, notify: self.notify }
    }
}

impl Waiter {
    /// The shared state is as it should be.
    pub open spec fn wf(self) -> bool {
        batch::batch_wf(self@.state.batch)
    }

    /// Whether the numbers that change when so many spans come in do not overflow.
    pub fn has_room(&self, spans: usize) -> (room: bool)
        ensures
            room == has_room(self@, spans as nat),
    {
        if self.poisoned || self.state.has_shutdown {
            true
        } else if self.state.batch.is_full() {
            spans <= usize::MAX - self.state.metrics.spans_dropped_full_buffer
        } else {
            spans <= usize::MAX - self.state.batch.span_count() && spans <= usize::MAX
                - self.state.metrics.spans_queued
        }
    }

    /// Has the waiting threads woken.
    fn notify_all(&mut self)
        ensures
            final(self)@ == notified(old(self)@),
    {
        self.notify = true;
    }
}

/// The waiting threads are woken.
pub open spec fn notified(waiter: WaiterView) -> WaiterView {
    WaiterView { notify: true, ..waiter }
}

/// Why the sending side can do nothing, if it cannot.
pub open spec fn sender_error(waiter: WaiterView) -> Option<SenderError> {
    if waiter.poisoned {
        Some(SenderError::MutexPoisoned)
    } else if waiter.state.has_shutdown {
        Some(SenderError::AlreadyShutdown)
    } else {
        None
    }
}

/// The result that tells of an error, or of none.
pub open spec fn as_result(error: Option<SenderError>) -> Result<(), SenderError> {
    match error {
        Some(error) => Err(error),
        None => Ok(()),
    }
}

/// The state after spans came in. They are queued, or dropped where too many wait; where enough wait
/// then, they are to be sent.
pub open spec fn with_spans(
    waiter: WaiterView,
    flush_trigger: nat,
    chunk: Seq<SpanView>,
) -> WaiterView {
    let state = waiter.state;
    if sender_error(waiter) is Some {
        waiter
    } else if batch::is_full(state.batch) {
        WaiterView {
            state: StateView {
                metrics: QueueMetricsView {
                    spans_dropped_full_buffer: state.metrics.spans_dropped_full_buffer
                        + chunk.len(),
                    ..state.metrics
                },
                ..state
            },
            ..waiter
        }
    } else {
        let batch = batch::with_chunk(state.batch, chunk);
        let enough = batch.span_count > flush_trigger;
        WaiterView {
            state: StateView {
                batch,
                metrics: QueueMetricsView {
                    spans_queued: state.metrics.spans_queued + chunk.len(),
                    ..state.metrics
                },
                flush_needed: state.flush_needed || enough,
                ..state
            },
            notify: waiter.notify || enough,
            ..waiter
        }
    }
}

/// The numbers that change when so many spans come in do not overflow.
pub open spec fn has_room(waiter: WaiterView, spans: nat) -> bool {
    let state = waiter.state;
    ||| sender_error(waiter) is Some
    ||| batch::is_full(state.batch) && state.metrics.spans_dropped_full_buffer + spans
        <= usize::MAX
    ||| !batch::is_full(state.batch) && state.batch.span_count + spans <= usize::MAX
        && state.metrics.spans_queued + spans <= usize::MAX
}

/// What is answered when spans come in.
pub open spec fn spans_result(waiter: WaiterView, chunk: Seq<SpanView>) -> Result<
    (),
    SenderError,
> {
    match sender_error(waiter) {
        Some(error) => Err(error),
        None => if batch::is_full(waiter.state.batch) {
            Err(SenderError::BatchFull(BatchFullError { spans_dropped: chunk.len() as usize }))
        } else {
            Ok(())
        },
    }
}

/// The state after a resource was set.
pub open spec fn with_resource(waiter: WaiterView, resource: Resource) -> WaiterView {
    if sender_error(waiter) is Some {
        waiter
    } else {
        notified(
            WaiterView {
                state: StateView { set_resource: Some(resource), ..waiter.state },
                ..waiter
            },
        )
    }
}

/// The state after spans were asked to be sent.
pub open spec fn with_flush(waiter: WaiterView) -> WaiterView {
    if sender_error(waiter) is Some {
        waiter
    } else {
        notified(
            WaiterView { state: StateView { flush_needed: true, ..waiter.state }, ..waiter },
        )
    }
}

/// The state after the receiving side was asked to stop.
pub open spec fn with_shutdown(waiter: WaiterView) -> WaiterView {
    if sender_error(waiter) is Some {
        waiter
    } else {
        notified(
            WaiterView { state: StateView { shutdown_needed: true, ..waiter.state }, ..waiter },
        )
    }
}

/// The side that hands spans over.
#[derive(Debug)]
pub struct Sender {
    flush_trigger_number_of_spans: usize,
}

/// How many spans may wait before they are sent.
pub closed spec fn flush_trigger(sender: Sender) -> nat {
    sender.flush_trigger_number_of_spans as nat
}

/// What a thread does that waits for the receiving side to stop.
#[derive(Debug, Clone, Copy, PartialEq, Eq)]
pub enum ShutdownWait {
    /// It waits for as long as is left, and goes on with the same deadline.
    Wait { left: u128, deadline: u128 },
    /// The wait is over.
    Done(Result<(), SenderError>),
}

/// How a wait ended.
#[derive(Debug, Clone, Copy, PartialEq, Eq)]
pub enum Wake {
    /// Another thread has woken this one.
    Notified,
    /// The time was over.
    TimedOut,
    /// A thread panicked while it held the lock.
    Poisoned,
}

/// How a wait for the receiving side begins at `now`.
pub open spec fn shutdown_wait_start(
    waiter: WaiterView,
    timeout: u128,
    now: u128,
) -> ShutdownWait {
    if timeout == 0 {
        ShutdownWait::Done(Err(SenderError::TimedOut))
    } else if waiter.poisoned {
        ShutdownWait::Done(Err(SenderError::MutexPoisoned))
    } else if waiter.state.has_shutdown {
        ShutdownWait::Done(Ok(()))
    } else {
        ShutdownWait::Wait { left: timeout, deadline: (now + timeout) as u128 }
    }
}

/// How a wait for the receiving side goes on after the thread was woken at `now`.
pub open spec fn shutdown_wait_next(
    waiter: WaiterView,
    deadline: u128,
    wake: Wake,
    now: u128,
) -> ShutdownWait {
    match wake {
        Wake::Poisoned => ShutdownWait::Done(Err(SenderError::MutexPoisoned)),
        Wake::TimedOut => ShutdownWait::Done(Err(SenderError::TimedOut)),
        Wake::Notified => if waiter.state.has_shutdown {
            ShutdownWait::Done(Ok(()))
        } else {
            ShutdownWait::Wait {
                left: if deadline <= now {
                    0
                } else {
                    (deadline - now) as u128
                },
                deadline,
            }
        },
    }
}

impl Sender {
    /// Whether the lock can be used.
    fn get_state(&self, waiter: &Waiter) -> (result: Result<(), SenderError>)
        ensures
            result == if waiter@.poisoned {
                Err(SenderError::MutexPoisoned)
            } else {
                Ok(())
            },
    {
        if waiter.poisoned {
            Err(SenderError::MutexPoisoned)
        } else {
            Ok(())
        }
    }

    /// Whether the receiving side still takes something.
    fn get_running_state(&self, waiter: &Waiter) -> (result: Result<(), SenderError>)
        ensures
            result == as_result(sender_error(waiter@)),
    {
        match self.get_state(waiter) {
            Err(error) => Err(error),
            Ok(_) => if waiter.state.has_shutdown {
                Err(SenderError::AlreadyShutdown)
            } else {
                Ok(())
            },
        }
    }

    /// Hands spans over.
    pub fn add_trace_chunk(&self, waiter: &mut Waiter, chunk: Vec<FinishedSpan>) -> (result: Result<
        (),
        SenderError,
    >)
        requires
            has_room(old(waiter)@, chunk@.len()),
        ensures
            final(waiter)@ == with_spans(
                old(waiter)@,
                flush_trigger(*self),
                span::spans_view(chunk@),
            ),
            old(waiter).wf() ==> final(waiter).wf(),
            result == spans_result(old(waiter)@, span::spans_view(chunk@)),
    {
        match self.get_running_state(waiter) {
            Err(error) => {
                return Err(error);
            },
            Ok(_) => {},
        }
        let chunk_len = chunk.len();
        match waiter.state.batch.add_trace_chunk(chunk) {
            Err(error) => {
                waiter.state.metrics.spans_dropped_full_buffer =
                waiter.state.metrics.spans_dropped_full_buffer + error.spans_dropped;
                return Err(SenderError::BatchFull(error));
            },
            Ok(_) => {},
        }
        waiter.state.metrics.spans_queued = waiter.state.metrics.spans_queued + chunk_len;
        if waiter.state.batch.span_count() > self.flush_trigger_number_of_spans {
            waiter.state.flush_needed = true;
            waiter.notify_all();
        }
        Ok(())
    }

    /// Sets the resource that describes the service in what is sent next.
    pub fn set_resource(&self, waiter: &mut Waiter, resource: Resource) -> (result: Result<
        (),
        SenderError,
    >)
        ensures
            final(waiter)@ == with_resource(old(waiter)@, resource),
            old(waiter).wf() ==> final(waiter).wf(),
            result == as_result(sender_error(old(waiter)@)),
    {
        match self.get_running_state(waiter) {
            Err(error) => Err(error),
            Ok(_) => {
                waiter.state.set_resource = Some(resource);
                waiter.notify_all();
                Ok(())
            },
        }
    }

    /// Asks for the spans to be sent now.
    pub fn trigger_flush(&self, waiter: &mut Waiter) -> (result: Result<(), SenderError>)
        ensures
            final(waiter)@ == with_flush(old(waiter)@),
            old(waiter).wf() ==> final(waiter).wf(),
            result == as_result(sender_error(old(waiter)@)),
    {
        match self.get_running_state(waiter) {
            Err(error) => Err(error),
            Ok(_) => {
                waiter.state.flush_needed = true;
                waiter.notify_all();
                Ok(())
            },
        }
    }

    /// Asks the receiving side to stop.
    pub fn trigger_shutdown(&self, waiter: &mut Waiter) -> (result: Result<(), SenderError>)
        ensures
            final(waiter)@ == with_shutdown(old(waiter)@),
            old(waiter).wf() ==> final(waiter).wf(),
            result == as_result(sender_error(old(waiter)@)),
    {
        match self.get_running_state(waiter) {
            Err(error) => Err(error),
            Ok(_) => {
                waiter.state.shutdown_needed = true;
                waiter.notify_all();
                Ok(())
            },
        }
    }

    /// Begins at `now` to wait for the receiving side to stop.
    pub fn wait_shutdown_done(&self, waiter: &Waiter, timeout: u128, now: u128) -> (step:
        ShutdownWait)
        requires
            timeout == 0 || waiter@.poisoned || now + timeout <= u128::MAX,
        ensures
            step == shutdown_wait_start(waiter@, timeout, now),
    {
        if timeout == 0 {
            return ShutdownWait::Done(Err(SenderError::TimedOut));
        }
        match self.get_state(waiter) {
            Err(error) => ShutdownWait::Done(Err(error)),
            Ok(_) => {
                let deadline = now + timeout;
                if waiter.state.has_shutdown {
                    ShutdownWait::Done(Ok(()))
                } else {
                    ShutdownWait::Wait { left: timeout, deadline }
                }
            },
        }
    }

    /// Goes on with waiting after the thread was woken at `now`.
    pub fn wait_shutdown_woken(
        &self,
        waiter: &Waiter,
        deadline: u128,
        wake: Wake,
        now: u128,
    ) -> (step: ShutdownWait)
        ensures
            step == shutdown_wait_next(waiter@, deadline, wake, now),
    {
        match wake {
            Wake::Poisoned => ShutdownWait::Done(Err(SenderError::MutexPoisoned)),
            Wake::TimedOut => ShutdownWait::Done(Err(SenderError::TimedOut)),
            Wake::Notified => if waiter.state.has_shutdown {
                ShutdownWait::Done(Ok(()))
            } else {
                ShutdownWait::Wait { left: deadline.saturating_sub(now), deadline }
            },
        }
    }
}

/// The side that takes spans over.
#[derive(Debug)]
pub struct Receiver;

/// What the receiving side does next.
#[derive(Debug)]
pub enum ReceiveStep {
    /// It got a message, and the spans that go with it.
    Ready(TraceExporterMessage, Vec<TraceChunk>),
    /// It waits for as long as is left, and goes on with the same deadline.
    Wait { left: u128, deadline: u128 },
}

/// What a [`ReceiveStep`] says.
pub enum ReceiveView {
    Ready(TraceExporterMessage, Seq<Seq<SpanView>>),
    Wait { left: u128, deadline: u128 },
}

impl View for ReceiveStep {
    type V = ReceiveView;

    open spec fn view(&self) -> ReceiveView {
        match self {
            ReceiveStep::Ready(message, chunks) => ReceiveView::Ready(
                *message,
                batch::chunks_view(chunks@),
            ),
            ReceiveStep::Wait { left, deadline } => ReceiveView::Wait {
                left: *left,
                deadline: *deadline,
            },
        }
    }
}

/// The state after all spans were taken over at `now`.
pub open spec fn with_batch_taken(waiter: WaiterView, now: u128) -> WaiterView {
    WaiterView {
        state: StateView {
            batch: batch::emptied(waiter.state.batch, now),
            ..waiter.state
        },
        ..waiter
    }
}

/// What the receiving side does at `now`: it takes a resource that was set before anything else, then
/// stops if it was asked to, then takes the spans if it was asked to or if it is time, and waits
/// otherwise.
pub open spec fn poll_step(waiter: WaiterView, deadline: u128, now: u128) -> ReceiveView {
    match waiter.state.set_resource {
        Some(resource) => ReceiveView::Ready(
            TraceExporterMessage::SetResource { resource },
            Seq::empty(),
        ),
        None => if waiter.state.shutdown_needed {
            ReceiveView::Ready(TraceExporterMessage::Shutdown, waiter.state.batch.chunks)
        } else if waiter.state.flush_needed {
            ReceiveView::Ready(TraceExporterMessage::FlushTraceChunks, waiter.state.batch.chunks)
        } else if deadline <= now {
            ReceiveView::Ready(
                TraceExporterMessage::FlushTraceChunksWithTimeout,
                waiter.state.batch.chunks,
            )
        } else {
            ReceiveView::Wait { left: (deadline - now) as u128, deadline }
        },
    }
}

/// The state after the receiving side has looked at `now`.
pub open spec fn after_poll(waiter: WaiterView, deadline: u128, now: u128) -> WaiterView {
    if waiter.state.set_resource is Some {
        WaiterView { state: StateView { set_resource: None, ..waiter.state }, ..waiter }
    } else if waiter.state.shutdown_needed {
        with_batch_taken(waiter, now)
    } else if waiter.state.flush_needed {
        with_batch_taken(
            WaiterView { state: StateView { flush_needed: false, ..waiter.state }, ..waiter },
            now,
        )
    } else if deadline <= now {
        with_batch_taken(waiter, now)
    } else {
        waiter
    }
}

/// What the receiving side does first when it begins at `now`.
pub open spec fn receive_step(waiter: WaiterView, timeout: u128, now: u128) -> ReceiveView {
    poll_step(waiter, (waiter.state.batch.last_flush + timeout) as u128, now)
}

/// The state after the receiving side has begun at `now`.
pub open spec fn after_receive(waiter: WaiterView, timeout: u128, now: u128) -> WaiterView {
    if waiter.poisoned {
        waiter
    } else {
        after_poll(waiter, (waiter.state.batch.last_flush + timeout) as u128, now)
    }
}

/// What the receiving side does after it has waited.
pub open spec fn woken_step(
    waiter: WaiterView,
    deadline: u128,
    timed_out: bool,
    now: u128,
) -> ReceiveView {
    if timed_out {
        ReceiveView::Ready(
            TraceExporterMessage::FlushTraceChunksWithTimeout,
            waiter.state.batch.chunks,
        )
    } else {
        poll_step(waiter, deadline, now)
    }
}

/// The state after the receiving side has waited.
pub open spec fn after_woken(
    waiter: WaiterView,
    deadline: u128,
    timed_out: bool,
    now: u128,
) -> WaiterView {
    if timed_out {
        with_batch_taken(waiter, now)
    } else {
        after_poll(waiter, deadline, now)
    }
}

/// The state after the receiving side has stopped.
pub open spec fn with_shutdown_done(waiter: WaiterView) -> WaiterView {
    if waiter.poisoned {
        waiter
    } else {
        notified(
            WaiterView { state: StateView { has_shutdown: true, ..waiter.state }, ..waiter },
        )
    }
}

impl Receiver {
    /// Tells that this side has stopped.
    pub fn shutdown_done(&self, waiter: &mut Waiter) -> (result: Result<(), MutexPoisonedError>)
        ensures
            final(waiter)@ == with_shutdown_done(old(waiter)@),
            old(waiter).wf() ==> final(waiter).wf(),
            result == if old(waiter)@.poisoned {
                Err(MutexPoisonedError)
            } else {
                Ok(())
            },
    {
        if waiter.poisoned {
            return Err(MutexPoisonedError);
        }
        waiter.state.has_shutdown = true;
        waiter.notify_all();
        Ok(())
    }

    /// Begins at `now` to take something over. This side waits until the timeout has passed since
    /// spans were last taken.
    pub fn receive(&self, waiter: &mut Waiter, timeout: u128, now: u128) -> (result: Result<
        ReceiveStep,
        MutexPoisonedError,
    >)
        requires
            old(waiter)@.poisoned || old(waiter)@.state.batch.last_flush + timeout <= u128::MAX,
        ensures
            final(waiter)@ == after_receive(old(waiter)@, timeout, now),
            old(waiter).wf() ==> final(waiter).wf(),
            old(waiter)@.poisoned <==> result is Err,
            result matches Ok(step) ==> step@ == receive_step(old(waiter)@, timeout, now),
    {
        if waiter.poisoned {
            return Err(MutexPoisonedError);
        }
        let deadline = waiter.state.batch.last_flush() + timeout;
        Ok(self.poll(waiter, deadline, now))
    }

    /// Looks at `now` whether there is something to take over.
    fn poll(&self, waiter: &mut Waiter, deadline: u128, now: u128) -> (step: ReceiveStep)
        ensures
            final(waiter)@ == after_poll(old(waiter)@, deadline, now),
            old(waiter).wf() ==> final(waiter).wf(),
            step@ == poll_step(old(waiter)@, deadline, now),
    {
        match waiter.state.set_resource.take() {
            Some(resource) => {
                let step = ReceiveStep::Ready(
                    TraceExporterMessage::SetResource { resource },
                    Vec::new(),
                );
                assert(step@->Ready_1 =~= Seq::<Seq<SpanView>>::empty());
                return step;
            },
            None => {},
        }
        if waiter.state.shutdown_needed {
            return ReceiveStep::Ready(
                TraceExporterMessage::Shutdown,
                waiter.state.batch.export(now),
            );
        }
        if waiter.state.flush_needed {
            waiter.state.flush_needed = false;
            return ReceiveStep::Ready(
                TraceExporterMessage::FlushTraceChunks,
                waiter.state.batch.export(now),
            );
        }
        let left = deadline.saturating_sub(now);
        if left == 0 {
            ReceiveStep::Ready(
                TraceExporterMessage::FlushTraceChunksWithTimeout,
                waiter.state.batch.export(now),
            )
        } else {
            ReceiveStep::Wait { left, deadline }
        }
    }

    /// Goes on after this side has waited. Where the time was over, the spans are taken whatever was
    /// asked for meanwhile.
    pub fn woken(
        &self,
        waiter: &mut Waiter,
        deadline: u128,
        timed_out: bool,
        now: u128,
    ) -> (step: ReceiveStep)
        ensures
            final(waiter)@ == after_woken(old(waiter)@, deadline, timed_out, now),
            old(waiter).wf() ==> final(waiter).wf(),
            step@ == woken_step(old(waiter)@, deadline, timed_out, now),
    {
        if timed_out {
            ReceiveStep::Ready(
                TraceExporterMessage::FlushTraceChunksWithTimeout,
                waiter.state.batch.export(now),
            )
        } else {
            self.poll(waiter, deadline, now)
        }
    }
}

/// The state before anything was handed over.
pub open spec fn fresh_waiter(
    max_number_of_spans: nat,
    main_service: Seq<char>,
    now: u128,
) -> WaiterView {
    WaiterView {
        state: StateView {
            flush_needed: false,
            shutdown_needed: false,
            has_shutdown: false,
            batch: BatchView {
                chunks: Seq::empty(),
                last_flush: now,
                span_count: 0,
                max_buffered_spans: max_number_of_spans,
                main_service,
                extra_services: Seq::empty(),
            },
            set_resource: None,
            metrics: no_queue_metrics(),
        },
        poisoned: false,
        notify: false,
    }
}

/// The two sides, and what they share.
pub fn channel(
    flush_trigger_number_of_spans: usize,
    max_number_of_spans: usize,
    config: Arc<Config>,
    now: u128,
) -> (ends: (Sender, Receiver, Waiter))
    ensures
        flush_trigger(ends.0) == flush_trigger_number_of_spans,
        ends.2@ == fresh_waiter(max_number_of_spans as nat, config.service@, now),
        ends.2.wf(),
{
    let batch = Batch::new(max_number_of_spans, config.service.clone(), now);
    let state = SharedState {
        flush_needed: false,
        shutdown_needed: false,
        has_shutdown: false,
        batch,
        set_resource: None,
        metrics: QueueMetrics::default(),
    };
    (
        Sender { flush_trigger_number_of_spans },
        Receiver,
        Waiter { state, poisoned: false, notify: false },
    )
}

/// The metrics of the hand-over as they are read: nothing is known of them where the lock cannot be
/// used.
pub open spec fn queue_metrics_read(waiter: WaiterView) -> QueueMetricsView {
    if waiter.poisoned {
        no_queue_metrics()
    } else {
        waiter.state.metrics
    }
}

/// The state after the metrics were read: they start anew.
pub open spec fn after_metrics_read(waiter: WaiterView) -> WaiterView {
    if waiter.poisoned {
        waiter
    } else {
        WaiterView {
            state: StateView { metrics: no_queue_metrics(), ..waiter.state },
            ..waiter
        }
    }
}

/// Reads the metrics of the hand-over.
#[derive(Debug)]
pub struct QueueMetricsFetcher;

impl QueueMetricsFetcher {
    /// What happened since this was last asked for.
    pub fn get_metrics(&self, waiter: &mut Waiter) -> (metrics: QueueMetrics)
        ensures
            metrics@ == queue_metrics_read(old(waiter)@),
            final(waiter)@ == after_metrics_read(old(waiter)@),
            old(waiter).wf() ==> final(waiter).wf(),
    {
        let mut metrics = QueueMetrics::default();
        if !waiter.poisoned {
            std::mem::swap(&mut metrics, &mut waiter.state.metrics);
        }
        metrics
    }
}

} // verus!
