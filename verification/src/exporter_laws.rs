//! What the exporter and the thread behind it report, case by case.

use crate::channel::{SenderError, ShutdownWait, TraceExporterMessage, WaiterView};
use crate::channel_field_laws;
use crate::config::Config;
use crate::errors::ErrorView;
use crate::exporter::{self, ExporterStepView, JoinOutcome, TraceExporterOutputFormat};
use crate::span::SpanView;
use crate::text;
use crate::worker::{self, AgentResponse, LogLevel, TraceExporterError};
use vstd::prelude::*;

verus! {

/// The connection to the agent is set up as configured: each address, name and version is the
/// configured one, and the environment and the version of the service are there where they are
/// configured.
pub proof fn law_settings_follow_the_configuration(config: &Config)
    ensures
        ({
            let settings = exporter::settings_for(config);
            &&& settings.url == config.trace_agent_url@
            &&& settings.dogstatsd_url == config.dogstatsd_agent_url@
            &&& settings.tracer_version == config.tracer_version@
            &&& settings.language == config.language@
            &&& settings.language_version == config.language_version@
            &&& settings.service == config.service@
            &&& settings.env is Some <==> config.env is Some
            &&& config.env matches Some(env) ==> settings.env == Some(env@)
            &&& settings.app_version is Some <==> config.version is Some
            &&& config.version matches Some(version) ==> settings.app_version == Some(version@)
        }),
{
}

/// What the connection does: it writes the one format, reports on its health and asks for sampling
/// rates, whatever is configured. Top level spans are marked where traces are sent in parts.
/// Statistics are sent every ten seconds where they are enabled, and telemetry as often as configured
/// where that is, under the identifier of this process and without debugging.
pub proof fn law_what_the_connection_sends(config: &Config)
    ensures
        ({
            let settings = exporter::settings_for(config);
            &&& settings.output_format == TraceExporterOutputFormat::V04
            &&& settings.health_metrics
            &&& settings.agent_rates_payload_version
            &&& settings.client_computed_top_level == config.trace_partial_flush_enabled
            &&& settings.stats_interval is Some <==> config.trace_stats_computation_enabled
            &&& settings.stats_interval matches Some(nanos) ==> nanos == 10 * 1_000_000_000
            &&& settings.telemetry is Some <==> config.telemetry_enabled
            &&& settings.telemetry matches Some(telemetry) ==> {
                &&& telemetry.heartbeat == config.telemetry_heartbeat_millis
                &&& telemetry.runtime_id == Some(config.runtime_id@)
                &&& !telemetry.debug_enabled
            }
        }),
{
}

/// An error of the hand-over is written by its name, and a full batch with the number of spans that
/// were dropped: what is written between the two parts stands for that number.
pub proof fn law_errors_are_named(error: SenderError)
    ensures
        ({
            let written = exporter::error_chars(error);
            &&& error is AlreadyShutdown ==> written == "AlreadyShutdown"@
            &&& error is TimedOut ==> written == "TimedOut"@
            &&& error is MutexPoisoned ==> written == "MutexPoisoned"@
            &&& error matches SenderError::BatchFull(full) ==> exists|digits: Seq<char>|
                {
                    &&& written == "BatchFull(BatchFullError { spans_dropped: "@ + digits + " })"@
                    &&& #[trigger] text::decimal_read(digits) == full.spans_dropped
                }
        }),
{
    if let SenderError::BatchFull(full) = error {
        text::law_decimal_is_read_back(full.spans_dropped as nat);
        let digits = text::decimal_chars(full.spans_dropped as nat);
        assert(text::decimal_read(digits) == full.spans_dropped);
    }
}

/// What a call that hands spans over is answered. Without spans it succeeds and changes nothing.
/// Otherwise a poisoned lock and a full batch fail it, each with its message; the thread is joined
/// where it has stopped, and the call then fails at least with the message that it has; and the call
/// succeeds otherwise.
pub proof fn law_answer_to_an_export(waiter: WaiterView, spans: Seq<SpanView>)
    requires
        spans.len() <= usize::MAX,
    ensures
        ({
            let step = exporter::export_reply(waiter, spans);
            let failed = "DatadogExporter.export_chunk_no_wait: failed to add trace chunk: "@;
            let full = waiter.state.batch.span_count > waiter.state.batch.max_buffered_spans;
            &&& spans.len() == 0 ==> step == ExporterStepView::Done(None)
            &&& spans.len() > 0 && waiter.poisoned ==> step == ExporterStepView::Done(
                Some(ErrorView::InternalFailure(failed + "MutexPoisoned"@)),
            )
            &&& spans.len() > 0 && !waiter.poisoned && waiter.state.has_shutdown ==> step
                == ExporterStepView::Join {
                otherwise: Some(
                    ErrorView::InternalFailure(
                        "DatadogExporter.export_chunk_no_wait: trace exporter has already shutdown"@,
                    ),
                ),
            }
            &&& spans.len() > 0 && channel_field_laws::can_send(waiter) && full ==> {
                &&& step matches ExporterStepView::Done(Some(ErrorView::InternalFailure(message)))
                &&& exists|digits: Seq<char>|
                    {
                        &&& message == failed + ("BatchFull(BatchFullError { spans_dropped: "@
                            + digits + " })"@)
                        &&& #[trigger] text::decimal_read(digits) == spans.len()
                    }
            }
            &&& spans.len() > 0 && channel_field_laws::can_send(waiter) && !full ==> step
                == ExporterStepView::Done(None)
        }),
{
    text::law_decimal_is_read_back(spans.len());
    let digits = text::decimal_chars(spans.len());
    assert(text::decimal_read(digits) == spans.len());
}

/// Spans that are handed over trigger their being sent once more than three thousand wait, and not
/// before. A call without spans changes nothing.
pub proof fn law_three_thousand_spans_are_sent(waiter: WaiterView, spans: Seq<SpanView>)
    ensures
        ({
            let after = exporter::after_export(waiter, spans);
            &&& spans.len() == 0 ==> after == waiter
            &&& channel_field_laws::can_send(waiter) && spans.len() > 0
                && waiter.state.batch.span_count <= waiter.state.batch.max_buffered_spans ==> {
                let count = waiter.state.batch.span_count + spans.len();
                &&& after.state.batch.span_count == count
                &&& after.state.batch.chunks == waiter.state.batch.chunks.push(spans)
                &&& after.state.flush_needed == (waiter.state.flush_needed || count > 3000)
                &&& after.notify == (waiter.notify || count > 3000)
            }
            &&& channel_field_laws::can_send(waiter) && waiter.state.batch.span_count
                > waiter.state.batch.max_buffered_spans ==> {
                &&& after.state.batch == waiter.state.batch
                &&& after.state.metrics.spans_dropped_full_buffer
                    == waiter.state.metrics.spans_dropped_full_buffer + spans.len()
            }
            &&& !channel_field_laws::can_send(waiter) ==> after == waiter
        }),
{
    channel_field_laws::law_spans_are_queued_or_dropped(waiter, 3000, spans);
}

/// What a call that sets a resource or asks for spans to be sent is answered: a poisoned lock fails it
/// with its message, the thread is joined where it has stopped, and the call succeeds otherwise.
pub proof fn law_answer_to_a_request(waiter: WaiterView)
    ensures
        ({
            let set = exporter::resource_reply(waiter);
            let flush = exporter::flush_reply(waiter);
            &&& waiter.poisoned ==> {
                &&& set == ExporterStepView::Done(
                    Some(
                        ErrorView::InternalFailure(
                            "DatadogExporter.set_resource: failed to set resource: "@
                                + "MutexPoisoned"@,
                        ),
                    ),
                )
                &&& flush == ExporterStepView::Done(
                    Some(
                        ErrorView::InternalFailure(
                            "DatadogExporter.force_flush: failed to trigger flush: "@
                                + "MutexPoisoned"@,
                        ),
                    ),
                )
            }
            &&& !waiter.poisoned && waiter.state.has_shutdown ==> {
                &&& set == ExporterStepView::Join {
                    otherwise: Some(
                        ErrorView::InternalFailure(
                            "DatadogExporter.set_resource: trace exporter has already shutdown"@,
                        ),
                    ),
                }
                &&& flush == ExporterStepView::Join {
                    otherwise: Some(
                        ErrorView::InternalFailure(
                            "DatadogExporter.force_flush: trace exporter has already shutdown"@,
                        ),
                    ),
                }
            }
            &&& channel_field_laws::can_send(waiter) ==> {
                &&& set == ExporterStepView::Done(None)
                &&& flush == ExporterStepView::Done(None)
            }
        }),
{
}

/// How a call goes on that waits for the thread to stop: it waits as long as the wait says; it joins
/// the thread that has stopped, or whose lock is poisoned, and succeeds unless that fails; it ends
/// with the timeout that it was given where the time is over.
pub proof fn law_how_a_shutdown_goes_on(timeout: u128, wait: ShutdownWait)
    ensures
        ({
            let step = exporter::shutdown_reply(timeout, wait);
            match wait {
                ShutdownWait::Wait { left, deadline } => {
                    &&& step matches ExporterStepView::Wait { left: for_so_long, deadline: until }
                    &&& for_so_long == left
                    &&& until == deadline
                },
                ShutdownWait::Done(Ok(_)) => step == (ExporterStepView::Join { otherwise: None }),
                ShutdownWait::Done(Err(SenderError::MutexPoisoned)) => step == (
                ExporterStepView::Join { otherwise: None }),
                ShutdownWait::Done(Err(SenderError::TimedOut)) => step == ExporterStepView::Done(
                    Some(ErrorView::Timeout(timeout)),
                ),
                ShutdownWait::Done(Err(SenderError::AlreadyShutdown)) => {
                    &&& step matches ExporterStepView::Join { otherwise: Some(error) }
                    &&& error == ErrorView::InternalFailure(
                        "DatadogExporter.wait_for_shutdown: trace exporter has already shutdown"@,
                    )
                },
                ShutdownWait::Done(Err(SenderError::BatchFull(_))) => step
                    == ExporterStepView::Done(
                    Some(
                        ErrorView::InternalFailure(
                            "DatadogExporter.wait_for_shutdown: unexpected error waiting for shutdown"@,
                        ),
                    ),
                ),
            }
        }),
{
}

/// What a call that joins the thread returns: its own result where the thread ended as it should, and
/// otherwise what went wrong. The time that closing the connection took is reported as a timeout, and
/// every other failure with the text that describes it.
pub proof fn law_result_after_joining(outcome: JoinOutcome, otherwise: Option<ErrorView>)
    ensures
        ({
            let result = exporter::failure_after_join(outcome, otherwise);
            match outcome {
                JoinOutcome::Ended => result == otherwise,
                JoinOutcome::AlreadyJoined => result == Some(ErrorView::AlreadyShutdown),
                JoinOutcome::LockPoisoned => result == Some(
                    ErrorView::InternalFailure(
                        "DatadogExporter.join: can't access worker task join handle"@,
                    ),
                ),
                JoinOutcome::Panicked(Some(message)) => result == Some(
                    ErrorView::InternalFailure(
                        "DatadogExporter.join: worker panicked: "@ + message@,
                    ),
                ),
                JoinOutcome::Panicked(None) => result == Some(
                    ErrorView::InternalFailure(
                        "DatadogExporter.join: worker panicked: error message unknown"@,
                    ),
                ),
                JoinOutcome::Failed { error, written } => if let TraceExporterError::ShutdownTimedOut(
                    nanos,
                ) = error {
                    result == Some(ErrorView::Timeout(nanos))
                } else {
                    result == Some(
                        ErrorView::InternalFailure(
                            "DatadogExporter.join: worker exited with error: "@ + written@,
                        ),
                    )
                },
            }
        }),
{
}

/// How a call ends: it has not while it waits, with its own result where it is done, and with the
/// result after joining where it joins.
pub proof fn law_how_calls_end(step: ExporterStepView, outcome: JoinOutcome)
    ensures
        step is Wait <==> exporter::call_ends(step, outcome) is None,
        step matches ExporterStepView::Done(result) ==> exporter::call_ends(step, outcome) == Some(
            result,
        ),
        step matches ExporterStepView::Join { otherwise } ==> exporter::call_ends(step, outcome)
            == Some(
            if outcome is Ended {
                otherwise
            } else {
                exporter::join_failure(outcome)
            },
        ),
        outcome is Ended <==> exporter::join_failure(outcome) is None,
{
}

/// The text that comes with a failure to send spans, where there is one.
pub open spec fn detail_of(error: TraceExporterError) -> Option<Seq<char>> {
    match error {
        TraceExporterError::Builder(detail) => Some(detail@),
        TraceExporterError::InvalidWorkerState(detail) => Some(detail@),
        TraceExporterError::Deserialization(detail) => Some(detail@),
        TraceExporterError::Io(detail) => Some(detail@),
        TraceExporterError::Network(detail) => Some(detail@),
        TraceExporterError::Request(detail) => Some(detail@),
        TraceExporterError::Serialization(detail) => Some(detail@),
        TraceExporterError::Telemetry(detail) => Some(detail@),
        TraceExporterError::EmptyResponse => None,
        TraceExporterError::ShutdownTimedOut(_) => None,
    }
}

/// The kind of a failure as it is logged.
pub open spec fn kind_of(error: TraceExporterError) -> Seq<char> {
    match error {
        TraceExporterError::Builder(_) => "DatadogExporter: Export error: Builder error: "@,
        TraceExporterError::InvalidWorkerState(_) =>
            "DatadogExporter: Export error: Internal error: Invalid worker state: "@,
        TraceExporterError::Deserialization(_) =>
            "DatadogExporter: Export error: Deserialization error: "@,
        TraceExporterError::Io(_) => "DatadogExporter: Export error: IO error: "@,
        TraceExporterError::Network(_) => "DatadogExporter: Export error: Network error: "@,
        TraceExporterError::Request(_) => "DatadogExporter: Export error: Request error: "@,
        TraceExporterError::Serialization(_) =>
            "DatadogExporter: Export error: Serialization error: "@,
        TraceExporterError::EmptyResponse =>
            "DatadogExporter: Export error: Agent error: empty response"@,
        TraceExporterError::ShutdownTimedOut(_) =>
            "DatadogExporter: Export error: Shutdown error: timed out after "@,
        TraceExporterError::Telemetry(_) =>
            "DatadogExporter: Export error: Instrumentation telemetry error: "@,
    }
}

/// What is logged of a failure: its kind, followed by the text that came with it, whole, or by the time
/// that was waited, in whole milliseconds. A connection that cannot be set up and a wrong state are
/// errors; nothing else is.
pub proof fn law_failures_are_logged(error: TraceExporterError)
    ensures
        ({
            let line = worker::logged_error(error);
            &&& line.level == LogLevel::Error <==> error is Builder || error is InvalidWorkerState
            &&& line.level == LogLevel::Debug <==> !(error is Builder || error is InvalidWorkerState)
            &&& detail_of(error) matches Some(detail) ==> line.message == kind_of(error) + detail
            &&& error is EmptyResponse ==> line.message == kind_of(error)
            &&& error matches TraceExporterError::ShutdownTimedOut(nanos) ==> exists|
                digits: Seq<char>,
            |
                {
                    &&& line.message == kind_of(error) + digits + "ms"@
                    &&& 1_000_000 * #[trigger] text::decimal_read(digits) <= nanos < 1_000_000 * (
                    text::decimal_read(digits) + 1)
                }
        }),
{
    if let TraceExporterError::ShutdownTimedOut(nanos) = error {
        let millis = (nanos / 1_000_000) as nat;
        text::law_decimal_is_read_back(millis);
        let digits = text::decimal_chars(millis);
        assert(text::decimal_read(digits) == millis);
    }
}

/// Failures of one kind are told apart in the log by the text that came with them.
pub proof fn law_failures_are_told_apart(a: TraceExporterError, b: TraceExporterError)
    requires
        kind_of(a) == kind_of(b),
        detail_of(a) is Some,
        detail_of(b) is Some,
        detail_of(a) != detail_of(b),
    ensures
        worker::logged_error(a).message != worker::logged_error(b).message,
{
    law_failures_are_logged(a);
    law_failures_are_logged(b);
    let kind = kind_of(a);
    let (x, y) = (kind + detail_of(a)->0, kind + detail_of(b)->0);
    assert(x.skip(kind.len() as int) =~= detail_of(a)->0);
    assert(y.skip(kind.len() as int) =~= detail_of(b)->0);
}

/// What the thread does with a message: it sends the spans that came with it, if there are any, takes a
/// resource over where the message holds one, and stops where it was told to. It stops where it can
/// get no message, and then sends nothing.
pub proof fn law_what_the_thread_does(message: TraceExporterMessage, chunks: Seq<Seq<SpanView>>)
    ensures
        ({
            let step = worker::step_for(message, chunks);
            let without = worker::step_without_message();
            &&& chunks.len() == 0 ==> step.send is None
            &&& chunks.len() > 0 ==> step.send == Some(chunks)
            &&& message matches TraceExporterMessage::SetResource { resource } ==> step.resource
                == Some(resource)
            &&& !(message is SetResource) ==> step.resource is None
            &&& message is Shutdown ==> step.stop
            &&& message is FlushTraceChunks || message is FlushTraceChunksWithTimeout
                || message is SetResource ==> !step.stop
            &&& without.stop
            &&& without.send is None
            &&& without.resource is None
        }),
{
}

/// An answer of the agent is handed on whole where it is new and somebody listens, and never otherwise.
pub proof fn law_answers_are_handed_on(response: AgentResponse, has_handler: bool)
    ensures
        ({
            let handed = worker::handed_on(response, has_handler);
            &&& response matches AgentResponse::Changed { body } ==> has_handler ==> handed == Some(
                body@,
            )
            &&& response is Unchanged || !has_handler ==> handed is None
        }),
{
}

/// Spans wait for at most a second before they are sent, and the last ones have a second to arrive.
pub proof fn law_times_of_the_thread()
    ensures
        worker::MAX_BATCH_TIME == 1000 * 1_000_000,
        worker::SPAN_EXPORTER_SHUTDOWN_TIMEOUT == 1000 * 1_000_000,
{
}

} // verus!
