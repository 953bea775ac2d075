//! The exporter: it hands spans over to the thread that sends them, and reports how that thread does.
//!
//! Spans are buffered until more than [`SPAN_FLUSH_THRESHOLD`] wait, until
//! [`crate::worker::MAX_BATCH_TIME`] has passed since they were last sent, or until somebody asks for
//! them to be sent or for the thread to stop. What takes a lock or waits is done by the caller.

use crate::channel::{
    self, QueueMetricsFetcher, Receiver, Sender, SenderError, ShutdownWait, Waiter, WaiterView, Wake,
};
use crate::config::Config;
use crate::dd_resource;
use crate::errors::{self, ErrorView, OTelSdkError, WorkerError};
use crate::shutdown::{self, Shutdown};
use crate::span::{self, FinishedSpan, SpanView};
use crate::text;
use crate::worker::{self, LogLine, TraceExporterError, TraceExporterWorker};
use opentelemetry_sdk::Resource;
use std::sync::Arc;
use vstd::prelude::*;

verus! {

/// How many spans may wait before they are sent.
pub const SPAN_FLUSH_THRESHOLD: usize = 3000;

/// How many spans may wait before more are dropped.
pub const MAX_BUFFERED_SPANS: usize = 10_000;

/// How often statistics are sent, in nanoseconds.
pub const STATS_INTERVAL: u128 = 10_000_000_000;

/// How telemetry on the connection is sent.
#[derive(Debug, PartialEq, Eq)]
pub struct TelemetrySettings {
    /// How often it is sent, in milliseconds.
    pub heartbeat: u64,
    pub runtime_id: Option<String>,
    pub debug_enabled: bool,
}

/// What a [`TelemetrySettings`] holds.
pub struct TelemetryView {
    pub heartbeat: u64,
    pub runtime_id: Option<Seq<char>>,
    pub debug_enabled: bool,
}

impl View for TelemetrySettings {
    type V = TelemetryView;

    open spec fn view(&self) -> TelemetryView {
        TelemetryView {
            heartbeat: self.heartbeat,
            runtime_id: text::opt_text(self.runtime_id),
            debug_enabled: self.debug_enabled,
        }
    }
}

/// How traces are written for the agent.
#[derive(Debug, Clone, Copy, PartialEq, Eq)]
pub enum TraceExporterOutputFormat {
    V04,
}

/// How the connection to the agent is set up.
#[derive(Debug, PartialEq, Eq)]
pub struct ExporterSettings {
    pub url: String,
    pub dogstatsd_url: String,
    pub tracer_version: String,
    pub language: String,
    pub language_version: String,
    pub service: String,
    pub output_format: TraceExporterOutputFormat,
    pub health_metrics: bool,
    pub agent_rates_payload_version: bool,
    /// Whether top level spans are marked before they are sent.
    pub client_computed_top_level: bool,
    /// How often statistics are sent, if they are.
    pub stats_interval: Option<u128>,
    pub env: Option<String>,
    pub app_version: Option<String>,
    pub telemetry: Option<TelemetrySettings>,
}

/// What an [`ExporterSettings`] holds.
pub struct SettingsView {
    pub url: Seq<char>,
    pub dogstatsd_url: Seq<char>,
    pub tracer_version: Seq<char>,
    pub language: Seq<char>,
    pub language_version: Seq<char>,
    pub service: Seq<char>,
    pub output_format: TraceExporterOutputFormat,
    pub health_metrics: bool,
    pub agent_rates_payload_version: bool,
    pub client_computed_top_level: bool,
    pub stats_interval: Option<u128>,
    pub env: Option<Seq<char>>,
    pub app_version: Option<Seq<char>>,
    pub telemetry: Option<TelemetryView>,
}

impl View for ExporterSettings {
    type V = SettingsView;

    open spec fn view(&self) -> SettingsView {
        SettingsView {
            url: self.url@,
            dogstatsd_url: self.dogstatsd_url@,
            tracer_version: self.tracer_version@,
            language: self.language@,
            language_version: self.language_version@,
            service: self.service@,
            output_format: self.output_format,
            health_metrics: self.health_metrics,
            agent_rates_payload_version: self.agent_rates_payload_version,
            client_computed_top_level: self.client_computed_top_level,
            stats_interval: self.stats_interval,
            env: text::opt_text(self.env),
            app_version: text::opt_text(self.app_version),
            telemetry: match self.telemetry {
                Some(telemetry) => Some(telemetry@),
                None => None,
            },
        }
    }
}

/// The settings that follow from the configuration. Top level spans are marked by this library where
/// traces are sent in parts; statistics and telemetry are sent where they are enabled.
pub open spec fn settings_for(config: &Config) -> SettingsView {
    SettingsView {
        url: config.trace_agent_url@,
        dogstatsd_url: config.dogstatsd_agent_url@,
        tracer_version: config.tracer_version@,
        language: config.language@,
        language_version: config.language_version@,
        service: config.service@,
        output_format: TraceExporterOutputFormat::V04,
        health_metrics: true,
        agent_rates_payload_version: true,
        client_computed_top_level: config.trace_partial_flush_enabled,
        stats_interval: if config.trace_stats_computation_enabled {
            Some(STATS_INTERVAL)
        } else {
            None
        },
        env: text::opt_text(config.env),
        app_version: text::opt_text(config.version),
        telemetry: if config.telemetry_enabled {
            Some(
                TelemetryView {
                    heartbeat: config.telemetry_heartbeat_millis,
                    runtime_id: Some(config.runtime_id@),
                    debug_enabled: false,
                },
            )
        } else {
            None
        },
    }
}

/// The settings that follow from the configuration.
fn exporter_settings(config: &Config) -> (settings: ExporterSettings)
    ensures
        settings@ == settings_for(config),
{
    ExporterSettings {
        url: config.trace_agent_url.clone(),
        dogstatsd_url: config.dogstatsd_agent_url.clone(),
        tracer_version: config.tracer_version.clone(),
        language: config.language.clone(),
        language_version: config.language_version.clone(),
        service: config.service.clone(),
        output_format: TraceExporterOutputFormat::V04,
        health_metrics: true,
        agent_rates_payload_version: true,
        client_computed_top_level: config.trace_partial_flush_enabled,
        stats_interval: if config.trace_stats_computation_enabled {
            Some(STATS_INTERVAL)
        } else {
            None
        },
        env: text::copy_opt_text(&config.env),
        app_version: text::copy_opt_text(&config.version),
        telemetry: if config.telemetry_enabled {
            Some(
                TelemetrySettings {
                    heartbeat: config.telemetry_heartbeat_millis,
                    runtime_id: Some(config.runtime_id.clone()),
                    debug_enabled: false,
                },
            )
        } else {
            None
        },
    }
}

/// How an error of the hand-over is written in messages.
pub open spec fn error_chars(error: SenderError) -> Seq<char> {
    match error {
        SenderError::AlreadyShutdown => "AlreadyShutdown"@,
        SenderError::TimedOut => "TimedOut"@,
        SenderError::MutexPoisoned => "MutexPoisoned"@,
        SenderError::BatchFull(full) => "BatchFull(BatchFullError { spans_dropped: "@
            + text::decimal_chars(full.spans_dropped as nat) + " })"@,
    }
}

/// How an error of the hand-over is written in messages.
pub fn error_text(error: SenderError) -> (written: String)
    ensures
        written@ == error_chars(error),
{
    match error {
        SenderError::AlreadyShutdown => "AlreadyShutdown".to_owned(),
        SenderError::TimedOut => "TimedOut".to_owned(),
        SenderError::MutexPoisoned => "MutexPoisoned".to_owned(),
        SenderError::BatchFull(full) => {
            let count = text::decimal(full.spans_dropped as u128);
            let mut written = text::join(
                "BatchFull(BatchFullError { spans_dropped: ",
                count.as_str(),
            );
            written.append(" })");
            written
        },
    }
}

/// How a call to the exporter goes on.
#[derive(Debug, PartialEq, Eq)]
pub enum ExporterStep {
    /// It waits for as long as is left, and goes on with the same deadline.
    Wait { left: u128, deadline: u128 },
    /// It joins the thread that sends spans. Where that fails, so does the call; otherwise this is
    /// its result.
    Join { otherwise: Result<(), OTelSdkError> },
    /// It returns this.
    Done(Result<(), OTelSdkError>),
}

/// What an [`ExporterStep`] says.
pub enum ExporterStepView {
    Wait { left: u128, deadline: u128 },
    Join { otherwise: Option<ErrorView> },
    Done(Option<ErrorView>),
}

impl View for ExporterStep {
    type V = ExporterStepView;

    open spec fn view(&self) -> ExporterStepView {
        match self {
            ExporterStep::Wait { left, deadline } => ExporterStepView::Wait {
                left: *left,
                deadline: *deadline,
            },
            ExporterStep::Join { otherwise } => ExporterStepView::Join {
                otherwise: errors::failure(*otherwise),
            },
            ExporterStep::Done(result) => ExporterStepView::Done(errors::failure(*result)),
        }
    }
}

/// What follows from the result of the hand-over: where the thread has stopped it is joined and the
/// call fails with the first message, other errors are reported after the second one.
pub open spec fn reply_to(
    result: Result<(), SenderError>,
    stopped: Seq<char>,
    failed: Seq<char>,
) -> ExporterStepView {
    match result {
        Err(SenderError::AlreadyShutdown) => ExporterStepView::Join {
            otherwise: Some(ErrorView::InternalFailure(stopped)),
        },
        Err(error) => ExporterStepView::Done(
            Some(ErrorView::InternalFailure(failed + error_chars(error))),
        ),
        Ok(_) => ExporterStepView::Done(None),
    }
}

/// What follows from the result of the hand-over.
fn reply(result: Result<(), SenderError>, stopped: &str, failed: &str) -> (step: ExporterStep)
    ensures
        step@ == reply_to(result, stopped@, failed@),
{
    match result {
        Err(SenderError::AlreadyShutdown) => ExporterStep::Join {
            otherwise: Err(OTelSdkError::InternalFailure(stopped.to_owned())),
        },
        Err(error) => {
            let written = error_text(error);
            ExporterStep::Done(
                Err(OTelSdkError::InternalFailure(text::join(failed, written.as_str()))),
            )
        },
        Ok(_) => ExporterStep::Done(Ok(())),
    }
}

/// What follows when spans were handed over.
pub open spec fn export_reply(waiter: WaiterView, spans: Seq<SpanView>) -> ExporterStepView {
    if spans.len() == 0 {
        ExporterStepView::Done(None)
    } else {
        reply_to(
            channel::spans_result(waiter, spans),
            "DatadogExporter.export_chunk_no_wait: trace exporter has already shutdown"@,
            "DatadogExporter.export_chunk_no_wait: failed to add trace chunk: "@,
        )
    }
}

/// The state after spans were handed over.
pub open spec fn after_export(waiter: WaiterView, spans: Seq<SpanView>) -> WaiterView {
    if spans.len() == 0 {
        waiter
    } else {
        channel::with_spans(waiter, SPAN_FLUSH_THRESHOLD as nat, spans)
    }
}

/// What follows when a resource was set.
pub open spec fn resource_reply(waiter: WaiterView) -> ExporterStepView {
    reply_to(
        channel::as_result(channel::sender_error(waiter)),
        "DatadogExporter.set_resource: trace exporter has already shutdown"@,
        "DatadogExporter.set_resource: failed to set resource: "@,
    )
}

/// What follows when spans were asked to be sent.
pub open spec fn flush_reply(waiter: WaiterView) -> ExporterStepView {
    reply_to(
        channel::as_result(channel::sender_error(waiter)),
        "DatadogExporter.force_flush: trace exporter has already shutdown"@,
        "DatadogExporter.force_flush: failed to trigger flush: "@,
    )
}

/// What follows from how a wait for the thread to stop goes on.
pub open spec fn shutdown_reply(timeout: u128, wait: ShutdownWait) -> ExporterStepView {
    match wait {
        ShutdownWait::Wait { left, deadline } => ExporterStepView::Wait { left, deadline },
        ShutdownWait::Done(Err(SenderError::AlreadyShutdown)) => ExporterStepView::Join {
            otherwise: Some(
                ErrorView::InternalFailure(
                    "DatadogExporter.wait_for_shutdown: trace exporter has already shutdown"@,
                ),
            ),
        },
        ShutdownWait::Done(Err(SenderError::TimedOut)) => ExporterStepView::Done(
            Some(ErrorView::Timeout(timeout)),
        ),
        ShutdownWait::Done(Err(SenderError::BatchFull(_))) => ExporterStepView::Done(
            Some(
                ErrorView::InternalFailure(
                    "DatadogExporter.wait_for_shutdown: unexpected error waiting for shutdown"@,
                ),
            ),
        ),
        ShutdownWait::Done(_) => ExporterStepView::Join { otherwise: None },
    }
}

/// How the attempt to join the thread that sends spans ended.
#[derive(Debug, PartialEq, Eq)]
pub enum JoinOutcome {
    /// A thread panicked while it held the lock on the handle.
    LockPoisoned,
    /// The thread was joined before.
    AlreadyJoined,
    /// The thread panicked, with this message where there is one.
    Panicked(Option<String>),
    /// The thread failed, and this is how the failure is written.
    Failed { error: TraceExporterError, written: String },
    /// The thread ended as it should.
    Ended,
}

/// The handle on the thread that sends spans, until the thread is joined.
#[derive(Debug)]
pub struct TraceExporterHandle<H> {
    handle: Option<H>,
}

impl<H> TraceExporterHandle<H> {
    /// The handle, if the thread was not joined.
    pub closed spec fn held(self) -> Option<H> {
        self.handle
    }

    /// The handle on a thread that was just started.
    pub fn new(handle: H) -> (holder: Self)
        ensures
            holder.held() == Some(handle),
    {
        TraceExporterHandle { handle: Some(handle) }
    }

    /// Gives the handle out for joining the thread. That can be done once: from then on the thread
    /// counts as joined.
    pub fn take(&mut self) -> (taken: Result<H, JoinOutcome>)
        ensures
            final(self).held() is None,
            match taken {
                Ok(handle) => old(self).held() == Some(handle),
                Err(outcome) => old(self).held() is None && outcome == JoinOutcome::AlreadyJoined,
            },
    {
        match self.handle.take() {
            Some(handle) => Ok(handle),
            None => Err(JoinOutcome::AlreadyJoined),
        }
    }
}

/// What the attempt to join the thread is reported as.
pub open spec fn join_failure(outcome: JoinOutcome) -> Option<ErrorView> {
    match outcome {
        JoinOutcome::LockPoisoned => Some(
            ErrorView::InternalFailure(
                "DatadogExporter.join: can't access worker task join handle"@,
            ),
        ),
        JoinOutcome::AlreadyJoined => Some(ErrorView::AlreadyShutdown),
        JoinOutcome::Panicked(Some(message)) => Some(
            ErrorView::InternalFailure("DatadogExporter.join: worker panicked: "@ + message@),
        ),
        JoinOutcome::Panicked(None) => Some(
            ErrorView::InternalFailure(
                "DatadogExporter.join: worker panicked: error message unknown"@,
            ),
        ),
        JoinOutcome::Failed { error: TraceExporterError::ShutdownTimedOut(nanos), .. } => Some(
            ErrorView::Timeout(nanos),
        ),
        JoinOutcome::Failed { written, .. } => Some(
            ErrorView::InternalFailure(
                "DatadogExporter.join: worker exited with error: "@ + written@,
            ),
        ),
        JoinOutcome::Ended => None,
    }
}

/// The result of a call once the thread was joined: that of the attempt where it failed.
pub open spec fn failure_after_join(outcome: JoinOutcome, otherwise: Option<ErrorView>) -> Option<
    ErrorView,
> {
    match join_failure(outcome) {
        Some(error) => Some(error),
        None => otherwise,
    }
}

/// What is reported of the thread, and what is logged of it.
#[derive(Debug, PartialEq, Eq)]
pub struct Joined {
    pub result: Result<(), OTelSdkError>,
    pub log: Option<LogLine>,
}

/// The exporter.
#[derive(Debug)]
pub struct DatadogExporter {
    tx: Sender,
}

/// What goes with a new exporter.
#[derive(Debug)]
pub struct ExporterParts {
    pub exporter: DatadogExporter,
    /// What is shared with the thread that sends spans.
    pub waiter: Waiter,
    /// How the connection to the agent is set up.
    pub settings: ExporterSettings,
    /// The thread's end of the hand-over.
    pub rx: Receiver,
    /// What the thread starts with.
    pub worker: TraceExporterWorker,
}

impl DatadogExporter {
    /// Spans are sent once more than [`SPAN_FLUSH_THRESHOLD`] wait.
    #[verifier::type_invariant]
    pub closed spec fn inv(self) -> bool {
        channel::flush_trigger(self.tx) == SPAN_FLUSH_THRESHOLD
    }

    /// An exporter that is made at `now`, with no resource yet.
    pub fn new(config: Arc<Config>, now: u128) -> (parts: ExporterParts)
        ensures
            parts.waiter@ == channel::fresh_waiter(
                MAX_BUFFERED_SPANS as nat,
                config.service@,
                now,
            ),
            parts.waiter.wf(),
            parts.settings@ == settings_for(&config),
            dd_resource::resource_attributes(parts.worker.otel_resource).dom() == Set::<
                Seq<char>,
            >::empty(),
            dd_resource::resource_schema_url(parts.worker.otel_resource) is None,
    {
        let settings = exporter_settings(&config);
        let (tx, rx, waiter) = channel::channel(
            SPAN_FLUSH_THRESHOLD,
            MAX_BUFFERED_SPANS,
            config,
            now,
        );
        let otel_resource = dd_resource::empty_resource();
        ExporterParts {
            exporter: DatadogExporter { tx },
            waiter,
            settings,
            rx,
            worker: TraceExporterWorker { otel_resource },
        }
    }

    /// Hands spans over to be sent.
    pub fn export_chunk_no_wait(&self, waiter: &mut Waiter, span_data: Vec<FinishedSpan>) -> (step:
        ExporterStep)
        requires
            span_data@.len() == 0 || channel::has_room(old(waiter)@, span_data@.len()),
        ensures
            final(waiter)@ == after_export(old(waiter)@, span::spans_view(span_data@)),
            old(waiter).wf() ==> final(waiter).wf(),
            step@ == export_reply(old(waiter)@, span::spans_view(span_data@)),
    {
        proof {
            use_type_invariant(self);
        }
        if span_data.len() == 0 {
            return ExporterStep::Done(Ok(()));
        }
        let result = self.tx.add_trace_chunk(waiter, span_data);
        reply(
            result,
            "DatadogExporter.export_chunk_no_wait: trace exporter has already shutdown",
            "DatadogExporter.export_chunk_no_wait: failed to add trace chunk: ",
        )
    }

    /// Sets the resource that describes the service.
    pub fn set_resource(&self, waiter: &mut Waiter, resource: Resource) -> (step: ExporterStep)
        ensures
            final(waiter)@ == channel::with_resource(old(waiter)@, resource),
            old(waiter).wf() ==> final(waiter).wf(),
            step@ == resource_reply(old(waiter)@),
    {
        let result = self.tx.set_resource(waiter, resource);
        reply(
            result,
            "DatadogExporter.set_resource: trace exporter has already shutdown",
            "DatadogExporter.set_resource: failed to set resource: ",
        )
    }

    /// Asks for the spans to be sent now.
    pub fn force_flush(&self, waiter: &mut Waiter) -> (step: ExporterStep)
        ensures
            final(waiter)@ == channel::with_flush(old(waiter)@),
            old(waiter).wf() ==> final(waiter).wf(),
            step@ == flush_reply(old(waiter)@),
    {
        let result = self.tx.trigger_flush(waiter);
        reply(
            result,
            "DatadogExporter.force_flush: trace exporter has already shutdown",
            "DatadogExporter.force_flush: failed to trigger flush: ",
        )
    }

    /// Asks the thread to stop. Where it cannot be asked there is nothing to stop, and nothing is
    /// reported.
    pub fn trigger_shutdown(&self, waiter: &mut Waiter)
        ensures
            final(waiter)@ == channel::with_shutdown(old(waiter)@),
            old(waiter).wf() ==> final(waiter).wf(),
    {
        match self.tx.trigger_shutdown(waiter) {
            Ok(_) => {},
            Err(error) => {
                assert(error is AlreadyShutdown || error is MutexPoisoned);
            },
        }
    }

    /// Begins at `now` to wait for the thread to stop.
    pub fn wait_for_shutdown(&self, waiter: &Waiter, timeout: u128, now: u128) -> (step: ExporterStep)
        requires
            timeout == 0 || waiter@.poisoned || now + timeout <= u128::MAX,
        ensures
            step@ == shutdown_reply(timeout, channel::shutdown_wait_start(waiter@, timeout, now)),
    {
        self.shutdown_reply(timeout, self.tx.wait_shutdown_done(waiter, timeout, now))
    }

    /// Goes on with waiting for the thread to stop after this thread was woken at `now`.
    pub fn wait_for_shutdown_woken(
        &self,
        waiter: &Waiter,
        timeout: u128,
        deadline: u128,
        wake: Wake,
        now: u128,
    ) -> (step: ExporterStep)
        ensures
            step@ == shutdown_reply(
                timeout,
                channel::shutdown_wait_next(waiter@, deadline, wake, now),
            ),
    {
        self.shutdown_reply(timeout, self.tx.wait_shutdown_woken(waiter, deadline, wake, now))
    }

    /// What follows from how a wait for the thread to stop goes on.
    fn shutdown_reply(&self, timeout: u128, wait: ShutdownWait) -> (step: ExporterStep)
        ensures
            step@ == shutdown_reply(timeout, wait),
    {
        match wait {
            ShutdownWait::Wait { left, deadline } => ExporterStep::Wait { left, deadline },
            ShutdownWait::Done(result) => match result {
                Err(SenderError::AlreadyShutdown) => ExporterStep::Join {
                    otherwise: Err(
                        OTelSdkError::InternalFailure(
                            "DatadogExporter.wait_for_shutdown: trace exporter has already shutdown".to_owned(),
                        ),
                    ),
                },
                Err(SenderError::TimedOut) => ExporterStep::Done(
                    Err(OTelSdkError::Timeout(timeout)),
                ),
                Err(SenderError::BatchFull(_)) => ExporterStep::Done(
                    Err(
                        OTelSdkError::InternalFailure(
                            "DatadogExporter.wait_for_shutdown: unexpected error waiting for shutdown".to_owned(),
                        ),
                    ),
                ),
                Err(SenderError::MutexPoisoned) => ExporterStep::Join { otherwise: Ok(()) },
                Ok(_) => ExporterStep::Join { otherwise: Ok(()) },
            },
        }
    }

    /// Reports how the attempt to join the thread ended, and what a call that joins it returns.
    pub fn join(&self, outcome: JoinOutcome, otherwise: Result<(), OTelSdkError>) -> (joined: Joined)
        ensures
            errors::failure(joined.result) == failure_after_join(
                outcome,
                errors::failure(otherwise),
            ),
            match outcome {
                JoinOutcome::Failed { error, .. } => joined.log matches Some(line) && line@
                    == worker::logged_error(error),
                _ => joined.log is None,
            },
    {
        match outcome {
            JoinOutcome::LockPoisoned => Joined {
                result: Err(
                    OTelSdkError::InternalFailure(
                        "DatadogExporter.join: can't access worker task join handle".to_owned(),
                    ),
                ),
                log: None,
            },
            JoinOutcome::AlreadyJoined => Joined {
                result: Err(OTelSdkError::AlreadyShutdown),
                log: None,
            },
            JoinOutcome::Panicked(Some(message)) => Joined {
                result: Err(
                    OTelSdkError::InternalFailure(
                        text::join("DatadogExporter.join: worker panicked: ", message.as_str()),
                    ),
                ),
                log: None,
            },
            JoinOutcome::Panicked(None) => Joined {
                result: Err(
                    OTelSdkError::InternalFailure(
                        "DatadogExporter.join: worker panicked: error message unknown".to_owned(),
                    ),
                ),
                log: None,
            },
            JoinOutcome::Failed { error, written } => {
                let line = worker::log_trace_exporter_error(&error);
                let reported = match error {
                    TraceExporterError::ShutdownTimedOut(nanos) => OTelSdkError::Timeout(nanos),
                    _ => OTelSdkError::InternalFailure(
                        text::join(
                            "DatadogExporter.join: worker exited with error: ",
                            written.as_str(),
                        ),
                    ),
                };
                Joined { result: Err(reported), log: Some(line) }
            },
            JoinOutcome::Ended => Joined { result: otherwise, log: None },
        }
    }

    /// What reads the metrics of the hand-over.
    pub fn queue_metrics(&self) -> (fetcher: QueueMetricsFetcher)
        ensures
            fetcher == QueueMetricsFetcher,
    {
        QueueMetricsFetcher
    }
}

/// How a call ends after this step, where it joins the thread with this outcome. A call that still
/// waits has not ended.
pub open spec fn call_ends(step: ExporterStepView, outcome: JoinOutcome) -> Option<
    Option<ErrorView>,
> {
    match step {
        ExporterStepView::Wait { .. } => None,
        ExporterStepView::Join { otherwise } => Some(failure_after_join(outcome, otherwise)),
        ExporterStepView::Done(failure) => Some(failure),
    }
}

/// Once the thread has stopped, every call that hands something over fails, however the thread ended.
pub proof fn law_stopped_exporter_fails_every_call(
    waiter: WaiterView,
    spans: Seq<SpanView>,
    outcome: JoinOutcome,
)
    requires
        waiter.state.has_shutdown,
        spans.len() > 0,
    ensures
        call_ends(export_reply(waiter, spans), outcome) matches Some(Some(_)),
        call_ends(resource_reply(waiter), outcome) matches Some(Some(_)),
        call_ends(flush_reply(waiter), outcome) matches Some(Some(_)),
{
}

/// Spans are handed over exactly where the call succeeds: then they wait behind the others, and else
/// no span does that did not before.
pub proof fn law_success_means_handed_over(
    waiter: WaiterView,
    spans: Seq<SpanView>,
    outcome: JoinOutcome,
)
    requires
        spans.len() > 0,
    ensures
        call_ends(export_reply(waiter, spans), outcome) == Some(None::<ErrorView>)
            ==> after_export(waiter, spans).state.batch.chunks == waiter.state.batch.chunks.push(
            spans,
        ),
        call_ends(export_reply(waiter, spans), outcome) != Some(None::<ErrorView>)
            ==> after_export(waiter, spans).state.batch.chunks == waiter.state.batch.chunks,
{
}

/// A shutdown that is waited for succeeds exactly where the thread has stopped and ended as it
/// should.
pub proof fn law_shutdown_succeeds_once_ended(
    waiter: WaiterView,
    timeout: u128,
    now: u128,
    outcome: JoinOutcome,
)
    requires
        !waiter.poisoned,
        timeout > 0,
    ensures
        ({
            let step = shutdown_reply(
                timeout,
                channel::shutdown_wait_start(waiter, timeout, now),
            );
            call_ends(step, outcome) == Some(None::<ErrorView>) <==> waiter.state.has_shutdown
                && outcome is Ended
        }),
{
}

/// A wait for the thread that ran out of time is reported as a timeout, without joining the thread,
/// and ends the whole shutdown with the timeout of that.
pub proof fn law_timed_out_wait_is_reported(
    waiter: WaiterView,
    left: u128,
    deadline: u128,
    now: u128,
    shutdown: Shutdown,
    exporter: Result<(), OTelSdkError>,
    remote_config: Result<(), WorkerError>,
    telemetry: Result<(), WorkerError>,
)
    ensures
        shutdown_reply(left, channel::shutdown_wait_next(waiter, deadline, Wake::TimedOut, now))
            == ExporterStepView::Done(Some(ErrorView::Timeout(left))),
        errors::failure(exporter) == Some(ErrorView::Timeout(left)) ==> shutdown::shutdown_failure(
            shutdown,
            exporter,
            remote_config,
            telemetry,
        ) == Some(ErrorView::Timeout(shutdown.timeout)),
{
}

/// Only one shutdown can succeed. Once one did, the thread has stopped or the lock is poisoned, and
/// the thread was joined: another shutdown that has time left ends with `AlreadyShutdown`.
pub proof fn law_only_one_shutdown_succeeds(
    waiter: WaiterView,
    left: u128,
    now: u128,
    shutdown: Shutdown,
    exporter: Result<(), OTelSdkError>,
    remote_config: Result<(), WorkerError>,
    telemetry: Result<(), WorkerError>,
)
    requires
        left > 0,
        waiter.poisoned || waiter.state.has_shutdown,
    ensures
        call_ends(
            shutdown_reply(left, channel::shutdown_wait_start(waiter, left, now)),
            JoinOutcome::AlreadyJoined,
        ) == Some(Some(ErrorView::AlreadyShutdown)),
        errors::failure(exporter) == Some(ErrorView::AlreadyShutdown)
            ==> shutdown::shutdown_failure(shutdown, exporter, remote_config, telemetry) == Some(
            ErrorView::AlreadyShutdown,
        ),
{
}

/// A wait for the thread succeeds only where the thread has stopped or the lock is poisoned, and where
/// the thread was joined by this call.
pub proof fn law_successful_wait_has_joined(
    waiter: WaiterView,
    left: u128,
    deadline: u128,
    wake: Wake,
    now: u128,
    outcome: JoinOutcome,
)
    ensures
        call_ends(
            shutdown_reply(left, channel::shutdown_wait_start(waiter, left, now)),
            outcome,
        ) == Some(None::<ErrorView>) ==> (waiter.poisoned || waiter.state.has_shutdown)
            && outcome is Ended,
        call_ends(
            shutdown_reply(left, channel::shutdown_wait_next(waiter, deadline, wake, now)),
            outcome,
        ) == Some(None::<ErrorView>) ==> (wake is Poisoned || waiter.state.has_shutdown)
            && outcome is Ended,
{
}

} // verus!
