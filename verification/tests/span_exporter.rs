use datadog_opentelemetry::batch::{Batch, BatchFullError, TraceChunk};
use datadog_opentelemetry::channel::{
    channel, MutexPoisonedError, QueueMetrics, QueueMetricsFetcher, ReceiveStep, SenderError,
    ShutdownWait, TraceExporterMessage, Wake, Waiter,
};
use datadog_opentelemetry::config::Config;
use datadog_opentelemetry::errors::OTelSdkError;
use datadog_opentelemetry::exporter::{
    error_text, DatadogExporter, ExporterStep, JoinOutcome, TraceExporterHandle,
    TraceExporterOutputFormat, MAX_BUFFERED_SPANS, SPAN_FLUSH_THRESHOLD,
};
use datadog_opentelemetry::span::{FinishedSpan, SpanContext};
use datadog_opentelemetry::value::{KeyValue, Value};
use datadog_opentelemetry::worker::{
    log_trace_exporter_error, AgentResponse, LogLevel, TraceExporterError, TraceExporterWorker,
    MAX_BATCH_TIME, SPAN_EXPORTER_SHUTDOWN_TIMEOUT,
};
use opentelemetry::SpanId;
use opentelemetry_sdk::trace::{SpanData, SpanEvents, SpanLinks};
use opentelemetry_sdk::Resource;
use std::borrow::Cow;
use std::sync::Arc;

const SECOND: u128 = 1_000_000_000;
const MILLI: u128 = 1_000_000;

fn config() -> Config {
    Config {
        enabled: true,
        service: "unnamed-rust-service".to_string(),
        service_is_default: true,
        env: None,
        version: None,
        trace_agent_url: "http://localhost:8126".to_string(),
        dogstatsd_agent_url: "http://localhost:8125".to_string(),
        tracer_version: "1.2.3".to_string(),
        language: "rust".to_string(),
        language_version: "1.90".to_string(),
        runtime_id: "id".to_string(),
        trace_partial_flush_enabled: false,
        trace_partial_flush_min_spans: 300,
        trace_stats_computation_enabled: false,
        telemetry_enabled: false,
        telemetry_heartbeat_millis: 60_000,
        remote_config_enabled: false,
    }
}

fn empty_span_data() -> FinishedSpan {
    FinishedSpan {
        span_context: SpanContext {
            trace_id: [0; 16],
            span_id: [0; 8],
            trace_flags: 0,
            is_remote: false,
        },
        attributes: vec![],
        rest: SpanData {
            span_context: opentelemetry::trace::SpanContext::empty_context(),
            parent_span_id: SpanId::INVALID,
            parent_span_is_remote: false,
            name: Cow::Borrowed(""),
            start_time: std::time::SystemTime::now(),
            end_time: std::time::SystemTime::now(),
            attributes: vec![],
            events: SpanEvents::default(),
            links: SpanLinks::default(),
            status: opentelemetry::trace::Status::Unset,
            dropped_attributes_count: 0,
            span_kind: opentelemetry::trace::SpanKind::Internal,
            instrumentation_scope: opentelemetry::InstrumentationScope::default(),
        },
    }
}

fn spans(count: usize) -> Vec<FinishedSpan> {
    (0..count).map(|_| empty_span_data()).collect()
}

fn named_span(id: u8) -> FinishedSpan {
    let mut finished = empty_span_data();
    finished.span_context.span_id = [id; 8];
    finished
}

fn service_span(service: Value) -> FinishedSpan {
    let mut finished = empty_span_data();
    finished.attributes = vec![KeyValue { key: "service.name".to_string(), value: service }];
    finished
}

fn ready(step: Result<ReceiveStep, MutexPoisonedError>) -> (TraceExporterMessage, Vec<TraceChunk>) {
    match step {
        Ok(ReceiveStep::Ready(message, chunks)) => (message, chunks),
        _ => panic!("Failed to receive trace chunk"),
    }
}

fn take_notify(waiter: &mut Waiter) -> bool {
    let notify = waiter.notify;
    waiter.notify = false;
    notify
}

#[test]
fn test_receiver_sender_flush() {
    let (tx, rx, mut waiter) = channel(2, 4, Arc::new(config()), 0);
    tx.add_trace_chunk(&mut waiter, vec![empty_span_data()]).unwrap();
    assert!(!take_notify(&mut waiter));
    tx.add_trace_chunk(&mut waiter, vec![empty_span_data(), empty_span_data()]).unwrap();
    assert!(take_notify(&mut waiter));

    let (message, chunks) = ready(rx.receive(&mut waiter, SECOND, 0));
    assert_eq!(message, TraceExporterMessage::FlushTraceChunks);
    assert_eq!(chunks.len(), 2);
}

#[test]
fn test_receiver_sender_batch_drop() {
    let (tx, rx, mut waiter) = channel(2, 4, Arc::new(config()), 0);
    for i in 1..=3 {
        tx.add_trace_chunk(&mut waiter, spans(i)).unwrap();
    }

    assert_eq!(
        tx.add_trace_chunk(&mut waiter, spans(4)),
        Err(SenderError::BatchFull(BatchFullError { spans_dropped: 4 }))
    );

    let (message, chunks) = ready(rx.receive(&mut waiter, SECOND, 0));
    assert_eq!(message, TraceExporterMessage::FlushTraceChunks);
    assert_eq!(chunks.len(), 3);
    for (i, chunk) in chunks.into_iter().enumerate() {
        assert_eq!(chunk.chunk.len(), i + 1);
    }
}

#[test]
fn test_receiver_sender_timeout() {
    let (tx, rx, mut waiter) = channel(2, 4, Arc::new(config()), 0);
    tx.add_trace_chunk(&mut waiter, vec![empty_span_data()]).unwrap();
    let (message, chunks) = ready(rx.receive(&mut waiter, MILLI, MILLI));

    assert_eq!(message, TraceExporterMessage::FlushTraceChunksWithTimeout);
    assert_eq!(chunks.len(), 1);
}

#[test]
fn test_trigger_shutdown() {
    let (tx, rx, mut waiter) = channel(2, 4, Arc::new(config()), 0);
    tx.add_trace_chunk(&mut waiter, vec![empty_span_data()]).unwrap();
    tx.add_trace_chunk(&mut waiter, vec![empty_span_data(), empty_span_data()]).unwrap();
    tx.trigger_shutdown(&mut waiter).unwrap();

    let (message, batch) = ready(rx.receive(&mut waiter, SECOND, 0));
    assert_eq!(message, TraceExporterMessage::Shutdown);
    assert_eq!(batch.len(), 2);

    let (message, batch) = ready(rx.receive(&mut waiter, SECOND, 0));
    assert_eq!(message, TraceExporterMessage::Shutdown);
    assert_eq!(batch.len(), 0);
}

#[test]
fn test_wait_for_shutdown() {
    let (tx, rx, mut waiter) = channel(2, 4, Arc::new(config()), 0);
    tx.trigger_shutdown(&mut waiter).unwrap();
    let step = tx.wait_shutdown_done(&waiter, SECOND, 5);
    assert_eq!(step, ShutdownWait::Wait { left: SECOND, deadline: SECOND + 5 });

    let (msg, batch) = ready(rx.receive(&mut waiter, SECOND, 0));
    assert_eq!(msg, TraceExporterMessage::Shutdown);
    assert_eq!(batch.len(), 0);
    take_notify(&mut waiter);
    rx.shutdown_done(&mut waiter).unwrap();
    assert!(take_notify(&mut waiter));

    let step = tx.wait_shutdown_woken(&waiter, SECOND + 5, Wake::Notified, 10);
    assert_eq!(step, ShutdownWait::Done(Ok(())));
}

#[test]
fn test_already_shutdown() {
    let (tx, rx, mut waiter) = channel(2, 4, Arc::new(config()), 0);
    rx.shutdown_done(&mut waiter).unwrap();
    assert_eq!(tx.trigger_shutdown(&mut waiter), Err(SenderError::AlreadyShutdown));
}

#[test]
fn test_service_extraction_from_spans() {
    let mut config = config();
    config.service = "main-service".to_string();
    config.service_is_default = false;
    let (tx, _rx, mut waiter) = channel(2, 10, Arc::new(config), 0);

    // A span that gives the name of its service
    let span_with_service = service_span(Value::String("discovered-service".to_string()));

    // A span that gives none
    let span_without_service = empty_span_data();

    // A span with the default name, which is ignored
    let span_with_default_service =
        service_span(Value::String("otlpresourcenoservicename".to_string()));

    tx.add_trace_chunk(&mut waiter, vec![span_with_service]).unwrap();
    tx.add_trace_chunk(&mut waiter, vec![span_without_service]).unwrap();
    tx.add_trace_chunk(&mut waiter, vec![span_with_default_service]).unwrap();

    // Another span with the same name, which is not added again
    let span_duplicate_service = service_span(Value::String("discovered-service".to_string()));
    tx.add_trace_chunk(&mut waiter, vec![span_duplicate_service]).unwrap();

    // The configured name is not added either
    let span_main_service = service_span(Value::String("main-service".to_string()));
    tx.add_trace_chunk(&mut waiter, vec![span_main_service]).unwrap();

    let extra_services = waiter.state.batch.get_extra_services();
    assert_eq!(extra_services.len(), 1);
    assert!(extra_services.contains(&"discovered-service".to_string()));
    assert!(!extra_services.contains(&"main-service".to_string()));
    assert!(!extra_services.contains(&"otlpresourcenoservicename".to_string()));
}

#[test]
fn service_names_are_displayed_values() {
    let mut batch = Batch::new(10, "main".to_string(), 0);
    batch.extract_and_add_service_from_span(&service_span(Value::I64(-42)));
    batch.extract_and_add_service_from_span(&service_span(Value::Bool(true)));
    batch.extract_and_add_service_from_span(&service_span(Value::F64("1.5".to_string())));
    batch.extract_and_add_service_from_span(&service_span(Value::String(String::new())));
    let expected = vec!["-42".to_string(), "true".to_string(), "1.5".to_string()];
    assert_eq!(batch.get_extra_services(), &expected);
}

#[test]
fn batch_keeps_chunks_in_order_and_counts_them() {
    let mut batch = Batch::new(3, "main".to_string(), 7);
    assert_eq!(batch.last_flush(), 7);
    assert_eq!(batch.add_trace_chunk(vec![]), Ok(()));
    assert_eq!(batch.add_trace_chunk(vec![named_span(1)]), Ok(()));
    assert_eq!(batch.add_trace_chunk(vec![named_span(2), named_span(3)]), Ok(()));
    assert_eq!(batch.span_count(), 3);
    assert!(!batch.is_full());
    // one chunk may go beyond the limit
    assert_eq!(batch.add_trace_chunk(spans(5)), Ok(()));
    assert!(batch.is_full());
    assert_eq!(batch.add_trace_chunk(vec![]), Err(BatchFullError { spans_dropped: 0 }));
    assert_eq!(batch.span_count(), 8);

    let chunks = batch.export(99);
    assert_eq!(chunks.len(), 3);
    assert_eq!(chunks[0].chunk[0].span_context.span_id, [1; 8]);
    assert_eq!(chunks[1].chunk[1].span_context.span_id, [3; 8]);
    assert_eq!(batch.span_count(), 0);
    assert_eq!(batch.last_flush(), 99);
    assert_eq!(batch.export(100).len(), 0);
}

#[test]
fn received_spans_are_those_added_in_order() {
    let (tx, rx, mut waiter) = channel(100, 100, Arc::new(config()), 0);
    for id in 1..=4 {
        tx.add_trace_chunk(&mut waiter, vec![named_span(id)]).unwrap();
    }
    tx.trigger_flush(&mut waiter).unwrap();
    let (message, chunks) = ready(rx.receive(&mut waiter, SECOND, 1));
    assert_eq!(message, TraceExporterMessage::FlushTraceChunks);
    let ids: Vec<u8> = chunks.iter().map(|c| c.chunk[0].span_context.span_id[0]).collect();
    assert_eq!(ids, vec![1, 2, 3, 4]);

    // the flush is given once: the next call waits until it is time
    match rx.receive(&mut waiter, SECOND, 2) {
        Ok(ReceiveStep::Wait { left, deadline }) => {
            assert_eq!(left, SECOND - 1);
            assert_eq!(deadline, SECOND + 1);
        }
        _ => panic!("expected to wait"),
    }
}

#[test]
fn woken_receiver_looks_again_unless_time_is_over() {
    let (tx, rx, mut waiter) = channel(2, 4, Arc::new(config()), 0);
    let deadline = match rx.receive(&mut waiter, SECOND, 0) {
        Ok(ReceiveStep::Wait { deadline, .. }) => deadline,
        _ => panic!("expected to wait"),
    };
    tx.add_trace_chunk(&mut waiter, vec![named_span(1)]).unwrap();
    assert!(matches!(
        rx.woken(&mut waiter, deadline, false, 10),
        ReceiveStep::Wait { left: 999_999_990, .. }
    ));
    // where the time was over, a shutdown that was asked for meanwhile comes with the next call
    tx.trigger_shutdown(&mut waiter).unwrap();
    match rx.woken(&mut waiter, deadline, true, SECOND) {
        ReceiveStep::Ready(message, chunks) => {
            assert_eq!(message, TraceExporterMessage::FlushTraceChunksWithTimeout);
            assert_eq!(chunks.len(), 1);
        }
        _ => panic!("expected spans"),
    }
    let (message, chunks) = ready(rx.receive(&mut waiter, SECOND, SECOND));
    assert_eq!(message, TraceExporterMessage::Shutdown);
    assert_eq!(chunks.len(), 0);
}

#[test]
fn last_resource_is_received_first() {
    let (tx, rx, mut waiter) = channel(2, 4, Arc::new(config()), 0);
    let first = Resource::builder_empty().build();
    let second = Resource::builder_empty().with_service_name("second").build();
    tx.add_trace_chunk(&mut waiter, vec![named_span(1)]).unwrap();
    tx.trigger_shutdown(&mut waiter).unwrap();
    tx.set_resource(&mut waiter, first).unwrap();
    tx.set_resource(&mut waiter, second.clone()).unwrap();
    let (message, chunks) = ready(rx.receive(&mut waiter, SECOND, 0));
    assert_eq!(message, TraceExporterMessage::SetResource { resource: second });
    assert_eq!(chunks.len(), 0);
    let (message, chunks) = ready(rx.receive(&mut waiter, SECOND, 0));
    assert_eq!(message, TraceExporterMessage::Shutdown);
    assert_eq!(chunks.len(), 1);
}

#[test]
fn stopped_receiver_takes_nothing() {
    let (tx, rx, mut waiter) = channel(0, 4, Arc::new(config()), 0);
    rx.shutdown_done(&mut waiter).unwrap();
    take_notify(&mut waiter);
    let refused = Err(SenderError::AlreadyShutdown);
    assert_eq!(tx.add_trace_chunk(&mut waiter, spans(1)), refused);
    assert_eq!(tx.set_resource(&mut waiter, Resource::builder_empty().build()), refused);
    assert_eq!(tx.trigger_flush(&mut waiter), refused);
    assert_eq!(waiter.state.batch.span_count(), 0);
    assert!(waiter.state.set_resource.is_none());
    assert!(!waiter.state.flush_needed);
    assert!(!waiter.notify);
}

#[test]
fn poisoned_lock_is_reported() {
    let (tx, rx, mut waiter) = channel(2, 4, Arc::new(config()), 0);
    waiter.poisoned = true;
    let refused = Err(SenderError::MutexPoisoned);
    assert_eq!(tx.add_trace_chunk(&mut waiter, spans(1)), refused);
    assert_eq!(tx.trigger_flush(&mut waiter), refused);
    assert_eq!(tx.trigger_shutdown(&mut waiter), refused);
    assert!(matches!(rx.receive(&mut waiter, SECOND, 0), Err(MutexPoisonedError)));
    assert_eq!(rx.shutdown_done(&mut waiter), Err(MutexPoisonedError));
    assert_eq!(
        tx.wait_shutdown_done(&waiter, SECOND, 0),
        ShutdownWait::Done(Err(SenderError::MutexPoisoned))
    );
    waiter.state.metrics.spans_queued = 3;
    assert_eq!(QueueMetricsFetcher.get_metrics(&mut waiter), QueueMetrics::default());
    assert_eq!(waiter.state.metrics.spans_queued, 3);
}

#[test]
fn waiting_for_shutdown_ends() {
    let (tx, _rx, waiter) = channel(2, 4, Arc::new(config()), 0);
    assert_eq!(
        tx.wait_shutdown_done(&waiter, 0, 0),
        ShutdownWait::Done(Err(SenderError::TimedOut))
    );
    assert_eq!(
        tx.wait_shutdown_woken(&waiter, 10, Wake::Notified, 4),
        ShutdownWait::Wait { left: 6, deadline: 10 }
    );
    assert_eq!(
        tx.wait_shutdown_woken(&waiter, 10, Wake::Notified, 40),
        ShutdownWait::Wait { left: 0, deadline: 10 }
    );
    assert_eq!(
        tx.wait_shutdown_woken(&waiter, 10, Wake::Poisoned, 4),
        ShutdownWait::Done(Err(SenderError::MutexPoisoned))
    );
    assert_eq!(
        tx.wait_shutdown_woken(&waiter, 10, Wake::TimedOut, 10),
        ShutdownWait::Done(Err(SenderError::TimedOut))
    );
}

#[test]
fn queue_metrics_count_every_span_once() {
    let (tx, _rx, mut waiter) = channel(2, 4, Arc::new(config()), 0);
    tx.add_trace_chunk(&mut waiter, spans(5)).unwrap();
    assert!(tx.add_trace_chunk(&mut waiter, spans(3)).is_err());
    assert!(waiter.has_room(1));
    let metrics = QueueMetricsFetcher.get_metrics(&mut waiter);
    assert_eq!(metrics.spans_queued, 5);
    assert_eq!(metrics.spans_dropped_full_buffer, 3);
    assert_eq!(QueueMetricsFetcher.get_metrics(&mut waiter), QueueMetrics::default());
}

#[test]
fn room_is_left_until_a_number_overflows() {
    let (_tx, _rx, mut waiter) = channel(2, 4, Arc::new(config()), 0);
    waiter.state.metrics.spans_queued = usize::MAX - 2;
    assert!(waiter.has_room(2));
    assert!(!waiter.has_room(3));
    waiter.state.has_shutdown = true;
    assert!(waiter.has_room(3));
}

#[test]
fn exporter_settings_follow_the_configuration() {
    let parts = DatadogExporter::new(Arc::new(config()), 0);
    let settings = parts.settings;
    assert_eq!(settings.url, "http://localhost:8126");
    assert_eq!(settings.dogstatsd_url, "http://localhost:8125");
    assert_eq!(settings.tracer_version, "1.2.3");
    assert_eq!(settings.language, "rust");
    assert_eq!(settings.language_version, "1.90");
    assert_eq!(settings.service, "unnamed-rust-service");
    assert_eq!(settings.output_format, TraceExporterOutputFormat::V04);
    assert!(settings.health_metrics);
    assert!(settings.agent_rates_payload_version);
    assert!(!settings.client_computed_top_level);
    assert_eq!(settings.stats_interval, None);
    assert_eq!(settings.env, None);
    assert_eq!(settings.app_version, None);
    assert_eq!(settings.telemetry, None);
    assert!(parts.worker.otel_resource.is_empty());
    assert_eq!(parts.worker.otel_resource.schema_url(), None);

    let mut all = config();
    all.trace_partial_flush_enabled = true;
    all.trace_stats_computation_enabled = true;
    all.env = Some("prod".to_string());
    all.version = Some("2.0".to_string());
    all.telemetry_enabled = true;
    let settings = DatadogExporter::new(Arc::new(all), 0).settings;
    assert!(settings.client_computed_top_level);
    assert_eq!(settings.stats_interval, Some(10 * SECOND));
    assert_eq!(settings.env, Some("prod".to_string()));
    assert_eq!(settings.app_version, Some("2.0".to_string()));
    let telemetry = settings.telemetry.unwrap();
    assert_eq!(telemetry.heartbeat, 60_000);
    assert_eq!(telemetry.runtime_id, Some("id".to_string()));
    assert!(!telemetry.debug_enabled);
}

#[test]
fn exporter_flushes_beyond_the_threshold() {
    let parts = DatadogExporter::new(Arc::new(config()), 0);
    let mut waiter = parts.waiter;
    let exporter = parts.exporter;
    assert_eq!(SPAN_FLUSH_THRESHOLD, 3000);
    assert_eq!(MAX_BUFFERED_SPANS, 10_000);
    let done = ExporterStep::Done(Ok(()));
    assert_eq!(exporter.export_chunk_no_wait(&mut waiter, vec![]), done);
    assert_eq!(exporter.export_chunk_no_wait(&mut waiter, spans(3000)), done);
    assert!(!waiter.state.flush_needed);
    assert_eq!(exporter.export_chunk_no_wait(&mut waiter, spans(1)), done);
    assert!(waiter.state.flush_needed);
    assert_eq!(exporter.export_chunk_no_wait(&mut waiter, spans(7000)), done);
    assert_eq!(
        exporter.export_chunk_no_wait(&mut waiter, spans(2)),
        ExporterStep::Done(Err(OTelSdkError::InternalFailure(
            "DatadogExporter.export_chunk_no_wait: failed to add trace chunk: \
             BatchFull(BatchFullError { spans_dropped: 2 })"
                .to_string()
        )))
    );
    let metrics = exporter.queue_metrics().get_metrics(&mut waiter);
    assert_eq!(metrics.spans_queued, 10_001);
    assert_eq!(metrics.spans_dropped_full_buffer, 2);
}

#[test]
fn errors_are_written_as_they_are_debugged() {
    let errors = [
        SenderError::AlreadyShutdown,
        SenderError::TimedOut,
        SenderError::MutexPoisoned,
        SenderError::BatchFull(BatchFullError { spans_dropped: 0 }),
        SenderError::BatchFull(BatchFullError { spans_dropped: 1234 }),
    ];
    for error in errors {
        assert_eq!(error_text(error), format!("{error:?}"));
    }
}

#[test]
fn stopped_exporter_joins_and_fails() {
    let parts = DatadogExporter::new(Arc::new(config()), 0);
    let mut waiter = parts.waiter;
    let exporter = parts.exporter;
    exporter.trigger_shutdown(&mut waiter);
    assert!(waiter.state.shutdown_needed);
    parts.rx.shutdown_done(&mut waiter).unwrap();
    exporter.trigger_shutdown(&mut waiter);

    let steps = [
        (
            exporter.export_chunk_no_wait(&mut waiter, spans(1)),
            "DatadogExporter.export_chunk_no_wait: trace exporter has already shutdown",
        ),
        (
            exporter.set_resource(&mut waiter, Resource::builder_empty().build()),
            "DatadogExporter.set_resource: trace exporter has already shutdown",
        ),
        (
            exporter.force_flush(&mut waiter),
            "DatadogExporter.force_flush: trace exporter has already shutdown",
        ),
    ];
    for (step, message) in steps {
        let otherwise = match step {
            ExporterStep::Join { otherwise } => otherwise,
            _ => panic!("expected to join"),
        };
        assert_eq!(otherwise, Err(OTelSdkError::InternalFailure(message.to_string())));
        let joined = exporter.join(JoinOutcome::Ended, otherwise);
        assert_eq!(joined.result, Err(OTelSdkError::InternalFailure(message.to_string())));
        assert_eq!(joined.log, None);
    }
    let joined = exporter.join(JoinOutcome::AlreadyJoined, Ok(()));
    assert_eq!(joined.result, Err(OTelSdkError::AlreadyShutdown));
}

#[test]
fn poisoned_exporter_reports_it() {
    let parts = DatadogExporter::new(Arc::new(config()), 0);
    let mut waiter = parts.waiter;
    waiter.poisoned = true;
    let failed = |message: &str| {
        ExporterStep::Done(Err(OTelSdkError::InternalFailure(message.to_string())))
    };
    assert_eq!(
        parts.exporter.set_resource(&mut waiter, Resource::builder_empty().build()),
        failed("DatadogExporter.set_resource: failed to set resource: MutexPoisoned")
    );
    assert_eq!(
        parts.exporter.force_flush(&mut waiter),
        failed("DatadogExporter.force_flush: failed to trigger flush: MutexPoisoned")
    );
    assert_eq!(
        parts.exporter.wait_for_shutdown(&waiter, SECOND, 0),
        ExporterStep::Join { otherwise: Ok(()) }
    );
}

#[test]
fn exporter_waits_for_the_thread() {
    let parts = DatadogExporter::new(Arc::new(config()), 0);
    let mut waiter = parts.waiter;
    let exporter = parts.exporter;
    assert_eq!(
        exporter.wait_for_shutdown(&waiter, 0, 0),
        ExporterStep::Done(Err(OTelSdkError::Timeout(0)))
    );
    assert_eq!(
        exporter.wait_for_shutdown(&waiter, 100, 7),
        ExporterStep::Wait { left: 100, deadline: 107 }
    );
    assert_eq!(
        exporter.wait_for_shutdown_woken(&waiter, 100, 107, Wake::Poisoned, 9),
        ExporterStep::Join { otherwise: Ok(()) }
    );
    assert_eq!(
        exporter.wait_for_shutdown_woken(&waiter, 100, 107, Wake::TimedOut, 107),
        ExporterStep::Done(Err(OTelSdkError::Timeout(100)))
    );
    parts.rx.shutdown_done(&mut waiter).unwrap();
    assert_eq!(
        exporter.wait_for_shutdown_woken(&waiter, 100, 107, Wake::Notified, 9),
        ExporterStep::Join { otherwise: Ok(()) }
    );
}

#[test]
fn join_outcomes_are_reported() {
    let exporter = DatadogExporter::new(Arc::new(config()), 0).exporter;
    let internal = |message: &str| Err(OTelSdkError::InternalFailure(message.to_string()));
    assert_eq!(exporter.join(JoinOutcome::Ended, Ok(())).result, Ok(()));
    assert_eq!(
        exporter.join(JoinOutcome::LockPoisoned, Ok(())).result,
        internal("DatadogExporter.join: can't access worker task join handle")
    );
    assert_eq!(
        exporter.join(JoinOutcome::Panicked(Some("boom".to_string())), Ok(())).result,
        internal("DatadogExporter.join: worker panicked: boom")
    );
    assert_eq!(
        exporter.join(JoinOutcome::Panicked(None), Ok(())).result,
        internal("DatadogExporter.join: worker panicked: error message unknown")
    );
    let joined = exporter.join(
        JoinOutcome::Failed {
            error: TraceExporterError::ShutdownTimedOut(2_500_000),
            written: "Shutdown: timed out".to_string(),
        },
        Ok(()),
    );
    assert_eq!(joined.result, Err(OTelSdkError::Timeout(2_500_000)));
    let line = joined.log.unwrap();
    assert_eq!(line.level, LogLevel::Debug);
    assert_eq!(
        line.message,
        "DatadogExporter: Export error: Shutdown error: timed out after 2ms"
    );
    let joined = exporter.join(
        JoinOutcome::Failed {
            error: TraceExporterError::Builder("bad uri".to_string()),
            written: "Invalid builder input: bad uri".to_string(),
        },
        Ok(()),
    );
    assert_eq!(
        joined.result,
        internal("DatadogExporter.join: worker exited with error: Invalid builder input: bad uri")
    );
    assert_eq!(joined.log.unwrap().level, LogLevel::Error);
}

#[test]
fn export_errors_are_logged() {
    let detail = || "x".to_string();
    let cases = [
        (TraceExporterError::Builder(detail()), LogLevel::Error, "Builder error: x"),
        (
            TraceExporterError::InvalidWorkerState(detail()),
            LogLevel::Error,
            "Internal error: Invalid worker state: x",
        ),
        (TraceExporterError::Deserialization(detail()), LogLevel::Debug, "Deserialization error: x"),
        (TraceExporterError::Io(detail()), LogLevel::Debug, "IO error: x"),
        (TraceExporterError::Network(detail()), LogLevel::Debug, "Network error: x"),
        (TraceExporterError::Request(detail()), LogLevel::Debug, "Request error: x"),
        (TraceExporterError::Serialization(detail()), LogLevel::Debug, "Serialization error: x"),
        (TraceExporterError::EmptyResponse, LogLevel::Debug, "Agent error: empty response"),
        (
            TraceExporterError::ShutdownTimedOut(1_000_000_000),
            LogLevel::Debug,
            "Shutdown error: timed out after 1000ms",
        ),
        (
            TraceExporterError::Telemetry(detail()),
            LogLevel::Debug,
            "Instrumentation telemetry error: x",
        ),
    ];
    for (error, level, message) in cases {
        let line = log_trace_exporter_error(&error);
        assert_eq!(line.level, level);
        assert_eq!(line.message, format!("DatadogExporter: Export error: {message}"));
    }
}

#[test]
fn worker_sends_then_takes_the_resource() {
    assert_eq!(MAX_BATCH_TIME, SECOND);
    assert_eq!(SPAN_EXPORTER_SHUTDOWN_TIMEOUT, SECOND);
    let mut worker = TraceExporterWorker { otel_resource: Resource::builder_empty().build() };
    let chunks = || vec![TraceChunk { chunk: spans(1) }];

    let step = worker.run(Ok((TraceExporterMessage::FlushTraceChunks, chunks())));
    assert_eq!(step.send.unwrap().len(), 1);
    assert!(step.resource.is_none());
    assert!(!step.stop);

    let step = worker.run(Ok((TraceExporterMessage::FlushTraceChunksWithTimeout, vec![])));
    assert!(step.send.is_none());
    assert!(!step.stop);

    let step = worker.run(Ok((TraceExporterMessage::Shutdown, chunks())));
    assert_eq!(step.send.unwrap().len(), 1);
    assert!(step.stop);

    let named = Resource::builder_empty().with_service_name("named").build();
    let step = worker.run(Ok((
        TraceExporterMessage::SetResource { resource: named.clone() },
        vec![],
    )));
    assert!(!step.stop);
    worker.set_resource(step.resource);
    assert_eq!(worker.otel_resource, named);
    worker.set_resource(None);
    assert_eq!(worker.otel_resource, named);

    let step = worker.run(Err(MutexPoisonedError));
    assert!(step.send.is_none());
    assert!(step.stop);
}

#[test]
fn new_answers_are_handed_on() {
    let worker = TraceExporterWorker { otel_resource: Resource::builder_empty().build() };
    let changed = || AgentResponse::Changed { body: "rates".to_string() };
    assert_eq!(worker.handle_agent_response(changed(), true), Some("rates".to_string()));
    assert_eq!(worker.handle_agent_response(changed(), false), None);
    assert_eq!(worker.handle_agent_response(AgentResponse::Unchanged, true), None);
    let after = worker.export_trace_chunks(Ok(changed()), true);
    assert_eq!(after.handed_on, Some("rates".to_string()));
    assert_eq!(after.log, None);
    let after = worker.export_trace_chunks(Err(TraceExporterError::EmptyResponse), true);
    assert_eq!(after.handed_on, None);
    assert_eq!(after.log.unwrap().level, LogLevel::Debug);
}

#[test]
fn only_one_shutdown_succeeds() {
    let parts = DatadogExporter::new(Arc::new(config()), 0);
    let mut waiter = parts.waiter;
    let exporter = parts.exporter;
    parts.rx.shutdown_done(&mut waiter).unwrap();
    let mut handle = TraceExporterHandle::new(7);
    for expected in [Ok(()), Err(OTelSdkError::AlreadyShutdown)] {
        let otherwise = match exporter.wait_for_shutdown(&waiter, 100, 0) {
            ExporterStep::Join { otherwise } => otherwise,
            _ => panic!("expected to join"),
        };
        let outcome = match handle.take() {
            Ok(thread) => {
                assert_eq!(thread, 7);
                JoinOutcome::Ended
            }
            Err(outcome) => outcome,
        };
        assert_eq!(exporter.join(outcome, otherwise).result, expected);
    }
}

#[test]
fn spans_come_out_in_order_however_calls_alternate() {
    let (tx, rx, mut waiter) = channel(1, 2, Arc::new(config()), 0);
    let mut received: Vec<u8> = Vec::new();
    for id in 1..=6 {
        let taken = tx.add_trace_chunk(&mut waiter, vec![named_span(id)]);
        // the fourth span comes when three wait already
        assert_eq!(taken.is_ok(), id != 4);
        if id == 2 {
            tx.set_resource(&mut waiter, Resource::builder_empty().build()).unwrap();
            let (_, chunks) = ready(rx.receive(&mut waiter, SECOND, 0));
            assert!(chunks.is_empty());
        }
        if id == 4 {
            let (_, chunks) = ready(rx.receive(&mut waiter, SECOND, 0));
            received.extend(chunks.iter().map(|c| c.chunk[0].span_context.span_id[0]));
        }
    }
    tx.trigger_shutdown(&mut waiter).unwrap();
    let (_, chunks) = ready(rx.receive(&mut waiter, SECOND, 0));
    received.extend(chunks.iter().map(|c| c.chunk[0].span_context.span_id[0]));
    assert_eq!(received, vec![1, 2, 3, 5, 6]);
}
