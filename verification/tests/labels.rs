use datadog_opentelemetry::active_spans::ActiveSpanMetadata;
use datadog_opentelemetry::config::Config;
use datadog_opentelemetry::context_labels::{
    extract, label_call, label_call_at, labelled_span, ContextLabelObserver, ContextLabelWriter,
    ExtractedSpanData, LabelCall, LoggingContextWriter,
};
use datadog_opentelemetry::custom_labels_writer::{CustomLabelsWriter, LabelValue, LabelsetState};
use datadog_opentelemetry::registry::TraceRegistry;
use datadog_opentelemetry::sampling::TracePropagationData;
use datadog_opentelemetry::span::SpanContext;
use datadog_opentelemetry::worker::LogLevel;
use std::sync::{Arc, Mutex};

fn registry() -> TraceRegistry {
    TraceRegistry::new(Arc::new(Config {
        enabled: true,
        service: "unnamed-rust-service".to_string(),
        service_is_default: true,
        env: None,
        version: None,
        trace_agent_url: "http://localhost:8126".to_string(),
        dogstatsd_agent_url: "http://localhost:8125".to_string(),
        tracer_version: "1.2.3".to_string(),
        language: "rust".to_string(),
        language_version: "1.90".to_string(),
        runtime_id: "id".to_string(),
        trace_partial_flush_enabled: false,
        trace_partial_flush_min_spans: 300,
        trace_stats_computation_enabled: false,
        telemetry_enabled: false,
        telemetry_heartbeat_millis: 60_000,
        remote_config_enabled: false,
    }))
}

fn context(span: u8) -> SpanContext {
    SpanContext { trace_id: [9; 16], span_id: [span; 8], trace_flags: 1, is_remote: false }
}

type Written = Option<([u8; 16], [u8; 8], [u8; 8], Option<String>)>;

#[derive(Clone)]
struct Recorder {
    calls: Arc<Mutex<Vec<Written>>>,
}

impl ContextLabelWriter for Recorder {
    fn write_labels(&self, data: &ExtractedSpanData<'_>) {
        self.calls.lock().unwrap().push(Some((
            data.trace_id,
            data.span_id,
            data.local_root_span_id,
            data.http_route.map(|route| route.to_string()),
        )));
    }

    fn clear_labels(&self) {
        self.calls.lock().unwrap().push(None);
    }
}

#[test]
fn labels_follow_the_context() {
    let recorder = Recorder { calls: Arc::new(Mutex::new(Vec::new())) };
    let observer = ContextLabelObserver::new(recorder.clone());
    let mut traces = registry();

    // a span that the registry does not know is its own root
    observer.on_context_enter(&traces, None, Some(context(2)));

    traces.register_local_root_span([9; 16], [1; 8]);
    traces.register_span([9; 16], [2; 8], TracePropagationData::empty());
    observer.on_context_enter(&traces, None, Some(context(2)));
    traces.set_active_span_metadata(
        [9; 16],
        [2; 8],
        ActiveSpanMetadata { http_route: Some("/do_work".to_string()) },
    );
    observer.on_context_exit(&traces, None, Some(context(2)));

    // no span, an invalid one, and one that is not sampled
    observer.on_context_exit(&traces, Some(context(2)), None);
    observer.on_context_enter(&traces, None, Some(context(0)));
    let mut unsampled = context(2);
    unsampled.trace_flags = 0;
    observer.on_context_enter(&traces, None, Some(unsampled));

    let calls = recorder.calls.lock().unwrap().clone();
    assert_eq!(
        calls,
        vec![
            Some(([9; 16], [2; 8], [2; 8], None)),
            Some(([9; 16], [2; 8], [1; 8], None)),
            Some(([9; 16], [2; 8], [1; 8], Some("/do_work".to_string()))),
            None,
            None,
            None,
        ]
    );
}

#[test]
fn only_valid_sampled_spans_are_labelled() {
    assert_eq!(labelled_span(Some(context(1))), Some(context(1)));
    assert_eq!(labelled_span(Some(context(0))), None);
    assert_eq!(labelled_span(None), None);
    let data = extract(&context(1), None, Some("/r"));
    assert_eq!(data.local_root_span_id, [1; 8]);
    assert_eq!(data.http_route, Some("/r"));
    let data = extract(&context(1), Some([7; 8]), None);
    assert_eq!(data.local_root_span_id, [7; 8]);
}

#[test]
fn labels_are_logged() {
    let writer = LoggingContextWriter::new();
    let mut data = ExtractedSpanData {
        trace_id: [0, 0, 0, 0, 0, 0, 0, 0, 0, 0, 0, 0, 0, 0, 1, 0xab],
        span_id: [0, 0, 0, 0, 0, 0, 0, 2],
        local_root_span_id: [0, 0, 0, 0, 0, 0, 0, 3],
        http_route: None,
    };
    let line = writer.write_labels(&data);
    assert_eq!(line.level, LogLevel::Debug);
    assert_eq!(
        line.message,
        format!(
            "trace context entered: trace_id={:032x}, span_id={:016x}, local_root_span_id={:016x}",
            0x1ab, 2, 3
        )
    );
    data.http_route = Some("/r");
    assert_eq!(writer.write_labels(&data).message, format!("{}, http_route=/r", line.message));
    assert_eq!(writer.clear_labels().message, "trace context cleared");
}

#[test]
fn thread_labels_are_planned() {
    let writer = CustomLabelsWriter::new(3, 4);
    let mut data = ExtractedSpanData {
        trace_id: [1; 16],
        span_id: [2; 8],
        local_root_span_id: [3; 8],
        http_route: Some("/r"),
    };
    assert!(writer.write_labels(&data, LabelsetState::AllocationFailed).is_none());
    let plan = writer.write_labels(&data, LabelsetState::Present).unwrap();
    assert_eq!(
        plan.labels,
        vec![
            ("trace_id", LabelValue::TraceId([1; 16])),
            ("span_id", LabelValue::SpanId([2; 8])),
            ("local_root_span_id", LabelValue::SpanId([3; 8])),
            ("http_route", LabelValue::Text("/r")),
        ]
    );
    assert_eq!(plan.record_key, [2; 8]);
    assert_eq!(plan.record_trace_id, [1; 16]);
    assert_eq!(plan.record_span_id, [2; 8]);
    assert_eq!(plan.record_local_root_span_id, [3; 8]);
    assert_eq!(plan.record_attributes, vec![(3, "/r"), (4, "123abc")]);
    data.http_route = None;
    let plan = writer.write_labels(&data, LabelsetState::Present).unwrap();
    assert_eq!(plan.labels.len(), 3);
    assert_eq!(plan.record_attributes, vec![(4, "123abc")]);
}

#[test]
fn thread_labels_are_cleared() {
    let writer = CustomLabelsWriter::new(3, 4);
    let plan = writer.clear_labels(true);
    assert_eq!(plan.delete, vec!["trace_id", "span_id", "local_root_span_id", "http_route"]);
    assert!(plan.clear_record);
    let plan = writer.clear_labels(false);
    assert!(plan.delete.is_empty());
    assert!(plan.clear_record);
}

#[test]
fn one_call_follows_from_the_new_context() {
    let mut traces = registry();
    traces.register_local_root_span_at(5, [9; 16], [1; 8]);
    traces.set_active_span_metadata_at(
        5,
        [9; 16],
        [2; 8],
        ActiveSpanMetadata { http_route: Some("/do_work".to_string()) },
    );
    let data = ExtractedSpanData {
        trace_id: [9; 16],
        span_id: [2; 8],
        local_root_span_id: [1; 8],
        http_route: Some("/do_work"),
    };
    assert_eq!(label_call_at(&traces, 5, Some(context(2))), LabelCall::Write(data));
    let unknown = ExtractedSpanData { local_root_span_id: [2; 8], http_route: None, ..data };
    assert_eq!(label_call_at(&traces, 6, Some(context(2))), LabelCall::Write(unknown));
    assert_eq!(label_call_at(&traces, 5, None), LabelCall::Clear);
    assert_eq!(label_call(&traces, Some(context(0))), LabelCall::Clear);
    assert!(traces.get_active_span_metadata_at(5, [9; 16], [3; 8]).is_none());
}
