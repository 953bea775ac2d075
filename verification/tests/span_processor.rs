use datadog_opentelemetry::active_spans::ActiveSpanMetadata;
use datadog_opentelemetry::config::Config;
use datadog_opentelemetry::registry::{
    shard_index, InnerTraceRegistry, PartialFlush, RegisterTracePropagationResult, TraceRegistry,
    TraceRegistryMetrics, TRACE_REGISTRY_SHARDS,
};
use datadog_opentelemetry::sampling::{SamplingDecision, Tags, TracePropagationData};
use datadog_opentelemetry::span::{FinishedSpan, SpanContext};
use datadog_opentelemetry::span_processor::{DatadogSpanProcessor, StartKind, StartedSpan};
use datadog_opentelemetry::value::{Array, KeyValue, Value};
use opentelemetry::trace::TraceFlags;
use opentelemetry::{Key, SpanId, TraceId};
use opentelemetry_sdk::trace::{SpanData, SpanEvents, SpanLinks};
use opentelemetry_sdk::Resource;
use std::borrow::Cow;
use std::sync::Arc;

fn config() -> Config {
    Config {
        enabled: true,
        service: "unnamed-rust-service".to_string(),
        service_is_default: true,
        env: None,
        version: None,
        trace_agent_url: "http://localhost:8126".to_string(),
        dogstatsd_agent_url: "http://localhost:8125".to_string(),
        tracer_version: "1.2.3".to_string(),
        language: "rust".to_string(),
        language_version: "1.90".to_string(),
        runtime_id: "id".to_string(),
        trace_partial_flush_enabled: false,
        trace_partial_flush_min_spans: 300,
        trace_stats_computation_enabled: false,
        telemetry_enabled: false,
        telemetry_heartbeat_millis: 60_000,
        remote_config_enabled: false,
    }
}

fn config_with_service(service: &str) -> Config {
    let mut config = config();
    config.service = service.to_string();
    config.service_is_default = false;
    config
}

fn config_with_partial_flush(min_spans: usize) -> Config {
    let mut config = config();
    config.trace_partial_flush_enabled = true;
    config.trace_partial_flush_min_spans = min_spans;
    config
}

fn create_test_span_data(trace_id: [u8; 16], span_id: [u8; 8]) -> FinishedSpan {
    FinishedSpan {
        span_context: SpanContext { trace_id, span_id, trace_flags: 0, is_remote: false },
        attributes: Vec::new(),
        rest: SpanData {
            span_context: opentelemetry::trace::SpanContext::new(
                TraceId::from_bytes(trace_id),
                SpanId::from_bytes(span_id),
                TraceFlags::default(),
                false,
                Default::default(),
            ),
            parent_span_id: SpanId::INVALID,
            parent_span_is_remote: false,
            span_kind: opentelemetry::trace::SpanKind::Internal,
            name: Cow::Borrowed("test_span"),
            start_time: std::time::SystemTime::now(),
            end_time: std::time::SystemTime::now(),
            attributes: Vec::new(),
            dropped_attributes_count: 0,
            events: SpanEvents::default(),
            links: SpanLinks::default(),
            status: opentelemetry::trace::Status::Unset,
            instrumentation_scope: Default::default(),
        },
    }
}

fn empty() -> TracePropagationData {
    TracePropagationData::empty()
}

fn decided(priority: i8) -> TracePropagationData {
    TracePropagationData {
        sampling_decision: SamplingDecision {
            priority: Some(priority),
            mechanism: Some("-0".to_string()),
        },
        origin: Some("rum".to_string()),
        tags: None,
    }
}

fn text(value: &str) -> opentelemetry::Value {
    opentelemetry::Value::String(value.to_string().into())
}

fn get(resource: &Resource, key: &'static str) -> Option<opentelemetry::Value> {
    resource.get(&Key::from_static_str(key))
}

fn new_registry() -> TraceRegistry {
    TraceRegistry::new(Arc::new(config()))
}

#[test]
fn test_set_resource_from_empty_dd_config() {
    let (processor, _) = DatadogSpanProcessor::new(Arc::new(config()));

    let otel_resource = Resource::builder()
        .with_attribute(opentelemetry::KeyValue::new("key1", "value1"))
        .build();

    let dd_resource = processor.set_resource(otel_resource).resource;
    assert_eq!(get(&dd_resource, "service.name"), Some(text("unnamed-rust-service")));
    assert_eq!(get(&dd_resource, "key1"), Some(text("value1")));
}

#[test]
fn test_set_resource_from_dd_config() {
    let (processor, _) = DatadogSpanProcessor::new(Arc::new(config_with_service("test-service")));

    let attributes = [opentelemetry::KeyValue::new("key_schema", "value_schema")];

    let otel_resource = Resource::builder_empty()
        .with_attribute(opentelemetry::KeyValue::new("key1", "value1"))
        .with_schema_url(attributes, "schema_url")
        .build();

    let dd_resource = processor.set_resource(otel_resource).resource;
    assert_eq!(get(&dd_resource, "service.name"), Some(text("test-service")));
    assert_eq!(get(&dd_resource, "key1"), Some(text("value1")));
    assert_eq!(get(&dd_resource, "key_schema"), Some(text("value_schema")));

    assert_eq!(dd_resource.schema_url(), Some("schema_url"));
}

#[test]
fn test_set_resource_empty_builder_from_dd_config() {
    let (processor, _) = DatadogSpanProcessor::new(Arc::new(config_with_service("test-service")));

    let otel_resource = Resource::builder_empty()
        .with_attribute(opentelemetry::KeyValue::new("key1", "value1"))
        .build();

    let dd_resource = processor.set_resource(otel_resource).resource;
    assert_eq!(get(&dd_resource, "service.name"), Some(text("test-service")));
    assert_eq!(get(&dd_resource, "key1"), Some(text("value1")));
}

#[test]
fn test_dd_config_non_default_service() {
    let (processor, _) = DatadogSpanProcessor::new(Arc::new(config_with_service("test-service")));

    let otel_resource = Resource::builder().with_service_name("otel-service").build();

    let update = processor.set_resource(otel_resource);
    assert_eq!(get(&update.resource, "service.name"), Some(text("test-service")));
    assert_eq!(update.service_name, Some("test-service".to_string()));
}

#[test]
fn test_dd_config_default_service() {
    let (processor, _) = DatadogSpanProcessor::new(Arc::new(config()));

    let otel_resource = Resource::builder().with_service_name("otel-service").build();

    let update = processor.set_resource(otel_resource);
    assert_eq!(get(&update.resource, "service.name"), Some(text("otel-service")));
    assert_eq!(update.service_name, Some("otel-service".to_string()));
}

#[test]
fn test_stats_single_span_trace() {
    let mut registry = new_registry();
    let trace_id = [1u8; 16];
    let span_id = [1u8; 8];

    // Register and finish a single span
    registry.register_local_root_trace_propagation_data(trace_id, empty());
    registry.register_local_root_span(trace_id, span_id);

    let span_data = create_test_span_data(trace_id, span_id);
    registry.finish_span(trace_id, span_data);

    let stats = registry.get_metrics();
    assert_eq!(stats.spans_created, 1);
    assert_eq!(stats.spans_finished, 1);
    assert_eq!(stats.trace_segments_created, 1);
    assert_eq!(stats.trace_segments_closed, 1);
}

#[test]
fn test_stats_multiple_spans_single_trace() {
    let mut registry = new_registry();
    let trace_id = [2u8; 16];
    let root_span_id = [1u8; 8];
    let child1_span_id = [2u8; 8];
    let child2_span_id = [3u8; 8];

    // Register root span
    registry.register_local_root_trace_propagation_data(trace_id, empty());
    registry.register_local_root_span(trace_id, root_span_id);

    // Register child spans
    registry.register_span(trace_id, child1_span_id, empty());
    registry.register_span(trace_id, child2_span_id, empty());

    // Finish all spans
    let root_span = create_test_span_data(trace_id, root_span_id);
    let child1_span = create_test_span_data(trace_id, child1_span_id);
    let child2_span = create_test_span_data(trace_id, child2_span_id);

    assert!(
        registry.finish_span(trace_id, child1_span).is_none(),
        "Should not flush incomplete trace"
    );
    assert!(
        registry.finish_span(trace_id, child2_span).is_none(),
        "Should not flush incomplete trace"
    );
    assert!(
        registry.finish_span(trace_id, root_span).is_some(),
        "Should flush complete trace"
    );

    let stats = registry.get_metrics();
    assert_eq!(stats.spans_created, 3);
    assert_eq!(stats.spans_finished, 3);
    assert_eq!(stats.trace_segments_created, 1);
    assert_eq!(stats.trace_segments_closed, 1);
}

#[test]
fn test_stats_multiple_independent_traces() {
    let mut registry = new_registry();

    // Create 3 independent traces
    for i in 1..=3 {
        let trace_id = [i; 16];
        let span_id = [i; 8];

        registry.register_local_root_trace_propagation_data(trace_id, empty());
        registry.register_local_root_span(trace_id, span_id);

        let span_data = create_test_span_data(trace_id, span_id);
        registry.finish_span(trace_id, span_data);
    }

    let stats = registry.get_metrics();
    assert_eq!(stats.spans_created, 3, "Expected 3 spans created");
    assert_eq!(stats.spans_finished, 3, "Expected 3 spans finished");
    assert_eq!(stats.trace_segments_created, 3, "Expected 3 trace segments created");
    assert_eq!(stats.trace_segments_closed, 3, "Expected 3 trace segments closed");
}

#[test]
fn test_stats_unfinished_trace() {
    let mut registry = new_registry();
    let trace_id = [4u8; 16];
    let root_span_id = [1u8; 8];
    let child_span_id = [2u8; 8];

    // Register root and child spans
    registry.register_local_root_trace_propagation_data(trace_id, empty());
    registry.register_local_root_span(trace_id, root_span_id);
    registry.register_span(trace_id, child_span_id, empty());

    // Only finish the root span
    let root_span = create_test_span_data(trace_id, root_span_id);
    assert!(
        registry.finish_span(trace_id, root_span).is_none(),
        "Should not flush incomplete trace"
    );

    let stats = registry.get_metrics();
    assert_eq!(stats.spans_created, 2);
    assert_eq!(stats.spans_finished, 1);
    assert_eq!(stats.trace_segments_created, 1);
    assert_eq!(stats.trace_segments_closed, 0);
}

#[test]
fn test_stats_orphaned_span() {
    let mut registry = new_registry();
    let trace_id = [5u8; 16];
    let span_id = [1u8; 8];

    // Finish a span without registering it first
    let span_data = create_test_span_data(trace_id, span_id);
    assert!(
        registry.finish_span(trace_id, span_data).is_some(),
        "Should flush orphaned span immediately"
    );

    let stats = registry.get_metrics();
    assert_eq!(stats.spans_created, 0);
    assert_eq!(stats.spans_finished, 1);
    assert_eq!(stats.trace_segments_created, 1);
    assert_eq!(stats.trace_segments_closed, 1);
}

#[test]
fn test_stats_reset_after_get() {
    let mut registry = new_registry();
    let trace_id = [6u8; 16];
    let span_id = [1u8; 8];

    // Create and finish a trace
    registry.register_local_root_trace_propagation_data(trace_id, empty());
    registry.register_local_root_span(trace_id, span_id);
    let span_data = create_test_span_data(trace_id, span_id);
    registry.finish_span(trace_id, span_data);

    // Get stats (should reset them)
    let stats1 = registry.get_metrics();
    assert_eq!(stats1.spans_created, 1);

    // Get stats again (should be zero)
    let stats2 = registry.get_metrics();
    assert_eq!(stats2.spans_created, 0);
    assert_eq!(stats2.spans_finished, 0);
    assert_eq!(stats2.trace_segments_created, 0);
    assert_eq!(stats2.trace_segments_closed, 0);
}

#[test]
fn test_stats_across_multiple_shards() {
    let mut registry = new_registry();

    // Create traces that will likely hit different shards
    let num_traces = 100;
    for i in 0..num_traces {
        let trace_id = (i as u128).to_be_bytes();
        let span_id = [i as u8; 8];

        registry.register_local_root_trace_propagation_data(trace_id, empty());
        registry.register_local_root_span(trace_id, span_id);

        let span_data = create_test_span_data(trace_id, span_id);
        registry.finish_span(trace_id, span_data);
    }

    let stats = registry.get_metrics();
    assert_eq!(stats.spans_created, num_traces);
    assert_eq!(stats.spans_finished, num_traces);
    assert_eq!(stats.trace_segments_created, num_traces);
    assert_eq!(stats.trace_segments_closed, num_traces);
}

#[test]
fn test_stats_complex_trace_hierarchy() {
    let mut registry = new_registry();
    let trace_id = [7u8; 16];
    let root_span_id = [1u8; 8];

    // Register root
    registry.register_local_root_trace_propagation_data(trace_id, empty());
    registry.register_local_root_span(trace_id, root_span_id);

    // Register 5 child spans
    for i in 2..=6 {
        let child_span_id = [i; 8];
        registry.register_span(trace_id, child_span_id, empty());
    }

    // Finish all spans
    for i in 1..=6 {
        let span_id = [i; 8];
        let span_data = create_test_span_data(trace_id, span_id);
        let result = registry.finish_span(trace_id, span_data);
        if i == 6 {
            assert!(result.is_some(), "Should flush after last span");
        } else {
            assert!(result.is_none(), "Should not flush before all spans complete");
        }
    }

    let stats = registry.get_metrics();
    assert_eq!(stats.spans_created, 6);
    assert_eq!(stats.spans_finished, 6);
    assert_eq!(stats.trace_segments_created, 1)
}

#[test]
fn test_partial_flush_disabled_by_default() {
    let mut registry = new_registry();
    let trace_id = [8u8; 16];
    let root_span_id = [1u8; 8];

    // Register root span
    registry.register_local_root_trace_propagation_data(trace_id, empty());
    registry.register_local_root_span(trace_id, root_span_id);

    // Register and finish more than default min_spans
    for i in 2..=400 {
        let child_span_id = [0, 0, 0, 0, 0, 0, (i / 256) as u8, i as u8];
        registry.register_span(trace_id, child_span_id, empty());
        let span_data = create_test_span_data(trace_id, child_span_id);

        // With partial flushing disabled, no trace should be flushed until all spans are done
        let result = registry.finish_span(trace_id, span_data);
        assert!(
            result.is_none(),
            "Should not flush until all spans are done (disabled by default)"
        );
    }

    // Finish root span - now it should flush
    let root_span = create_test_span_data(trace_id, root_span_id);
    let result = registry.finish_span(trace_id, root_span);
    assert!(result.is_some(), "Should flush after all spans are done");
    let trace = result.unwrap();
    assert_eq!(trace.finished_spans.len(), 400);
    let metrics = registry.get_metrics();
    assert_eq!(metrics.trace_partial_flush_count, 0);
    assert_eq!(metrics.trace_segments_closed, 1);
}

#[test]
fn test_partial_flush_enabled_min_spans() {
    let mut registry = TraceRegistry::new(Arc::new(config_with_partial_flush(10)));
    let trace_id = [9u8; 16];
    let root_span_id = [1u8; 8];

    // Register root span
    registry.register_local_root_trace_propagation_data(trace_id, empty());
    registry.register_local_root_span(trace_id, root_span_id);

    // Register 15 child spans
    for i in 2..=16 {
        let child_span_id = [i; 8];
        registry.register_span(trace_id, child_span_id, empty());
    }

    // Finish 9 spans (below threshold)
    for i in 2..=10 {
        let span_data = create_test_span_data(trace_id, [i; 8]);
        let result = registry.finish_span(trace_id, span_data);
        assert!(result.is_none(), "Should not flush until min_spans threshold is reached");
    }

    // Finish the 10th span (reaches threshold)
    let span_data = create_test_span_data(trace_id, [11; 8]);
    let result = registry.finish_span(trace_id, span_data);
    assert!(result.is_some(), "Should flush when min_spans threshold is reached");
    let trace = result.unwrap();
    let metrics = registry.get_metrics();
    assert_eq!(metrics.trace_partial_flush_count, 1);
    assert_eq!(metrics.trace_segments_closed, 0);

    assert_eq!(trace.finished_spans.len(), 10);
    assert_eq!(
        trace.open_span_count, 6,
        "Should have 6 open spans remaining (root + 5 children)"
    );
}

#[test]
fn test_partial_flush_multiple_flushes() {
    let mut registry = TraceRegistry::new(Arc::new(config_with_partial_flush(5)));
    let trace_id = [10u8; 16];
    let root_span_id = [1u8; 8];

    // Register root span
    registry.register_local_root_trace_propagation_data(trace_id, empty());
    registry.register_local_root_span(trace_id, root_span_id);

    // Register 20 child spans
    for i in 2..=21 {
        let child_span_id = [i; 8];
        registry.register_span(trace_id, child_span_id, empty());
    }

    let mut total_flushed = 0;
    let mut flush_count = 0;

    // Finish all child spans
    for i in 2..=21 {
        let span_data = create_test_span_data(trace_id, [i; 8]);
        if let Some(trace) = registry.finish_span(trace_id, span_data) {
            total_flushed += trace.finished_spans.len();
            flush_count += 1;
        }
    }

    // Should have multiple partial flushes
    assert_eq!(flush_count, 4, "Should have 4 partial flushes");
    assert_eq!(total_flushed, 20, "Should have flushed all 20 child spans");
    let metrics = registry.get_metrics();
    assert_eq!(metrics.trace_partial_flush_count, 4);
    assert_eq!(metrics.trace_segments_closed, 0);

    // Finish root span - final flush
    let root_span = create_test_span_data(trace_id, root_span_id);
    let result = registry.finish_span(trace_id, root_span);
    assert!(result.is_some(), "Should flush root span");
    let trace = result.unwrap();
    assert_eq!(trace.finished_spans.len(), 1);
    assert_eq!(trace.open_span_count, 0);
    let metrics = registry.get_metrics();
    assert_eq!(metrics.trace_partial_flush_count, 0, "Last flush is a complete one");
    assert_eq!(metrics.trace_segments_closed, 1);
}

#[test]
fn root_span_comes_first() {
    let mut registry = new_registry();
    let trace_id = [11u8; 16];
    registry.register_local_root_trace_propagation_data(trace_id, empty());
    registry.register_local_root_span(trace_id, [1; 8]);
    for i in 2..=4 {
        registry.register_span(trace_id, [i; 8], empty());
    }
    for i in [2u8, 3, 1] {
        assert!(registry.finish_span(trace_id, create_test_span_data(trace_id, [i; 8])).is_none());
    }
    let trace = registry.finish_span(trace_id, create_test_span_data(trace_id, [4; 8])).unwrap();
    let ids: Vec<u8> =
        trace.finished_spans.iter().map(|s| s.span_context.span_id[0]).collect();
    assert_eq!(ids, vec![1, 3, 2, 4]);
    assert_eq!(trace.local_root_span_id, [1; 8]);
}

#[test]
fn first_decision_stands() {
    let mut registry = new_registry();
    let trace_id = [12u8; 16];
    assert!(matches!(
        registry.register_local_root_trace_propagation_data(trace_id, empty()),
        RegisterTracePropagationResult::New
    ));
    // data without a decision is replaced, and one more span is open
    assert!(matches!(
        registry.register_local_root_trace_propagation_data(trace_id, decided(2)),
        RegisterTracePropagationResult::New
    ));
    match registry.register_local_root_trace_propagation_data(trace_id, decided(-1)) {
        RegisterTracePropagationResult::Existing(decision) => {
            assert_eq!(decision.priority, Some(2));
            assert_eq!(decision.mechanism, Some("-0".to_string()));
        }
        RegisterTracePropagationResult::New => panic!("the decision was replaced"),
    }
    let data = registry.get_trace_propagation_data(trace_id);
    assert_eq!(data.sampling_decision.priority, Some(2));
    assert_eq!(data.origin, Some("rum".to_string()));
    assert!(registry.finish_span(trace_id, create_test_span_data(trace_id, [1; 8])).is_none());
    assert!(registry.finish_span(trace_id, create_test_span_data(trace_id, [2; 8])).is_some());
    assert_eq!(registry.get_metrics().spans_created, 1);
    let unknown = registry.get_trace_propagation_data([99; 16]);
    assert_eq!(unknown.sampling_decision.priority, None);
    assert_eq!(unknown.origin, None);
}

#[test]
fn first_root_stands() {
    let mut registry = new_registry();
    let trace_id = [13u8; 16];
    assert_eq!(registry.get_local_root_span_id(trace_id), None);
    registry.register_local_root_trace_propagation_data(trace_id, empty());
    assert_eq!(registry.get_local_root_span_id(trace_id), None);
    registry.register_local_root_span(trace_id, [7; 8]);
    registry.register_local_root_span(trace_id, [8; 8]);
    assert_eq!(registry.get_local_root_span_id(trace_id), Some([7; 8]));
    // the first span of an unknown trace is its root
    registry.register_span([14; 16], [3; 8], empty());
    registry.register_span([14; 16], [4; 8], empty());
    assert_eq!(registry.get_local_root_span_id([14; 16]), Some([3; 8]));
}

#[test]
fn metadata_is_read_back_until_the_span_finishes() {
    let mut registry = new_registry();
    let trace_id = [15u8; 16];
    let route = |registry: &TraceRegistry, span_id| {
        registry.with_extracted_span_data(trace_id, span_id, [1; 8], |route| {
            route.map(|route| route.to_string())
        })
    };
    // an unknown trace keeps nothing
    registry.set_active_span_metadata(
        trace_id,
        [1; 8],
        ActiveSpanMetadata { http_route: Some("/lost".to_string()) },
    );
    assert_eq!(route(&registry, [1; 8]), None);

    registry.register_span(trace_id, [1; 8], empty());
    registry.register_span(trace_id, [2; 8], empty());
    assert_eq!(route(&registry, [1; 8]), None);
    let metadata = ActiveSpanMetadata { http_route: Some("/do_work".to_string()) };
    registry.set_active_span_metadata(trace_id, [1; 8], metadata.clone());
    registry.set_active_span_metadata(trace_id, [2; 8], ActiveSpanMetadata { http_route: None });
    assert_eq!(route(&registry, [1; 8]), Some(Some("/do_work".to_string())));
    assert_eq!(route(&registry, [2; 8]), Some(None));
    registry.finish_span(trace_id, create_test_span_data(trace_id, [1; 8]));
    assert_eq!(route(&registry, [1; 8]), None);
}

#[test]
fn partial_flush_keeps_a_trace_without_open_spans() {
    let mut registry = TraceRegistry::new(Arc::new(config_with_partial_flush(1)));
    let trace_id = [16u8; 16];
    registry.register_span(trace_id, [1; 8], decided(1));
    let trace = registry.finish_span(trace_id, create_test_span_data(trace_id, [1; 8])).unwrap();
    assert_eq!(trace.open_span_count, 0);
    assert_eq!(trace.propagation_data.sampling_decision.priority, Some(1));
    assert_eq!(registry.get_local_root_span_id(trace_id), Some([1; 8]));
    let metrics = registry.get_metrics();
    assert_eq!(metrics.trace_partial_flush_count, 1);
    assert_eq!(metrics.trace_segments_closed, 0);
}

#[test]
fn traces_do_not_touch_each_other() {
    let mut registry = new_registry();
    registry.register_span([17; 16], [1; 8], decided(1));
    registry.register_span([18; 16], [1; 8], decided(2));
    registry.finish_span([17; 16], create_test_span_data([17; 16], [1; 8]));
    assert_eq!(registry.get_local_root_span_id([17; 16]), None);
    assert_eq!(registry.get_local_root_span_id([18; 16]), Some([1; 8]));
    let data = registry.get_trace_propagation_data([18; 16]);
    assert_eq!(data.sampling_decision.priority, Some(2));
}

#[test]
fn parts_behave_as_one_registry_for_any_hash() {
    let mut whole = InnerTraceRegistry::new(PartialFlush { enabled: true, min_spans: 2 });
    let mut parts = TraceRegistry::new(Arc::new(config_with_partial_flush(2)));
    let hash = |trace_id: [u8; 16]| trace_id[0] as u64 * 31;
    for t in 1..=5u8 {
        let trace_id = [t; 16];
        whole.register_local_root_trace_propagation_data(trace_id, decided(t as i8));
        parts.register_local_root_trace_propagation_data_at(
            hash(trace_id),
            trace_id,
            decided(t as i8),
        );
        for s in 1..=3u8 {
            whole.register_span(trace_id, [s; 8], empty());
            parts.register_span_at(hash(trace_id), trace_id, [s; 8], empty());
        }
    }
    for t in 1..=5u8 {
        let trace_id = [t; 16];
        for s in 1..=3u8 {
            let one = whole.finish_span(trace_id, create_test_span_data(trace_id, [s; 8]));
            let other = parts.finish_span_at(
                hash(trace_id),
                trace_id,
                create_test_span_data(trace_id, [s; 8]),
            );
            assert_eq!(
                one.map(|t| t.finished_spans.len()),
                other.map(|t| t.finished_spans.len())
            );
        }
    }
    let one = whole.get_metrics();
    let other = parts.get_metrics();
    assert_eq!(one.spans_created, 20);
    assert_eq!(one.spans_created, other.spans_created);
    assert_eq!(one.spans_finished, other.spans_finished);
    assert_eq!(one.trace_segments_created, other.trace_segments_created);
    assert_eq!(one.trace_segments_closed, other.trace_segments_closed);
    assert_eq!(one.trace_partial_flush_count, other.trace_partial_flush_count);
}

#[test]
fn hashes_pick_parts() {
    assert_eq!(TRACE_REGISTRY_SHARDS, 64);
    assert_eq!(shard_index(0), 0);
    assert_eq!(shard_index(63), 63);
    assert_eq!(shard_index(64), 0);
    assert_eq!(shard_index(u64::MAX), 63);
}

#[test]
fn fresh_registry_has_room_and_no_metrics() {
    let mut registry = new_registry();
    assert!(registry.has_room([1; 16]));
    assert!(registry.metrics_fit());
    let metrics = registry.get_metrics();
    let none = TraceRegistryMetrics::default();
    assert_eq!(metrics.spans_created, none.spans_created);
    assert_eq!(metrics.spans_created, 0);
    assert_eq!(metrics.trace_segments_created, 0);
}

fn started(span_id: u8, remote: bool, has_parent: bool) -> StartedSpan {
    StartedSpan {
        span_context: SpanContext {
            trace_id: [21; 16],
            span_id: [span_id; 8],
            trace_flags: 1,
            is_remote: false,
        },
        is_recording: true,
        attributes: Some(vec![
            KeyValue::text("other", "x"),
            KeyValue::text("http.target", "/target"),
            KeyValue::text("http.route", "/route"),
        ]),
        parent_is_remote: remote,
        parent_has_active_span: has_parent,
    }
}

#[test]
fn spans_are_registered_by_their_parents() {
    let (processor, _) = DatadogSpanProcessor::new(Arc::new(config()));
    let mut registry = new_registry();
    let route = |registry: &TraceRegistry, span_id: u8| {
        registry.with_extracted_span_data([21; 16], [span_id; 8], [0; 8], |route| {
            route.map(|route| route.to_string())
        })
    };
    assert_eq!(processor.on_start(&mut registry, &started(1, false, false)), StartKind::LocalRoot);
    assert_eq!(registry.get_local_root_span_id([21; 16]), Some([1; 8]));
    // the first of the two attributes counts
    assert_eq!(route(&registry, 1), Some(Some("/target".to_string())));
    let mut child = started(2, false, true);
    child.attributes = None;
    assert_eq!(processor.on_start(&mut registry, &child), StartKind::Child);
    assert_eq!(route(&registry, 2), Some(None));
    assert_eq!(processor.on_start(&mut registry, &started(3, true, true)), StartKind::RemoteRoot);
    assert_eq!(registry.get_local_root_span_id([21; 16]), Some([1; 8]));
    // two spans are open: the root and its child
    let finish = |registry: &mut TraceRegistry, id: u8| {
        processor.on_end(registry, create_test_span_data([21; 16], [id; 8]))
    };
    assert!(finish(&mut registry, 2).is_none());
    let spans = finish(&mut registry, 1).unwrap();
    assert_eq!(spans.len(), 2);
    assert_eq!(spans[0].span_context.span_id, [1; 8]);
}

#[test]
fn spans_that_do_not_count_are_ignored() {
    let mut disabled_config = config();
    disabled_config.enabled = false;
    let (disabled, _) = DatadogSpanProcessor::new(Arc::new(disabled_config));
    let (processor, _) = DatadogSpanProcessor::new(Arc::new(config()));
    let mut registry = new_registry();
    let mut not_recording = started(1, false, false);
    not_recording.is_recording = false;
    let mut invalid = started(0, false, false);
    assert_eq!(processor.on_start(&mut registry, &not_recording), StartKind::Ignored);
    assert_eq!(processor.on_start(&mut registry, &invalid), StartKind::Ignored);
    invalid.span_context.span_id = [1; 8];
    invalid.span_context.trace_id = [0; 16];
    assert_eq!(processor.on_start(&mut registry, &invalid), StartKind::Ignored);
    assert_eq!(disabled.on_start(&mut registry, &started(1, false, false)), StartKind::Ignored);
    assert_eq!(registry.get_local_root_span_id([21; 16]), None);
    // a span that ends is still finished, but nothing is sent
    let finished = create_test_span_data([21; 16], [1; 8]);
    assert!(disabled.on_end(&mut registry, finished).is_none());
    assert_eq!(registry.get_metrics().spans_finished, 1);
}

#[test]
fn routes_are_read_as_text() {
    let (processor, _) = DatadogSpanProcessor::new(Arc::new(config()));
    let values = [
        (Value::I64(-7), "-7"),
        (Value::Bool(false), "false"),
        (Value::F64("2.5".to_string()), "2.5"),
        (Value::Array(Array::I64(vec![1, -2])), "[1,-2]"),
        (Value::Array(Array::Bool(vec![true])), "[true]"),
        (Value::Array(Array::F64(vec!["0.5".to_string(), "3".to_string()])), "[0.5,3]"),
        (
            Value::Array(Array::String(vec!["a".to_string(), "b\"c".to_string()])),
            "[\"a\",\"b\"c\"]",
        ),
    ];
    for (value, expected) in values {
        assert_eq!(value.display(), expected);
        let mut registry = new_registry();
        let mut span = started(1, false, false);
        span.attributes = Some(vec![KeyValue { key: "http.route".to_string(), value }]);
        processor.on_start(&mut registry, &span);
        let route = registry.with_extracted_span_data([21; 16], [1; 8], [1; 8], |route| {
            route.map(|route| route.to_string())
        });
        assert_eq!(route, Some(Some(expected.to_string())));
    }
}

#[test]
fn sent_spans_carry_what_is_propagated() {
    let (processor, _) = DatadogSpanProcessor::new(Arc::new(config_with_partial_flush(2)));
    let mut registry = TraceRegistry::new(Arc::new(config_with_partial_flush(2)));
    let trace_id = [22u8; 16];
    let mut tags = Tags::new();
    tags.insert("_dd.p.tid".to_string(), "old".to_string());
    tags.insert("_dd.p.usr".to_string(), "u".to_string());
    tags.insert("_dd.p.tid".to_string(), "new".to_string());
    let mut data = decided(2);
    data.tags = Some(tags);
    registry.register_local_root_trace_propagation_data(trace_id, data);
    registry.register_local_root_span(trace_id, [1; 8]);
    registry.register_span(trace_id, [2; 8], empty());
    let mut child = create_test_span_data(trace_id, [2; 8]);
    child.attributes = vec![KeyValue::text("own", "kept")];
    assert!(processor.on_end(&mut registry, child).is_none());
    let root = create_test_span_data(trace_id, [1; 8]);
    let spans = processor.on_end(&mut registry, root).unwrap();

    let number = |key: &str, n: i64| KeyValue { key: key.to_string(), value: Value::I64(n) };
    let common = || {
        vec![
            KeyValue::text("_dd.origin", "rum"),
            number("_sampling_priority_v1", 2),
            KeyValue::text("_dd.p.dm", "-0"),
        ]
    };
    let mut expected_root = vec![
        KeyValue { key: "_top_level".to_string(), value: Value::F64("1".to_string()) },
        KeyValue::text("_dd.p.tid", "new"),
        KeyValue::text("_dd.p.usr", "u"),
    ];
    expected_root.extend(common());
    let mut expected_child = vec![KeyValue::text("own", "kept")];
    expected_child.extend(common());
    assert_eq!(spans[0].span_context.span_id, [1; 8]);
    assert_eq!(spans[0].attributes, expected_root);
    assert_eq!(spans[1].attributes, expected_child);
}

#[test]
fn empty_origin_and_missing_decision_add_nothing() {
    let (processor, _) = DatadogSpanProcessor::new(Arc::new(config()));
    let mut registry = new_registry();
    let trace_id = [23u8; 16];
    let mut data = empty();
    data.origin = Some(String::new());
    registry.register_span(trace_id, [1; 8], data);
    let spans =
        processor.on_end(&mut registry, create_test_span_data(trace_id, [1; 8])).unwrap();
    assert_eq!(spans.len(), 1);
    assert!(spans[0].attributes.is_empty());
}

#[test]
fn background_tasks_follow_the_configuration() {
    let mut all = config();
    all.remote_config_enabled = true;
    all.telemetry_enabled = true;
    let (_, workers) = DatadogSpanProcessor::new(Arc::new(all));
    assert!(workers.remote_config);
    assert!(workers.telemetry);
    let mut disabled = config();
    disabled.enabled = false;
    disabled.remote_config_enabled = true;
    let (_, workers) = DatadogSpanProcessor::new(Arc::new(disabled));
    assert!(!workers.remote_config);
    assert!(!workers.telemetry);
}
