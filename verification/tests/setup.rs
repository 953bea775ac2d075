use datadog_opentelemetry::builder::{
    init_datadog, make_test_tracer, tracing, ChosenLimits, ContextLabelWriterType, SpanLimits,
};
use datadog_opentelemetry::config::Config;
use datadog_opentelemetry::dd_resource::{create_dd_resource, empty_resource, merge_resource};
use datadog_opentelemetry::errors::{OTelSdkError, WorkerError};
use datadog_opentelemetry::ids::{is_all_zero, same_span, span_is_unset};
use datadog_opentelemetry::links::{link_context, remote_links, SpanLink};
use datadog_opentelemetry::sampling::Tags;
use datadog_opentelemetry::shutdown::{Shutdown, ShutdownStep, Worker};
use datadog_opentelemetry::span::SpanContext;
use datadog_opentelemetry::span_processor::{DatadogSpanProcessor, Workers};
use datadog_opentelemetry::text::{decimal, hex, join, same_text};
use datadog_opentelemetry::value::KeyValue;
use opentelemetry::Key;
use opentelemetry_sdk::Resource;
use std::sync::Arc;

fn config() -> Config {
    Config {
        enabled: true,
        service: "unnamed-rust-service".to_string(),
        service_is_default: true,
        env: None,
        version: None,
        trace_agent_url: "http://localhost:8126".to_string(),
        dogstatsd_agent_url: "http://localhost:8125".to_string(),
        tracer_version: "1.2.3".to_string(),
        language: "rust".to_string(),
        language_version: "1.90".to_string(),
        runtime_id: "id".to_string(),
        trace_partial_flush_enabled: false,
        trace_partial_flush_min_spans: 300,
        trace_stats_computation_enabled: false,
        telemetry_enabled: false,
        telemetry_heartbeat_millis: 60_000,
        remote_config_enabled: false,
    }
}

fn get(resource: &Resource, key: &'static str) -> Option<String> {
    resource.get(&Key::from_static_str(key)).map(|value| value.as_str().to_string())
}

fn limits(n: u32) -> SpanLimits {
    SpanLimits {
        max_events_per_span: n,
        max_attributes_per_span: n + 1,
        max_links_per_span: n + 2,
        max_attributes_per_event: n + 3,
        max_attributes_per_link: n + 4,
    }
}

#[test]
fn nothing_is_chosen_at_first() {
    let builder = tracing();
    assert!(builder.config.is_none());
    assert!(builder.resource.is_none());
    assert!(builder.context_label_writer.is_none());
    assert_eq!(builder.limits.resolve(limits(128)), limits(128));
}

#[test]
fn chosen_limits_hold() {
    let builder = tracing()
        .with_max_events_per_span(1)
        .with_max_attributes_per_span(2)
        .with_max_links_per_span(3);
    let resolved = builder.limits.resolve(limits(100));
    assert_eq!(
        resolved,
        SpanLimits {
            max_events_per_span: 1,
            max_attributes_per_span: 2,
            max_links_per_span: 3,
            max_attributes_per_event: 103,
            max_attributes_per_link: 104,
        }
    );
    let builder = builder.with_max_attributes_per_event(4).with_max_attributes_per_link(5);
    assert_eq!(
        builder.limits,
        ChosenLimits {
            max_events_per_span: Some(1),
            max_attributes_per_span: Some(2),
            max_links_per_span: Some(3),
            max_attributes_per_event: Some(4),
            max_attributes_per_link: Some(5),
        }
    );
    let builder = builder.with_span_limits(limits(7));
    assert_eq!(builder.limits.resolve(limits(100)), limits(7));
}

#[test]
fn given_options_are_installed() {
    let mut given = config();
    given.service = "my_service".to_string();
    given.service_is_default = false;
    given.env = Some("my_env".to_string());
    given.remote_config_enabled = true;
    given.telemetry_enabled = true;
    let detected = Resource::builder_empty().with_service_name("detected").build();
    let base = Resource::builder_empty()
        .with_attribute(opentelemetry::KeyValue::new("key", "value"))
        .build();
    let (setup, labels) = tracing()
        .with_config(given)
        .with_resource(base)
        .with_context_labels(ContextLabelWriterType::Logging)
        .init(config(), detected);
    assert_eq!(labels, Some(ContextLabelWriterType::Logging));
    assert_eq!(setup.config.service, "my_service");
    assert_eq!(get(&setup.resource, "service.name"), Some("my_service".to_string()));
    assert_eq!(get(&setup.resource, "deployment.environment.name"), Some("my_env".to_string()));
    assert_eq!(get(&setup.resource, "key"), Some("value".to_string()));
    assert!(setup.resource_slot.is_empty());
    assert!(setup.takes_sampling_rules);
    let (processor, workers) = setup.span_processor.unwrap();
    assert_eq!(processor.config.service, "my_service");
    assert_eq!(workers, Workers { remote_config: true, telemetry: true });
}

#[test]
fn defaults_stand_in_for_what_was_not_given() {
    let detected = || Resource::builder_empty().with_service_name("detected").build();
    let (setup, labels) = tracing().init(config(), detected());
    assert_eq!(labels, None);
    assert_eq!(get(&setup.resource, "service.name"), Some("detected".to_string()));
    assert!(!setup.takes_sampling_rules);
    let mut disabled = config();
    disabled.enabled = false;
    let setup = tracing().init_local(disabled, detected());
    assert!(setup.span_processor.is_none());
    let setup = init_datadog(config(), None, detected());
    assert_eq!(get(&setup.resource, "service.name"), Some("detected".to_string()));
    let setup = make_test_tracer(Arc::new(config()), Resource::builder_empty().build());
    assert_eq!(get(&setup.resource, "service.name"), Some("unnamed-rust-service".to_string()));
}

#[test]
fn unknown_service_is_overridden() {
    let unknown = Resource::builder_empty().with_service_name("unknown_service").build();
    let completed = create_dd_resource(unknown, &config());
    assert_eq!(get(&completed, "service.name"), Some("unnamed-rust-service".to_string()));
}

#[test]
fn environment_of_the_resource_is_kept() {
    let mut cfg = config();
    cfg.env = Some("configured".to_string());
    let base = Resource::builder_empty()
        .with_attribute(opentelemetry::KeyValue::new("deployment.environment.name", "own"))
        .build();
    let completed = create_dd_resource(base, &cfg);
    assert_eq!(get(&completed, "deployment.environment.name"), Some("own".to_string()));
    let again = create_dd_resource(completed.clone(), &cfg);
    assert_eq!(completed, again);
}

#[test]
fn merged_attributes_replace_those_with_the_same_key() {
    let base = Resource::builder_empty()
        .with_schema_url([opentelemetry::KeyValue::new("a", "1")], "url")
        .build();
    let merged = merge_resource(
        Some(base),
        vec![
            ("a".to_string(), "2".to_string()),
            ("b".to_string(), "3".to_string()),
            ("b".to_string(), "4".to_string()),
        ],
    );
    assert_eq!(get(&merged, "a"), Some("2".to_string()));
    assert_eq!(get(&merged, "b"), Some("4".to_string()));
    assert_eq!(merged.schema_url(), Some("url"));
    assert_eq!(merged.len(), 2);
    let fresh = merge_resource(None, vec![("c".to_string(), "5".to_string())]);
    assert_eq!(get(&fresh, "c"), Some("5".to_string()));
    assert_eq!(fresh.schema_url(), None);
    assert!(empty_resource().is_empty());
}

#[test]
fn links_of_a_remote_parent_are_recovered() {
    let mut attributes = Tags::new();
    attributes.insert("k".to_string(), "v".to_string());
    let link = SpanLink {
        trace_id: 42,
        span_id: 43,
        flags: Some(0x101),
        tracestate: Some("a=1,b=2".to_string()),
        attributes: Some(attributes),
    };
    let context = link_context(&link);
    assert_eq!(context.trace_id, 42);
    assert_eq!(context.span_id, 43);
    assert_eq!(context.trace_flags, 1);
    assert!(!context.is_remote);
    assert_eq!(context.trace_state, "a=1,b=2");
    assert_eq!(context.attributes, vec![KeyValue::text("k", "v")]);
    let bare = SpanLink {
        trace_id: 1,
        span_id: 2,
        flags: None,
        tracestate: Some("not a trace state".to_string()),
        attributes: None,
    };
    let contexts = remote_links(&vec![bare, link]);
    assert_eq!(contexts.len(), 2);
    assert_eq!(contexts[0].trace_flags, 0);
    assert_eq!(contexts[0].trace_state, "");
    assert!(contexts[0].attributes.is_empty());
    assert_eq!(contexts[1], context);
}

#[test]
fn shutdown_waits_for_all_tasks_in_turn() {
    let (processor, _) = DatadogSpanProcessor::new(Arc::new(config()));
    let workers = Workers { remote_config: true, telemetry: true };
    let shutdown = processor.shutdown_with_timeout(workers, 100, 1000);
    assert_eq!(
        shutdown.first_step(),
        ShutdownStep::Stop(vec![Worker::Exporter, Worker::RemoteConfig, Worker::Telemetry])
    );
    assert_eq!(shutdown.after_stop(1010), ShutdownStep::Wait(Worker::Exporter, 90));
    assert_eq!(
        shutdown.after_exporter(Ok(()), 1040),
        ShutdownStep::Wait(Worker::RemoteConfig, 60)
    );
    assert_eq!(
        shutdown.after_remote_config(Ok(()), 2000),
        ShutdownStep::Wait(Worker::Telemetry, 0)
    );
    assert_eq!(shutdown.after_telemetry(Ok(())), ShutdownStep::Done(Ok(())));

    let only_telemetry = Shutdown::new(100, 0, false, true);
    assert_eq!(
        only_telemetry.first_step(),
        ShutdownStep::Stop(vec![Worker::Exporter, Worker::Telemetry])
    );
    assert_eq!(
        only_telemetry.after_exporter(Ok(()), 1),
        ShutdownStep::Wait(Worker::Telemetry, 99)
    );
    let nothing = Shutdown::new(100, 0, false, false);
    assert_eq!(nothing.first_step(), ShutdownStep::Stop(vec![Worker::Exporter]));
    assert_eq!(nothing.after_exporter(Ok(()), 1), ShutdownStep::Done(Ok(())));
}

#[test]
fn first_failure_ends_the_shutdown() {
    let shutdown = Shutdown::new(100, 0, true, true);
    let done = |error| ShutdownStep::Done(Err(error));
    assert_eq!(
        shutdown.after_exporter(Err(OTelSdkError::Timeout(3)), 1),
        done(OTelSdkError::Timeout(100))
    );
    assert_eq!(
        shutdown.after_exporter(Err(OTelSdkError::AlreadyShutdown), 1),
        done(OTelSdkError::AlreadyShutdown)
    );
    assert_eq!(
        shutdown.after_remote_config(Err(WorkerError::ShutdownTimedOut), 1),
        done(OTelSdkError::Timeout(100))
    );
    assert_eq!(
        shutdown.after_remote_config(Err(WorkerError::Failed("why".to_string())), 1),
        done(OTelSdkError::InternalFailure(
            "RemoteConfigClient.shutdown_with_timeout: why".to_string()
        ))
    );
    assert_eq!(
        shutdown.after_telemetry(Err(WorkerError::ShutdownTimedOut)),
        done(OTelSdkError::Timeout(100))
    );
    assert_eq!(
        shutdown.after_telemetry(Err(WorkerError::Failed("why".to_string()))),
        done(OTelSdkError::InternalFailure(
            "TelemetryMetricsCollector.shutdown_with_timeout: why".to_string()
        ))
    );
}

#[test]
fn tags_keep_their_order() {
    let mut tags = Tags::new();
    tags.insert("b".to_string(), "1".to_string());
    tags.insert("a".to_string(), "2".to_string());
    tags.insert("b".to_string(), "3".to_string());
    let expected = vec![
        ("b".to_string(), "3".to_string()),
        ("a".to_string(), "2".to_string()),
    ];
    assert_eq!(tags.entries(), &expected);
    assert_eq!(tags.clone().entries(), &expected);
}

#[test]
fn texts_are_written() {
    assert_eq!(decimal(0), "0");
    assert_eq!(decimal(10), "10");
    assert_eq!(decimal(u128::MAX), u128::MAX.to_string());
    assert_eq!(hex(&[]), "");
    assert_eq!(hex(&[0, 15, 16, 171, 255]), "000f10abff");
    assert_eq!(join("a", "b"), "ab");
    assert!(same_text("a", "a"));
    assert!(!same_text("a", "b"));
}

#[test]
fn identifiers_are_compared() {
    assert!(is_all_zero(&[0; 16]));
    assert!(!is_all_zero(&[0, 1]));
    assert!(span_is_unset(&[0; 8]));
    assert!(!span_is_unset(&[0, 0, 0, 0, 0, 0, 0, 1]));
    assert!(same_span(&[1; 8], &[1; 8]));
    assert!(!same_span(&[1; 8], &[1, 1, 1, 1, 1, 1, 1, 2]));
}

#[test]
fn contexts_are_valid_and_sampled() {
    let context = |trace: u8, span: u8, flags: u8| SpanContext {
        trace_id: [trace; 16],
        span_id: [span; 8],
        trace_flags: flags,
        is_remote: false,
    };
    assert!(context(1, 1, 0).is_valid());
    assert!(!context(0, 1, 0).is_valid());
    assert!(!context(1, 0, 0).is_valid());
    assert!(context(1, 1, 3).is_sampled());
    assert!(!context(1, 1, 2).is_sampled());
}
