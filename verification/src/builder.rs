//! Setting tracing up: the options that can be chosen, and what is installed for them.

use crate::config::{self, Config};
use crate::dd_resource;
use crate::registry::{self, PartialFlush, TraceRegistry};
use crate::span_processor::{DatadogSpanProcessor, Workers};
use crate::value;
use opentelemetry_sdk::Resource;
use std::sync::Arc;
use vstd::prelude::*;

verus! {

/// What writes the labels of the current span.
#[derive(Debug, Clone, Copy, PartialEq, Eq)]
pub enum ContextLabelWriterType {
    /// The log, for debugging.
    Logging,
    /// The memory of the thread, where a profiler finds them.
    Custom,
}

/// How much is recorded of a span.
#[derive(Debug, Clone, Copy, PartialEq, Eq)]
pub struct SpanLimits {
    pub max_events_per_span: u32,
    pub max_attributes_per_span: u32,
    pub max_links_per_span: u32,
    pub max_attributes_per_event: u32,
    pub max_attributes_per_link: u32,
}

/// The limits that were chosen. The others are those of the SDK.
#[derive(Debug, Clone, Copy, PartialEq, Eq)]
pub struct ChosenLimits {
    pub max_events_per_span: Option<u32>,
    pub max_attributes_per_span: Option<u32>,
    pub max_links_per_span: Option<u32>,
    pub max_attributes_per_event: Option<u32>,
    pub max_attributes_per_link: Option<u32>,
}

/// The limit that holds: the chosen one, if any.
pub open spec fn limit_of(chosen: Option<u32>, default: u32) -> u32 {
    match chosen {
        Some(limit) => limit,
        None => default,
    }
}

/// The limits that hold.
pub open spec fn limits_of(chosen: ChosenLimits, defaults: SpanLimits) -> SpanLimits {
    SpanLimits {
        max_events_per_span: limit_of(chosen.max_events_per_span, defaults.max_events_per_span),
        max_attributes_per_span: limit_of(
            chosen.max_attributes_per_span,
            defaults.max_attributes_per_span,
        ),
        max_links_per_span: limit_of(chosen.max_links_per_span, defaults.max_links_per_span),
        max_attributes_per_event: limit_of(
            chosen.max_attributes_per_event,
            defaults.max_attributes_per_event,
        ),
        max_attributes_per_link: limit_of(
            chosen.max_attributes_per_link,
            defaults.max_attributes_per_link,
        ),
    }
}

/// No limit was chosen.
pub open spec fn no_limits() -> ChosenLimits {
    ChosenLimits {
        max_events_per_span: None,
        max_attributes_per_span: None,
        max_links_per_span: None,
        max_attributes_per_event: None,
        max_attributes_per_link: None,
    }
}

/// All limits were chosen.
pub open spec fn all_limits(limits: SpanLimits) -> ChosenLimits {
    ChosenLimits {
        max_events_per_span: Some(limits.max_events_per_span),
        max_attributes_per_span: Some(limits.max_attributes_per_span),
        max_links_per_span: Some(limits.max_links_per_span),
        max_attributes_per_event: Some(limits.max_attributes_per_event),
        max_attributes_per_link: Some(limits.max_attributes_per_link),
    }
}

/// The limit that holds.
fn choose_limit(chosen: Option<u32>, default: u32) -> (limit: u32)
    ensures
        limit == limit_of(chosen, default),
{
    match chosen {
        Some(limit) => limit,
        None => default,
    }
}

impl ChosenLimits {
    /// The limits that hold where the SDK has these defaults.
    pub fn resolve(&self, defaults: SpanLimits) -> (limits: SpanLimits)
        ensures
            limits == limits_of(*self, defaults),
    {
        SpanLimits {
            max_events_per_span: choose_limit(
                self.max_events_per_span,
                defaults.max_events_per_span,
            ),
            max_attributes_per_span: choose_limit(
                self.max_attributes_per_span,
                defaults.max_attributes_per_span,
            ),
            max_links_per_span: choose_limit(self.max_links_per_span, defaults.max_links_per_span),
            max_attributes_per_event: choose_limit(
                self.max_attributes_per_event,
                defaults.max_attributes_per_event,
            ),
            max_attributes_per_link: choose_limit(
                self.max_attributes_per_link,
                defaults.max_attributes_per_link,
            ),
        }
    }
}

/// The options of tracing.
#[derive(Debug)]
pub struct DatadogTracingBuilder {
    /// The configuration, where one was given.
    pub config: Option<Config>,
    /// The resource that describes the service, where one was given.
    pub resource: Option<Resource>,
    /// The limits that were chosen.
    pub limits: ChosenLimits,
    /// What writes the labels of the current span, where labels are written.
    pub context_label_writer: Option<ContextLabelWriterType>,
}

/// What is to be installed.
#[derive(Debug)]
pub struct TracerSetup {
    pub config: Arc<Config>,
    /// The traces that are under way. There are none yet.
    pub registry: TraceRegistry,
    /// The resource that the sampler sees, which is filled in later.
    pub resource_slot: Resource,
    /// The resource that describes the service.
    pub resource: Resource,
    /// Whether sampling rules are taken over when the agent changes them.
    pub takes_sampling_rules: bool,
    /// What spans go through, with its background tasks, where tracing is enabled.
    pub span_processor: Option<(DatadogSpanProcessor, Workers)>,
}

/// What is to be installed, for one configuration and the resource that was given or detected.
pub open spec fn is_setup_for(setup: TracerSetup, config: Config, resource: Resource) -> bool {
    &&& *setup.config == config
    &&& setup.registry.wf()
    &&& setup.registry@ == registry::fresh_shards(
        PartialFlush {
            enabled: config.trace_partial_flush_enabled,
            min_spans: config.trace_partial_flush_min_spans,
        },
    )
    &&& dd_resource::resource_attributes(setup.resource_slot).dom() == Set::<Seq<char>>::empty()
    &&& dd_resource::resource_schema_url(setup.resource_slot) is None
    &&& dd_resource::resource_attributes(setup.resource) == dd_resource::dd_attributes(
        dd_resource::resource_attributes(resource),
        &config,
    )
    &&& dd_resource::resource_schema_url(setup.resource) == dd_resource::resource_schema_url(
        resource,
    )
    &&& setup.takes_sampling_rules == config.remote_config_enabled
    &&& setup.span_processor is Some <==> config.enabled
    &&& setup.span_processor matches Some((processor, workers)) ==> *processor.config == config
        && workers.remote_config == config.remote_config_enabled && workers.telemetry
        == config.telemetry_enabled
}

/// The value that was given, or else the default.
pub open spec fn given_or<T>(given: Option<T>, default: T) -> T {
    match given {
        Some(value) => value,
        None => default,
    }
}

impl DatadogTracingBuilder {
    /// Sets the configuration.
    pub fn with_config(self, config: Config) -> (builder: Self)
        ensures
            builder == (DatadogTracingBuilder { config: Some(config), ..self }),
    {
        DatadogTracingBuilder { config: Some(config), ..self }
    }

    /// Sets the resource that describes the service.
    pub fn with_resource(self, resource: Resource) -> (builder: Self)
        ensures
            builder == (DatadogTracingBuilder { resource: Some(resource), ..self }),
    {
        DatadogTracingBuilder { resource: Some(resource), ..self }
    }

    /// Has the identifiers of the current span written whenever a span is entered or left.
    pub fn with_context_labels(self, writer_type: ContextLabelWriterType) -> (builder: Self)
        ensures
            builder == (DatadogTracingBuilder {
                context_label_writer: Some(writer_type),
                ..self
            }),
    {
        DatadogTracingBuilder { context_label_writer: Some(writer_type), ..self }
    }

    /// Sets how many events a span can have.
    pub fn with_max_events_per_span(self, max_events: u32) -> (builder: Self)
        ensures
            builder == (DatadogTracingBuilder {
                limits: ChosenLimits { max_events_per_span: Some(max_events), ..self.limits },
                ..self
            }),
    {
        let limits = ChosenLimits { max_events_per_span: Some(max_events), ..self.limits };
        DatadogTracingBuilder { limits, ..self }
    }

    /// Sets how many attributes a span can have.
    pub fn with_max_attributes_per_span(self, max_attributes: u32) -> (builder: Self)
        ensures
            builder == (DatadogTracingBuilder {
                limits: ChosenLimits {
                    max_attributes_per_span: Some(max_attributes),
                    ..self.limits
                },
                ..self
            }),
    {
        let limits = ChosenLimits { max_attributes_per_span: Some(max_attributes), ..self.limits };
        DatadogTracingBuilder { limits, ..self }
    }

    /// Sets how many links a span can have.
    pub fn with_max_links_per_span(self, max_links: u32) -> (builder: Self)
        ensures
            builder == (DatadogTracingBuilder {
                limits: ChosenLimits { max_links_per_span: Some(max_links), ..self.limits },
                ..self
            }),
    {
        let limits = ChosenLimits { max_links_per_span: Some(max_links), ..self.limits };
        DatadogTracingBuilder { limits, ..self }
    }

    /// Sets how many attributes an event can have.
    pub fn with_max_attributes_per_event(self, max_attributes: u32) -> (builder: Self)
        ensures
            builder == (DatadogTracingBuilder {
                limits: ChosenLimits {
                    max_attributes_per_event: Some(max_attributes),
                    ..self.limits
                },
                ..self
            }),
    {
        let limits = ChosenLimits { max_attributes_per_event: Some(max_attributes), ..self.limits };
        DatadogTracingBuilder { limits, ..self }
    }

    /// Sets how many attributes a link can have.
    pub fn with_max_attributes_per_link(self, max_attributes: u32) -> (builder: Self)
        ensures
            builder == (DatadogTracingBuilder {
                limits: ChosenLimits {
                    max_attributes_per_link: Some(max_attributes),
                    ..self.limits
                },
                ..self
            }),
    {
        let limits = ChosenLimits { max_attributes_per_link: Some(max_attributes), ..self.limits };
        DatadogTracingBuilder { limits, ..self }
    }

    /// Sets all limits.
    pub fn with_span_limits(self, span_limits: SpanLimits) -> (builder: Self)
        ensures
            builder == (DatadogTracingBuilder { limits: all_limits(span_limits), ..self }),
    {
        let limits = ChosenLimits {
            max_events_per_span: Some(span_limits.max_events_per_span),
            max_attributes_per_span: Some(span_limits.max_attributes_per_span),
            max_links_per_span: Some(span_limits.max_links_per_span),
            max_attributes_per_event: Some(span_limits.max_attributes_per_event),
            max_attributes_per_link: Some(span_limits.max_attributes_per_link),
        };
        DatadogTracingBuilder { limits, ..self }
    }

    /// What is to be installed, without what is global. The configuration and the resource that were
    /// read from the environment stand in for those that were not given.
    pub fn init_local(self, default_config: Config, detected: Resource) -> (setup: TracerSetup)
        ensures
            is_setup_for(
                setup,
                given_or(self.config, default_config),
                given_or(self.resource, detected),
            ),
    {
        let config = match self.config {
            Some(config) => config,
            None => default_config,
        };
        make_tracer(Arc::new(config), self.resource, detected)
    }

    /// What is to be installed, and what writes labels then.
    pub fn init(self, default_config: Config, detected: Resource) -> (result: (
        TracerSetup,
        Option<ContextLabelWriterType>,
    ))
        ensures
            is_setup_for(
                result.0,
                given_or(self.config, default_config),
                given_or(self.resource, detected),
            ),
            result.1 == self.context_label_writer,
    {
        let writer_type = self.context_label_writer;
        (self.init_local(default_config, detected), writer_type)
    }
}

/// The options of tracing before any was chosen.
pub fn tracing() -> (builder: DatadogTracingBuilder)
    ensures
        builder == (DatadogTracingBuilder {
            config: None,
            resource: None,
            limits: no_limits(),
            context_label_writer: None,
        }),
{
    DatadogTracingBuilder {
        config: None,
        resource: None,
        limits: ChosenLimits {
            max_events_per_span: None,
            max_attributes_per_span: None,
            max_links_per_span: None,
            max_attributes_per_event: None,
            max_attributes_per_link: None,
        },
        context_label_writer: None,
    }
}

/// What is to be installed for a configuration and a resource, without labels.
pub fn init_datadog(config: Config, resource: Option<Resource>, detected: Resource) -> (setup:
    TracerSetup)
    ensures
        is_setup_for(setup, config, given_or(resource, detected)),
{
    make_tracer(Arc::new(config), resource, detected)
}

/// What is to be installed for a configuration and a resource, or for the one that was detected.
pub fn make_tracer(config: Arc<Config>, resource: Option<Resource>, detected: Resource) -> (setup:
    TracerSetup)
    ensures
        is_setup_for(setup, *config, given_or(resource, detected)),
{
    let registry = TraceRegistry::new(config::share(&config));
    let resource_slot = dd_resource::empty_resource();
    let base = match resource {
        Some(resource) => resource,
        None => detected,
    };
    let dd_resource = dd_resource::create_dd_resource(base, &config);
    let span_processor = if config.enabled {
        Some(DatadogSpanProcessor::new(config::share(&config)))
    } else {
        None
    };
    let takes_sampling_rules = config.remote_config_enabled;
    TracerSetup {
        config,
        registry,
        resource_slot,
        resource: dd_resource,
        takes_sampling_rules,
        span_processor,
    }
}

/// What is to be installed for a configuration where no resource was given.
pub fn make_test_tracer(shared_config: Arc<Config>, detected: Resource) -> (setup: TracerSetup)
    ensures
        is_setup_for(setup, *shared_config, detected),
{
    make_tracer(shared_config, None, detected)
}

/// Limits that were all chosen hold whatever the SDK's own are, and where none was chosen the SDK's
/// own hold.
pub proof fn law_chosen_limits_hold(limits: SpanLimits, defaults: SpanLimits)
    ensures
        limits_of(all_limits(limits), defaults) == limits,
        limits_of(no_limits(), defaults) == defaults,
{
}

/// Each limit that holds is the one that was chosen for it, and the one of the SDK where none was.
pub proof fn law_each_limit_is_its_own(chosen: ChosenLimits, defaults: SpanLimits)
    ensures
        ({
            let limits = limits_of(chosen, defaults);
            &&& limits.max_events_per_span == given_or(
                chosen.max_events_per_span,
                defaults.max_events_per_span,
            )
            &&& limits.max_attributes_per_span == given_or(
                chosen.max_attributes_per_span,
                defaults.max_attributes_per_span,
            )
            &&& limits.max_links_per_span == given_or(
                chosen.max_links_per_span,
                defaults.max_links_per_span,
            )
            &&& limits.max_attributes_per_event == given_or(
                chosen.max_attributes_per_event,
                defaults.max_attributes_per_event,
            )
            &&& limits.max_attributes_per_link == given_or(
                chosen.max_attributes_per_link,
                defaults.max_attributes_per_link,
            )
        }),
{
}

/// What was given stands, and the default does where nothing was.
pub proof fn law_given_stands<T>(value: T, default: T)
    ensures
        given_or(Some(value), default) == value,
        given_or(None, default) == default,
{
}

/// What is installed follows the configuration: the registry knows no trace and hands out parts of
/// traces as configured, sampling rules are taken over where configuration is fetched, spans go
/// through the processor exactly where tracing is enabled, and its background tasks are those that
/// are enabled.
pub proof fn law_setup_follows_the_configuration(
    setup: TracerSetup,
    config: Config,
    resource: Resource,
    part: int,
)
    requires
        is_setup_for(setup, config, resource),
        0 <= part < 64,
    ensures
        *setup.config == config,
        setup.registry@.len() == 64,
        setup.registry@[part].traces.dom() == Set::<Seq<u8>>::empty(),
        setup.registry@[part].partial_flush.enabled == config.trace_partial_flush_enabled,
        setup.registry@[part].partial_flush.min_spans == config.trace_partial_flush_min_spans,
        setup.takes_sampling_rules == config.remote_config_enabled,
        setup.span_processor is Some <==> config.enabled,
        setup.span_processor matches Some((processor, workers)) ==> {
            &&& *processor.config == config
            &&& workers.remote_config == config.remote_config_enabled
            &&& workers.telemetry == config.telemetry_enabled
        },
{
}

/// The resource that is installed has the configured environment unless it was given one, and a name
/// for the service: the configured one unless nobody configured it and the resource has another.
/// Every other attribute is as given, and so is the schema. The sampler sees no attribute yet.
pub proof fn law_setup_completes_the_resource(
    setup: TracerSetup,
    config: Config,
    resource: Resource,
    key: Seq<char>,
)
    requires
        is_setup_for(setup, config, resource),
    ensures
        ({
            let given = dd_resource::resource_attributes(resource);
            let completed = dd_resource::resource_attributes(setup.resource);
            let env_key = "deployment.environment.name"@;
            let name_key = "service.name"@;
            &&& config.env matches Some(env) ==> completed.contains_pair(
                env_key,
                if given.dom().contains(env_key) {
                    given[env_key]
                } else {
                    value::ValueView::String(env@)
                },
            )
            &&& config.env is None ==> completed.dom().contains(env_key) == given.dom().contains(
                env_key,
            )
            &&& completed.dom().contains(name_key)
            &&& !config.service_is_default || !given.dom().contains(name_key)
                ==> completed[name_key] == value::ValueView::String(config.service@)
            &&& key != env_key && key != name_key ==> {
                &&& completed.dom().contains(key) == given.dom().contains(key)
                &&& given.dom().contains(key) ==> completed[key] == given[key]
            }
            &&& dd_resource::resource_schema_url(setup.resource)
                == dd_resource::resource_schema_url(resource)
            &&& dd_resource::resource_attributes(setup.resource_slot).dom() == Set::<
                Seq<char>,
            >::empty()
        }),
{
    let given = dd_resource::resource_attributes(resource);
    dd_resource::law_environment_is_completed(given, &config);
    dd_resource::law_whose_name_stands(given, &config);
    if key != "deployment.environment.name"@ && key != "service.name"@ {
        dd_resource::law_no_other_attribute_changes(given, &config, key);
    }
}

} // verus!
