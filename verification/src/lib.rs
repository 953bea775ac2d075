//! A layer that makes the OpenTelemetry SDK send its traces to the Datadog agent.
//!
//! The registry collects the spans of a trace until they are complete, or enough to be sent in part.
//! The span processor feeds it and completes the spans that it hands out. The exporter hands them
//! over to a thread that sends them. Context labels show which span a thread works on. What holds of
//! all of this together stands in the `law_` proofs.

pub mod active_spans;
pub mod batch;
pub mod builder;
pub mod call_laws;
pub mod channel;
pub mod channel_field_laws;
pub mod channel_laws;
pub mod config;
pub mod context_labels;
pub mod custom_labels_writer;
pub mod dd_resource;
pub mod errors;
pub mod exporter;
pub mod exporter_laws;
pub mod ids;
pub mod links;
pub mod processor_laws;
pub mod propagation;
pub mod registry;
pub mod registry_field_laws;
pub mod registry_laws;
pub mod sampling;
pub mod sharding_laws;
pub mod shutdown;
pub mod span;
pub mod span_processor;
pub mod text;
pub mod traces;
pub mod update_laws;
pub mod value;
pub mod worker;
