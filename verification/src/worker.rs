//! The decisions of the thread that sends spans to the agent.

use crate::batch::{self, TraceChunk};
use crate::channel::{MutexPoisonedError, TraceExporterMessage};
use crate::span::SpanView;
use crate::text;
use opentelemetry_sdk::Resource;
use vstd::prelude::*;

verus! {

/// How long the last spans may take to be sent, in nanoseconds: too short a time to matter to the
/// application, and long enough for nearly all of them to arrive.
pub const SPAN_EXPORTER_SHUTDOWN_TIMEOUT: u128 = 1_000_000_000;

/// How long spans wait at most before they are sent, in nanoseconds.
pub const MAX_BATCH_TIME: u128 = 1_000_000_000;

/// How many nanoseconds a millisecond has.
pub const NANOS_PER_MILLI: u128 = 1_000_000;

/// How much a message that is logged matters.
#[derive(Debug, Clone, Copy, PartialEq, Eq)]
pub enum LogLevel {
    Error,
    Debug,
}

/// A message that is logged.
#[derive(Debug, PartialEq, Eq)]
pub struct LogLine {
    pub level: LogLevel,
    pub message: String,
}

/// What a [`LogLine`] says.
pub struct LogView {
    pub level: LogLevel,
    pub message: Seq<char>,
}

impl View for LogLine {
    type V = LogView;

    open spec fn view(&self) -> LogView {
        LogView { level: self.level, message: self.message@ }
    }
}

/// A failure to send spans.
#[derive(Debug, PartialEq, Eq)]
pub enum TraceExporterError {
    /// The connection to the agent could not be set up.
    Builder(String),
    /// A background task of the connection is in a wrong state.
    InvalidWorkerState(String),
    /// What was to be sent could not be read.
    Deserialization(String),
    /// Reading or writing failed.
    Io(String),
    /// The network failed.
    Network(String),
    /// The agent refused the request.
    Request(String),
    /// What was to be sent could not be written.
    Serialization(String),
    /// The agent answered with nothing.
    EmptyResponse,
    /// The connection was not closed in time, in nanoseconds.
    ShutdownTimedOut(u128),
    /// Telemetry on the tracer failed.
    Telemetry(String),
}

/// What is logged of a failure to send spans. Only failures that nothing in the environment explains
/// are errors.
pub open spec fn logged_error(error: TraceExporterError) -> LogView {
    match error {
        TraceExporterError::Builder(detail) => LogView {
            level: LogLevel::Error,
            message: "DatadogExporter: Export error: Builder error: "@ + detail@,
        },
        TraceExporterError::InvalidWorkerState(detail) => LogView {
            level: LogLevel::Error,
            message: "DatadogExporter: Export error: Internal error: Invalid worker state: "@
                + detail@,
        },
        TraceExporterError::Deserialization(detail) => LogView {
            level: LogLevel::Debug,
            message: "DatadogExporter: Export error: Deserialization error: "@ + detail@,
        },
        TraceExporterError::Io(detail) => LogView {
            level: LogLevel::Debug,
            message: "DatadogExporter: Export error: IO error: "@ + detail@,
        },
        TraceExporterError::Network(detail) => LogView {
            level: LogLevel::Debug,
            message: "DatadogExporter: Export error: Network error: "@ + detail@,
        },
        TraceExporterError::Request(detail) => LogView {
            level: LogLevel::Debug,
            message: "DatadogExporter: Export error: Request error: "@ + detail@,
        },
        TraceExporterError::Serialization(detail) => LogView {
            level: LogLevel::Debug,
            message: "DatadogExporter: Export error: Serialization error: "@ + detail@,
        },
        TraceExporterError::EmptyResponse => LogView {
            level: LogLevel::Debug,
            message: "DatadogExporter: Export error: Agent error: empty response"@,
        },
        TraceExporterError::ShutdownTimedOut(nanos) => LogView {
            level: LogLevel::Debug,
            message: "DatadogExporter: Export error: Shutdown error: timed out after "@
                + text::decimal_chars((nanos / NANOS_PER_MILLI) as nat) + "ms"@,
        },
        TraceExporterError::Telemetry(detail) => LogView {
            level: LogLevel::Debug,
            message: "DatadogExporter: Export error: Instrumentation telemetry error: "@
                + detail@,
        },
    }
}

/// What is logged of a failure to send spans.
pub fn log_trace_exporter_error(error: &TraceExporterError) -> (line: LogLine)
    ensures
        line@ == logged_error(*error),
{
    let (level, prefix, detail): (LogLevel, &str, &str) = match error {
        TraceExporterError::Builder(detail) => (
            LogLevel::Error,
            "DatadogExporter: Export error: Builder error: ",
            detail.as_str(),
        ),
        TraceExporterError::InvalidWorkerState(detail) => (
            LogLevel::Error,
            "DatadogExporter: Export error: Internal error: Invalid worker state: ",
            detail.as_str(),
        ),
        TraceExporterError::Deserialization(detail) => (
            LogLevel::Debug,
            "DatadogExporter: Export error: Deserialization error: ",
            detail.as_str(),
        ),
        TraceExporterError::Io(detail) => (
            LogLevel::Debug,
            "DatadogExporter: Export error: IO error: ",
            detail.as_str(),
        ),
        TraceExporterError::Network(detail) => (
            LogLevel::Debug,
            "DatadogExporter: Export error: Network error: ",
            detail.as_str(),
        ),
        TraceExporterError::Request(detail) => (
            LogLevel::Debug,
            "DatadogExporter: Export error: Request error: ",
            detail.as_str(),
        ),
        TraceExporterError::Serialization(detail) => (
            LogLevel::Debug,
            "DatadogExporter: Export error: Serialization error: ",
            detail.as_str(),
        ),
        TraceExporterError::EmptyResponse => {
            return LogLine {
                level: LogLevel::Debug,
                message: "DatadogExporter: Export error: Agent error: empty response".to_owned(),
            };
        },
        TraceExporterError::ShutdownTimedOut(nanos) => {
            let millis = text::decimal(*nanos / NANOS_PER_MILLI);
            let mut message = text::join(
                "DatadogExporter: Export error: Shutdown error: timed out after ",
                millis.as_str(),
            );
            message.append("ms");
            return LogLine { level: LogLevel::Debug, message };
        },
        TraceExporterError::Telemetry(detail) => (
            LogLevel::Debug,
            "DatadogExporter: Export error: Instrumentation telemetry error: ",
            detail.as_str(),
        ),
    };
    LogLine { level, message: text::join(prefix, detail) }
}

/// What the agent answers when spans were sent.
#[derive(Debug, PartialEq, Eq)]
pub enum AgentResponse {
    /// The same as before.
    Unchanged,
    /// Something new.
    Changed { body: String },
}

/// What is to be done once spans were sent, or could not be.
#[derive(Debug, PartialEq, Eq)]
pub struct AfterSend {
    /// The answer that is handed on to whoever listens for it.
    pub handed_on: Option<String>,
    /// The message that is logged.
    pub log: Option<LogLine>,
}

/// The answer that is handed on: one that is new, where somebody listens.
pub open spec fn handed_on(response: AgentResponse, has_handler: bool) -> Option<Seq<char>> {
    match response {
        AgentResponse::Changed { body } if has_handler => Some(body@),
        _ => None,
    }
}

/// What the thread does after it got a message, or could get none.
#[derive(Debug)]
pub struct WorkerStep {
    /// The spans that are sent first, if there are any.
    pub send: Option<Vec<TraceChunk>>,
    /// The resource that describes the service from then on.
    pub resource: Option<Resource>,
    /// Whether the thread then closes the connection and ends.
    pub stop: bool,
}

/// What a [`WorkerStep`] says.
pub struct WorkerStepView {
    pub send: Option<Seq<Seq<SpanView>>>,
    pub resource: Option<Resource>,
    pub stop: bool,
}

impl View for WorkerStep {
    type V = WorkerStepView;

    open spec fn view(&self) -> WorkerStepView {
        WorkerStepView {
            send: match self.send {
                Some(chunks) => Some(batch::chunks_view(chunks@)),
                None => None,
            },
            resource: self.resource,
            stop: self.stop,
        }
    }
}

/// What the thread does after it got a message with some chunks.
pub open spec fn step_for(message: TraceExporterMessage, chunks: Seq<Seq<SpanView>>) -> WorkerStepView {
    WorkerStepView {
        send: if chunks.len() == 0 {
            None
        } else {
            Some(chunks)
        },
        resource: match message {
            TraceExporterMessage::SetResource { resource } => Some(resource),
            _ => None,
        },
        stop: message is Shutdown,
    }
}

/// What the thread does where it can get no message: it ends.
pub open spec fn step_without_message() -> WorkerStepView {
    WorkerStepView { send: None, resource: None, stop: true }
}

/// The thread that sends spans.
#[derive(Debug)]
pub struct TraceExporterWorker {
    /// The resource that describes the service in what is sent.
    pub otel_resource: Resource,
}

impl TraceExporterWorker {
    /// What the thread does after it got a message, or could get none.
    pub fn run(
        &self,
        received: Result<(TraceExporterMessage, Vec<TraceChunk>), MutexPoisonedError>,
    ) -> (step: WorkerStep)
        ensures
            step@ == match received {
                Ok((message, chunks)) => step_for(message, batch::chunks_view(chunks@)),
                Err(_) => step_without_message(),
            },
    {
        match received {
            Err(_) => WorkerStep { send: None, resource: None, stop: true },
            Ok((message, chunks)) => {
                let send = if chunks.is_empty() {
                    None
                } else {
                    Some(chunks)
                };
                match message {
                    TraceExporterMessage::Shutdown => WorkerStep {
                        send,
                        resource: None,
                        stop: true,
                    },
                    TraceExporterMessage::FlushTraceChunks => WorkerStep {
                        send,
                        resource: None,
                        stop: false,
                    },
                    TraceExporterMessage::FlushTraceChunksWithTimeout => WorkerStep {
                        send,
                        resource: None,
                        stop: false,
                    },
                    TraceExporterMessage::SetResource { resource } => WorkerStep {
                        send,
                        resource: Some(resource),
                        stop: false,
                    },
                }
            },
        }
    }

    /// Takes over the resource that came with a message, once the spans that came with it were sent.
    pub fn set_resource(&mut self, resource: Option<Resource>)
        ensures
            final(self).otel_resource == match resource {
                Some(resource) => resource,
                None => old(self).otel_resource,
            },
    {
        match resource {
            Some(resource) => {
                self.otel_resource = resource;
            },
            None => {},
        }
    }

    /// The answer of the agent that is handed on to whoever listens for it.
    pub fn handle_agent_response(&self, response: AgentResponse, has_handler: bool) -> (body: Option<
        String,
    >)
        ensures
            text::opt_text(body) == handed_on(response, has_handler),
    {
        match response {
            AgentResponse::Unchanged => None,
            AgentResponse::Changed { body } => if has_handler {
                Some(body)
            } else {
                None
            },
        }
    }

    /// What is to be done once chunks were sent, or could not be.
    pub fn export_trace_chunks(
        &self,
        sent: Result<AgentResponse, TraceExporterError>,
        has_handler: bool,
    ) -> (after: AfterSend)
        ensures
            match sent {
                Ok(response) => text::opt_text(after.handed_on) == handed_on(response, has_handler)
                    && after.log is None,
                Err(error) => after.handed_on is None && (after.log matches Some(line) && line@
                    == logged_error(error)),
            },
    {
        match sent {
            Ok(response) => AfterSend {
                handed_on: self.handle_agent_response(response, has_handler),
                log: None,
            },
            Err(error) => AfterSend {
                handed_on: None,
                log: Some(log_trace_exporter_error(&error)),
            },
        }
    }
}

} // verus!
