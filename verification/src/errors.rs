//! How operations of the tracer fail.

use vstd::prelude::*;

verus! {

/// A failure that is reported to the OpenTelemetry SDK.
#[derive(Debug, PartialEq, Eq)]
pub enum OTelSdkError {
    /// The component was shut down before.
    AlreadyShutdown,
    /// The operation took longer than it may, in nanoseconds.
    Timeout(u128),
    /// Something went wrong inside.
    InternalFailure(String),
}

/// What an [`OTelSdkError`] says.
pub enum ErrorView {
    AlreadyShutdown,
    Timeout(u128),
    InternalFailure(Seq<char>),
}

impl View for OTelSdkError {
    type V = ErrorView;

    open spec fn view(&self) -> ErrorView {
        match self {
            OTelSdkError::AlreadyShutdown => ErrorView::AlreadyShutdown,
            OTelSdkError::Timeout(nanos) => ErrorView::Timeout(*nanos),
            OTelSdkError::InternalFailure(message) => ErrorView::InternalFailure(message@),
        }
    }
}

/// What went wrong, if anything did.
pub open spec fn failure(result: Result<(), OTelSdkError>) -> Option<ErrorView> {
    match result {
        Ok(_) => None,
        Err(error) => Some(error@),
    }
}

/// A background task did not stop as it should.
#[derive(Debug, PartialEq, Eq)]
pub enum WorkerError {
    /// It did not stop in time.
    ShutdownTimedOut,
    /// It failed, and says how.
    Failed(String),
}

} // verus!
