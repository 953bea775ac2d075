//! The shutdown of the background tasks, one after the other, within one time limit.

use crate::errors::{ErrorView, OTelSdkError, WorkerError};
use crate::errors;
use crate::text;
use vstd::prelude::*;

verus! {

/// A background task.
#[derive(Debug, Clone, Copy, PartialEq, Eq)]
pub enum Worker {
    /// The one that sends spans.
    Exporter,
    /// The one that fetches configuration.
    RemoteConfig,
    /// The one that collects metrics.
    Telemetry,
}

/// A shutdown that is under way. Times are in nanoseconds.
#[derive(Debug, Clone, Copy)]
pub struct Shutdown {
    /// How long the shutdown may take.
    pub timeout: u128,
    /// When it must be over.
    pub deadline: u128,
    /// Whether configuration is fetched.
    pub has_remote_config: bool,
    /// Whether metrics are collected.
    pub has_telemetry: bool,
}

/// What is to be done next.
#[derive(Debug, PartialEq, Eq)]
pub enum ShutdownStep {
    /// Tell these tasks to stop, in this order.
    Stop(Vec<Worker>),
    /// Wait for a task to stop, for so long.
    Wait(Worker, u128),
    /// The shutdown is over.
    Done(Result<(), OTelSdkError>),
}

/// What a [`ShutdownStep`] says.
pub enum StepView {
    Stop(Seq<Worker>),
    Wait(Worker, nat),
    Done(Option<ErrorView>),
}

impl View for ShutdownStep {
    type V = StepView;

    open spec fn view(&self) -> StepView {
        match self {
            ShutdownStep::Stop(tasks) => StepView::Stop(tasks@),
            ShutdownStep::Wait(worker, left) => StepView::Wait(*worker, *left as nat),
            ShutdownStep::Done(result) => StepView::Done(errors::failure(*result)),
        }
    }
}

/// The time that is left at `now`.
pub open spec fn time_left(deadline: u128, now: u128) -> nat {
    if deadline <= now {
        0
    } else {
        (deadline - now) as nat
    }
}

/// The tasks that there are, in the order in which they are told to stop.
pub open spec fn tasks_of(shutdown: Shutdown) -> Seq<Worker> {
    seq![Worker::Exporter] + (if shutdown.has_remote_config {
        seq![Worker::RemoteConfig]
    } else {
        Seq::empty()
    }) + (if shutdown.has_telemetry {
        seq![Worker::Telemetry]
    } else {
        Seq::empty()
    })
}

/// What comes after the tasks were told to stop: waiting for the one that sends spans.
pub open spec fn step_after_stop(shutdown: Shutdown, now: u128) -> StepView {
    StepView::Wait(Worker::Exporter, time_left(shutdown.deadline, now))
}

/// What the failure of the exporter is reported as: a timeout is that of the whole shutdown.
pub open spec fn exporter_failure(timeout: u128, result: Result<(), OTelSdkError>) -> Option<
    ErrorView,
> {
    match result {
        Ok(_) => None,
        Err(OTelSdkError::Timeout(_)) => Some(ErrorView::Timeout(timeout)),
        Err(error) => Some(error@),
    }
}

/// What the failure of another task is reported as.
pub open spec fn worker_failure(
    timeout: u128,
    prefix: Seq<char>,
    result: Result<(), WorkerError>,
) -> Option<ErrorView> {
    match result {
        Ok(_) => None,
        Err(WorkerError::ShutdownTimedOut) => Some(ErrorView::Timeout(timeout)),
        Err(WorkerError::Failed(message)) => Some(ErrorView::InternalFailure(prefix + message@)),
    }
}

/// How the message on the task that fetches configuration begins.
pub open spec fn remote_config_prefix() -> Seq<char> {
    "RemoteConfigClient.shutdown_with_timeout: "@
}

/// How the message on the task that collects metrics begins.
pub open spec fn telemetry_prefix() -> Seq<char> {
    "TelemetryMetricsCollector.shutdown_with_timeout: "@
}

/// What comes after the task that sends spans.
pub open spec fn step_after_exporter(
    shutdown: Shutdown,
    result: Result<(), OTelSdkError>,
    now: u128,
) -> StepView {
    match exporter_failure(shutdown.timeout, result) {
        Some(error) => StepView::Done(Some(error)),
        None => if shutdown.has_remote_config {
            StepView::Wait(Worker::RemoteConfig, time_left(shutdown.deadline, now))
        } else if shutdown.has_telemetry {
            StepView::Wait(Worker::Telemetry, time_left(shutdown.deadline, now))
        } else {
            StepView::Done(None)
        },
    }
}

/// What comes after the task that fetches configuration.
pub open spec fn step_after_remote_config(
    shutdown: Shutdown,
    result: Result<(), WorkerError>,
    now: u128,
) -> StepView {
    match worker_failure(shutdown.timeout, remote_config_prefix(), result) {
        Some(error) => StepView::Done(Some(error)),
        None => if shutdown.has_telemetry {
            StepView::Wait(Worker::Telemetry, time_left(shutdown.deadline, now))
        } else {
            StepView::Done(None)
        },
    }
}

/// What a task that stopped or not is reported as.
fn worker_result(timeout: u128, prefix: &str, result: Result<(), WorkerError>) -> (reported: Result<
    (),
    OTelSdkError,
>)
    ensures
        errors::failure(reported) == worker_failure(timeout, prefix@, result),
{
    match result {
        Ok(_) => Ok(()),
        Err(WorkerError::ShutdownTimedOut) => Err(OTelSdkError::Timeout(timeout)),
        Err(WorkerError::Failed(message)) => {
            Err(OTelSdkError::InternalFailure(text::join(prefix, message.as_str())))
        },
    }
}

impl Shutdown {
    /// A shutdown that begins at `now`.
    pub fn new(
        timeout: u128,
        now: u128,
        has_remote_config: bool,
        has_telemetry: bool,
    ) -> (shutdown: Shutdown)
        requires
            now + timeout <= u128::MAX,
        ensures
            shutdown == (Shutdown {
                timeout,
                deadline: (now + timeout) as u128,
                has_remote_config,
                has_telemetry,
            }),
    {
        Shutdown { timeout, deadline: now + timeout, has_remote_config, has_telemetry }
    }

    /// The time that is left at `now`.
    fn left(&self, now: u128) -> (left: u128)
        ensures
            left == time_left(self.deadline, now),
    {
        self.deadline.saturating_sub(now)
    }

    /// What comes first: all tasks are told to stop, before any is waited for.
    pub fn first_step(&self) -> (step: ShutdownStep)
        ensures
            step@ == StepView::Stop(tasks_of(*self)),
    {
        let mut tasks: Vec<Worker> = Vec::new();
        tasks.push(Worker::Exporter);
        if self.has_remote_config {
            tasks.push(Worker::RemoteConfig);
        }
        if self.has_telemetry {
            tasks.push(Worker::Telemetry);
        }
        assert(tasks@ =~= tasks_of(*self));
        ShutdownStep::Stop(tasks)
    }

    /// What comes after the tasks were told to stop.
    pub fn after_stop(&self, now: u128) -> (step: ShutdownStep)
        ensures
            step@ == step_after_stop(*self, now),
    {
        ShutdownStep::Wait(Worker::Exporter, self.left(now))
    }

    /// What comes after the task that sends spans has stopped or not.
    pub fn after_exporter(&self, result: Result<(), OTelSdkError>, now: u128) -> (step:
        ShutdownStep)
        ensures
            step@ == step_after_exporter(*self, result, now),
    {
        match result {
            Err(OTelSdkError::Timeout(_)) => {
                ShutdownStep::Done(Err(OTelSdkError::Timeout(self.timeout)))
            },
            Err(error) => ShutdownStep::Done(Err(error)),
            Ok(_) => if self.has_remote_config {
                ShutdownStep::Wait(Worker::RemoteConfig, self.left(now))
            } else if self.has_telemetry {
                ShutdownStep::Wait(Worker::Telemetry, self.left(now))
            } else {
                ShutdownStep::Done(Ok(()))
            },
        }
    }

    /// What comes after the task that fetches configuration has stopped or not.
    pub fn after_remote_config(&self, result: Result<(), WorkerError>, now: u128) -> (step:
        ShutdownStep)
        ensures
            step@ == step_after_remote_config(*self, result, now),
    {
        match worker_result(
            self.timeout,
            "RemoteConfigClient.shutdown_with_timeout: ",
            result,
        ) {
            Err(error) => ShutdownStep::Done(Err(error)),
            Ok(_) => if self.has_telemetry {
                ShutdownStep::Wait(Worker::Telemetry, self.left(now))
            } else {
                ShutdownStep::Done(Ok(()))
            },
        }
    }

    /// How the shutdown ends after the task that collects metrics has stopped or not.
    pub fn after_telemetry(&self, result: Result<(), WorkerError>) -> (step: ShutdownStep)
        ensures
            step@ == StepView::Done(worker_failure(self.timeout, telemetry_prefix(), result)),
    {
        ShutdownStep::Done(
            worker_result(
                self.timeout,
                "TelemetryMetricsCollector.shutdown_with_timeout: ",
                result,
            ),
        )
    }
}

/// How a shutdown ends, from how its tasks stopped: with the first failure, in the order of the
/// tasks.
pub open spec fn shutdown_failure(
    shutdown: Shutdown,
    exporter: Result<(), OTelSdkError>,
    remote_config: Result<(), WorkerError>,
    telemetry: Result<(), WorkerError>,
) -> Option<ErrorView> {
    if exporter_failure(shutdown.timeout, exporter) is Some {
        exporter_failure(shutdown.timeout, exporter)
    } else if shutdown.has_remote_config && worker_failure(
        shutdown.timeout,
        remote_config_prefix(),
        remote_config,
    ) is Some {
        worker_failure(shutdown.timeout, remote_config_prefix(), remote_config)
    } else if shutdown.has_telemetry {
        worker_failure(shutdown.timeout, telemetry_prefix(), telemetry)
    } else {
        None
    }
}

/// All steps of a shutdown, where the tasks stop as they do and the steps are taken at these times.
pub open spec fn shutdown_steps(
    shutdown: Shutdown,
    exporter: Result<(), OTelSdkError>,
    remote_config: Result<(), WorkerError>,
    telemetry: Result<(), WorkerError>,
    stopped: u128,
    first: u128,
    second: u128,
) -> Seq<StepView> {
    let begin = seq![StepView::Stop(tasks_of(shutdown)), step_after_stop(shutdown, stopped)];
    let last = StepView::Done(worker_failure(shutdown.timeout, telemetry_prefix(), telemetry));
    let after_exporter = step_after_exporter(shutdown, exporter, first);
    match after_exporter {
        StepView::Wait(Worker::RemoteConfig, _) => {
            let after_remote_config = step_after_remote_config(shutdown, remote_config, second);
            if after_remote_config is Done {
                begin.push(after_exporter).push(after_remote_config)
            } else {
                begin.push(after_exporter).push(after_remote_config).push(last)
            }
        },
        StepView::Done(_) => begin.push(after_exporter),
        _ => begin.push(after_exporter).push(last),
    }
}

/// A shutdown ends with the first failure in the order of the tasks, and with success where there is
/// none; no step but the last one ends it.
pub proof fn law_first_failure_is_reported(
    shutdown: Shutdown,
    exporter: Result<(), OTelSdkError>,
    remote_config: Result<(), WorkerError>,
    telemetry: Result<(), WorkerError>,
    stopped: u128,
    first: u128,
    second: u128,
)
    ensures
        ({
            let steps = shutdown_steps(
                shutdown,
                exporter,
                remote_config,
                telemetry,
                stopped,
                first,
                second,
            );
            &&& steps.last() == StepView::Done(
                shutdown_failure(shutdown, exporter, remote_config, telemetry),
            )
            &&& forall|i: int| 0 <= i < steps.len() - 1 ==> !(#[trigger] steps[i] is Done)
        }),
{
}

/// All tasks are told to stop before any is waited for, whatever comes of them: that is the first
/// step, no other step does it, and every task that is waited for is among those told.
pub proof fn law_tasks_are_stopped_before_waiting(
    shutdown: Shutdown,
    exporter: Result<(), OTelSdkError>,
    remote_config: Result<(), WorkerError>,
    telemetry: Result<(), WorkerError>,
    stopped: u128,
    first: u128,
    second: u128,
)
    ensures
        ({
            let steps = shutdown_steps(
                shutdown,
                exporter,
                remote_config,
                telemetry,
                stopped,
                first,
                second,
            );
            &&& steps[0] == StepView::Stop(tasks_of(shutdown))
            &&& tasks_of(shutdown).contains(Worker::Exporter)
            &&& tasks_of(shutdown).contains(Worker::RemoteConfig) == shutdown.has_remote_config
            &&& tasks_of(shutdown).contains(Worker::Telemetry) == shutdown.has_telemetry
            &&& forall|i: int| 0 < i < steps.len() ==> !(#[trigger] steps[i] is Stop)
            &&& forall|i: int|
                0 <= i < steps.len() ==> (#[trigger] steps[i] matches StepView::Wait(worker, _)
                    ==> tasks_of(shutdown).contains(worker))
        }),
{
    let tasks = tasks_of(shutdown);
    assert(tasks[0] == Worker::Exporter);
    if shutdown.has_remote_config {
        assert(tasks[1] == Worker::RemoteConfig);
    }
    if shutdown.has_telemetry {
        assert(tasks.last() == Worker::Telemetry);
        assert(tasks.contains(tasks[tasks.len() - 1]));
    }
}

/// Where a wait ran out of time, the shutdown ends with the timeout of the whole call, never with the
/// time that was left.
pub proof fn law_timeout_is_that_of_the_call(
    shutdown: Shutdown,
    exporter: Result<(), OTelSdkError>,
    remote_config: Result<(), WorkerError>,
    telemetry: Result<(), WorkerError>,
)
    ensures
        exporter matches Err(OTelSdkError::Timeout(_)) ==> shutdown_failure(
            shutdown,
            exporter,
            remote_config,
            telemetry,
        ) == Some(ErrorView::Timeout(shutdown.timeout)),
        shutdown_failure(shutdown, exporter, remote_config, telemetry) matches Some(
            ErrorView::Timeout(nanos),
        ) ==> nanos == shutdown.timeout,
{
}

/// No step waits past the deadline: a wait that begins at `now` ends by then, or does not wait.
pub proof fn law_no_wait_past_the_deadline(
    shutdown: Shutdown,
    exporter: Result<(), OTelSdkError>,
    remote_config: Result<(), WorkerError>,
    now: u128,
)
    ensures
        step_after_stop(shutdown, now) matches StepView::Wait(_, left) ==> left == 0 || now + left
            == shutdown.deadline,
        step_after_exporter(shutdown, exporter, now) matches StepView::Wait(_, left) ==> left == 0
            || now + left == shutdown.deadline,
        step_after_remote_config(shutdown, remote_config, now) matches StepView::Wait(_, left)
            ==> left == 0 || now + left == shutdown.deadline,
{
}

/// Which tasks are told to stop, in this order: the one that sends spans always, the one that fetches
/// configuration and the one that collects metrics where there are such.
pub proof fn law_order_of_stopping(shutdown: Shutdown)
    ensures
        ({
            let tasks = tasks_of(shutdown);
            let both = shutdown.has_remote_config && shutdown.has_telemetry;
            &&& tasks.len() == 1 + (if shutdown.has_remote_config {
                1int
            } else {
                0int
            }) + (if shutdown.has_telemetry {
                1int
            } else {
                0int
            })
            &&& tasks[0] == Worker::Exporter
            &&& shutdown.has_remote_config ==> tasks[1] == Worker::RemoteConfig
            &&& shutdown.has_telemetry && !shutdown.has_remote_config ==> tasks[1]
                == Worker::Telemetry
            &&& both ==> tasks[2] == Worker::Telemetry
        }),
{
}

/// What comes after a task that stopped as it should: waiting for the next one that there is, for the
/// whole time that is left and for none once the deadline has passed, and success after the last.
pub proof fn law_next_task_is_waited_for(shutdown: Shutdown, now: u128, left: nat)
    requires
        now <= shutdown.deadline ==> now + left == shutdown.deadline,
        now > shutdown.deadline ==> left == 0,
    ensures
        step_after_stop(shutdown, now) == StepView::Wait(Worker::Exporter, left),
        step_after_exporter(shutdown, Ok(()), now) == if shutdown.has_remote_config {
            StepView::Wait(Worker::RemoteConfig, left)
        } else if shutdown.has_telemetry {
            StepView::Wait(Worker::Telemetry, left)
        } else {
            StepView::Done(None)
        },
        step_after_remote_config(shutdown, Ok(()), now) == if shutdown.has_telemetry {
            StepView::Wait(Worker::Telemetry, left)
        } else {
            StepView::Done(None)
        },
        worker_failure(shutdown.timeout, telemetry_prefix(), Ok(())) is None,
{
}

/// A task that did not stop as it should ends the shutdown: with the timeout of the whole shutdown where
/// its time ran out, with its own failure where the task that sends spans failed, and with its
/// message after the name of the task where another one did.
pub proof fn law_failed_task_ends_the_shutdown(
    shutdown: Shutdown,
    now: u128,
    nanos: u128,
    message: String,
)
    ensures
        ({
            let timeout = StepView::Done(Some(ErrorView::Timeout(shutdown.timeout)));
            &&& step_after_exporter(shutdown, Err(OTelSdkError::Timeout(nanos)), now) == timeout
            &&& step_after_exporter(shutdown, Err(OTelSdkError::AlreadyShutdown), now)
                == StepView::Done(Some(ErrorView::AlreadyShutdown))
            &&& step_after_exporter(shutdown, Err(OTelSdkError::InternalFailure(message)), now)
                == StepView::Done(Some(ErrorView::InternalFailure(message@)))
            &&& step_after_remote_config(shutdown, Err(WorkerError::ShutdownTimedOut), now)
                == timeout
            &&& step_after_remote_config(shutdown, Err(WorkerError::Failed(message)), now)
                == StepView::Done(
                Some(
                    ErrorView::InternalFailure(
                        "RemoteConfigClient.shutdown_with_timeout: "@ + message@,
                    ),
                ),
            )
            &&& worker_failure(
                shutdown.timeout,
                telemetry_prefix(),
                Err(WorkerError::ShutdownTimedOut),
            ) == Some(ErrorView::Timeout(shutdown.timeout))
            &&& worker_failure(
                shutdown.timeout,
                telemetry_prefix(),
                Err(WorkerError::Failed(message)),
            ) == Some(
                ErrorView::InternalFailure(
                    "TelemetryMetricsCollector.shutdown_with_timeout: "@ + message@,
                ),
            )
        }),
{
}

/// A shutdown succeeds exactly where every task that there is stopped as it should.
pub proof fn law_when_a_shutdown_succeeds(
    shutdown: Shutdown,
    exporter: Result<(), OTelSdkError>,
    remote_config: Result<(), WorkerError>,
    telemetry: Result<(), WorkerError>,
)
    ensures
        shutdown_failure(shutdown, exporter, remote_config, telemetry) is None <==> {
            &&& exporter is Ok
            &&& shutdown.has_remote_config ==> remote_config is Ok
            &&& shutdown.has_telemetry ==> telemetry is Ok
        },
{
}

} // verus!
