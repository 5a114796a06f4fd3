use vstd::prelude::*;

verus! {

/// The exit code when one of the daemon's task groups finished: 0 when it
/// ended normally, 1 when it failed.
pub fn check_task_result(result: &Result<(), ()>) -> (r: i32)
    ensures
        result is Ok ==> r == 0,
        result is Err ==> r == 1,
{
    match result {
        Ok(_) => 0,
        Err(_) => 1,
    }
}

/// The exit code of the daemon: the code its run ended with, unless
/// shutting down one of the task groups failed, which gives 2.
pub fn exit_code(run_code: i32, sources_shut_down: bool, processors_shut_down: bool) -> (r: i32)
    ensures
        sources_shut_down && processors_shut_down ==> r == run_code,
        !(sources_shut_down && processors_shut_down) ==> r == 2,
{
    if !sources_shut_down || !processors_shut_down {
        2
    } else {
        run_code
    }
}

/// A step of the daemon's start that can fail.
#[derive(Clone, Copy, Debug, PartialEq, Eq)]
pub enum InitStep {
    /// Setting up the polling tasks of the sources.
    Sources,
    /// Setting up the sinks.
    Sinks,
    /// Finding the GPIO switch among the sinks, with the right type.
    GpioSwitchSink,
    /// Setting up the processors.
    Processors,
    /// Creating the session manager of the API.
    SessionManager,
    /// Parsing the API's listen address.
    ListenAddress,
}

/// The exit code of the daemon when a step of its start fails: 0 when the
/// sources, the sinks or the processors could not be set up, 2 when the
/// GPIO switch sink is missing or has the wrong type, the session manager
/// cannot be created or the listen address is not an IP address.
pub fn init_failure_exit_code(step: InitStep) -> (r: i32)
    ensures
        (step == InitStep::Sources || step == InitStep::Sinks || step == InitStep::Processors)
            ==> r == 0,
        (step == InitStep::GpioSwitchSink || step == InitStep::SessionManager || step
            == InitStep::ListenAddress) ==> r == 2,
{
    match step {
        InitStep::Sources => 0,
        InitStep::Sinks => 0,
        InitStep::GpioSwitchSink => 2,
        InitStep::Processors => 0,
        InitStep::SessionManager => 2,
        InitStep::ListenAddress => 2,
    }
}

/// What ended the daemon's run.
#[derive(Clone, Copy, Debug, PartialEq, Eq)]
pub enum RunEnd {
    /// The sources' task group finished, normally or not.
    Sources(bool),
    /// The processors' task group finished, normally or not.
    Processors(bool),
    /// The API server stopped.
    Server,
    /// The daemon was interrupted (SIGINT).
    Interrupted,
}

/// The code the daemon's run ended with: that of the task group that
/// finished (0 when it ended normally, 1 when it failed), 1 when the API
/// server stopped, 0 on an interrupt.
pub fn run_exit_code(end: RunEnd) -> (r: i32)
    ensures
        end matches RunEnd::Sources(ok) ==> r == (if ok { 0i32 } else { 1i32 }),
        end matches RunEnd::Processors(ok) ==> r == (if ok { 0i32 } else { 1i32 }),
        end == RunEnd::Server ==> r == 1,
        end == RunEnd::Interrupted ==> r == 0,
{
    match end {
        RunEnd::Sources(ok) => {
            let res: Result<(), ()> = if ok { Ok(()) } else { Err(()) };
            check_task_result(&res)
        },
        RunEnd::Processors(ok) => {
            let res: Result<(), ()> = if ok { Ok(()) } else { Err(()) };
            check_task_result(&res)
        },
        RunEnd::Server => 1,
        RunEnd::Interrupted => 0,
    }
}

/// How the daemon got past its start: a configuration test ends right
/// there, a run ends by `end` and is then shut down.
#[derive(Clone, Copy, Debug, PartialEq, Eq)]
pub enum DaemonOutcome {
    /// Only the configuration was tested: no task group was run.
    ConfigTested,
    /// The task groups ran until `end`; each flag tells whether shutting
    /// down that group succeeded.
    Ran { end: RunEnd, sources_shut_down: bool, processors_shut_down: bool },
}

/// The exit code of the daemon once it has started: 0 after a
/// configuration test; after a run, 2 when shutting down the sources or
/// the processors failed, else the code the run ended with.
pub fn daemon_exit_code(outcome: DaemonOutcome) -> (r: i32)
    ensures
        outcome == DaemonOutcome::ConfigTested ==> r == 0,
        outcome matches DaemonOutcome::Ran { end, sources_shut_down, processors_shut_down } ==> (
        !(sources_shut_down && processors_shut_down) ==> r == 2),
        outcome matches DaemonOutcome::Ran { end, sources_shut_down, processors_shut_down } ==> (
        sources_shut_down && processors_shut_down ==> r == (match end {
            RunEnd::Sources(ok) => if ok { 0i32 } else { 1i32 },
            RunEnd::Processors(ok) => if ok { 0i32 } else { 1i32 },
            RunEnd::Server => 1i32,
            RunEnd::Interrupted => 0i32,
        })),
{
    match outcome {
        DaemonOutcome::ConfigTested => 0,
        DaemonOutcome::Ran { end, sources_shut_down, processors_shut_down } => {
            let code = run_exit_code(end);
            exit_code(code, sources_shut_down, processors_shut_down)
        },
    }
}

} // verus!
