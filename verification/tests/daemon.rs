use empowerd::daemon::{
    check_task_result, daemon_exit_code, exit_code, init_failure_exit_code, run_exit_code,
    DaemonOutcome, InitStep, RunEnd,
};

#[test]
fn exit_codes() {
    assert_eq!(0, check_task_result(&Ok(())));
    assert_eq!(1, check_task_result(&Err(())));
    assert_eq!(1, exit_code(1, true, true));
    assert_eq!(2, exit_code(0, false, true));
    assert_eq!(2, exit_code(0, true, false));
}

#[test]
fn init_failure_exit_codes() {
    assert_eq!(0, init_failure_exit_code(InitStep::Sources));
    assert_eq!(0, init_failure_exit_code(InitStep::Sinks));
    assert_eq!(0, init_failure_exit_code(InitStep::Processors));
    assert_eq!(2, init_failure_exit_code(InitStep::GpioSwitchSink));
    assert_eq!(2, init_failure_exit_code(InitStep::SessionManager));
    assert_eq!(2, init_failure_exit_code(InitStep::ListenAddress));
}

#[test]
fn run_exit_codes() {
    assert_eq!(0, run_exit_code(RunEnd::Sources(true)));
    assert_eq!(1, run_exit_code(RunEnd::Sources(false)));
    assert_eq!(0, run_exit_code(RunEnd::Processors(true)));
    assert_eq!(1, run_exit_code(RunEnd::Processors(false)));
    assert_eq!(1, run_exit_code(RunEnd::Server));
    assert_eq!(0, run_exit_code(RunEnd::Interrupted));
}

#[test]
fn daemon_exit_codes() {
    assert_eq!(0, daemon_exit_code(DaemonOutcome::ConfigTested));
    let ran = |end, s, p| DaemonOutcome::Ran { end, sources_shut_down: s, processors_shut_down: p };
    assert_eq!(1, daemon_exit_code(ran(RunEnd::Server, true, true)));
    assert_eq!(0, daemon_exit_code(ran(RunEnd::Interrupted, true, true)));
    assert_eq!(1, daemon_exit_code(ran(RunEnd::Sources(false), true, true)));
    assert_eq!(2, daemon_exit_code(ran(RunEnd::Interrupted, false, true)));
    assert_eq!(2, daemon_exit_code(ran(RunEnd::Processors(true), true, false)));
}
