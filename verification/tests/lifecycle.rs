use tmp_postgrust::lifecycle::{
    plan_teardown, signal_target, Exit, ProcessGuard, ProcessState, Scheduling, Supervisor,
    TeardownStep, MAX_CONCURRENT_PROCESSES,
};

fn guard(scheduling: Scheduling) -> ProcessGuard {
    ProcessGuard::new(
        scheduling,
        4242,
        5432,
        "/tmp/db.1".to_string(),
        "postgresql://demo@localhost:5432/demo?host=/tmp/sock".to_string(),
    )
}

#[test]
fn eight_servers_may_run_at_once() {
    assert_eq!(MAX_CONCURRENT_PROCESSES, 8);
}

#[test]
fn a_permit_is_kept_until_the_server_has_been_waited_for() {
    for plan in [
        guard(Scheduling::Cooperative).release(),
        plan_teardown(Scheduling::Cooperative, Some(9), None, false, true),
        plan_teardown(Scheduling::Cooperative, Some(9), Some("/d".to_string()), false, true),
    ] {
        let waited = plan.iter().position(|step| *step == TeardownStep::AwaitExit).unwrap();
        let handed_back = plan.iter().position(|step| *step == TeardownStep::ReleasePermit).unwrap();
        assert!(waited < handed_back);
        assert_eq!(handed_back, plan.len() - 1);
    }
}

#[test]
fn a_new_guard_is_ready() {
    let g = guard(Scheduling::Blocking);
    assert_eq!(g.state(), ProcessState::Ready);
    assert!(g.is_usable());
    assert_eq!(g.pid(), 4242);
    assert_eq!(g.port(), 5432);
    assert_eq!(g.data_directory(), "/tmp/db.1");
    assert_eq!(g.scheduling(), Scheduling::Blocking);
    assert_eq!(g.uri(), "postgresql://demo@localhost:5432/demo?host=/tmp/sock");
    assert_eq!(g.connection_string, "postgresql://demo@localhost:5432/demo?host=/tmp/sock");
}

#[test]
fn releasing_a_blocking_guard_signals_waits_and_then_deletes() {
    let mut g = guard(Scheduling::Blocking);
    let plan = g.release();
    assert_eq!(
        plan,
        vec![
            TeardownStep::Interrupt { pid: 4242 },
            TeardownStep::AwaitExit,
            TeardownStep::RemoveDirectory("/tmp/db.1".to_string()),
            TeardownStep::ReleaseSocketDirectory,
        ]
    );
    assert_eq!(g.state(), ProcessState::Stopping);
    assert!(!g.is_usable());
}

#[test]
fn releasing_a_cooperative_guard_asks_the_watcher_and_returns_the_permit_last() {
    let mut g = guard(Scheduling::Cooperative);
    let plan = g.release();
    assert_eq!(
        plan,
        vec![
            TeardownStep::RequestStop,
            TeardownStep::AwaitExit,
            TeardownStep::RemoveDirectory("/tmp/db.1".to_string()),
            TeardownStep::ReleaseSocketDirectory,
            TeardownStep::ReleasePermit,
        ]
    );
    assert_eq!(g.state(), ProcessState::Stopping);
}

#[test]
fn a_guard_is_torn_down_once() {
    let mut g = guard(Scheduling::Blocking);
    assert_eq!(g.release().len(), 4);
    assert!(g.release().is_empty());
    assert_eq!(g.state(), ProcessState::Stopping);
    g.reaped();
    assert_eq!(g.state(), ProcessState::Stopped);
    assert!(g.release().is_empty());
    assert_eq!(g.state(), ProcessState::Stopped);
    assert!(!g.is_usable());
}

#[test]
fn a_ready_guard_does_not_stop_by_itself() {
    let mut g = guard(Scheduling::Cooperative);
    g.reaped();
    assert_eq!(g.state(), ProcessState::Ready);
    assert!(g.is_usable());
}

#[test]
fn a_plan_holds_only_what_is_held() {
    assert!(plan_teardown(Scheduling::Blocking, None, None, false, false).is_empty());
    assert_eq!(
        plan_teardown(Scheduling::Cooperative, None, None, false, true),
        vec![TeardownStep::ReleasePermit]
    );
    assert_eq!(
        plan_teardown(Scheduling::Cooperative, None, Some("/d".to_string()), false, true),
        vec![TeardownStep::RemoveDirectory("/d".to_string()), TeardownStep::ReleasePermit]
    );
    assert_eq!(
        plan_teardown(Scheduling::Blocking, Some(7), Some("/d".to_string()), false, false),
        vec![
            TeardownStep::Interrupt { pid: 7 },
            TeardownStep::AwaitExit,
            TeardownStep::RemoveDirectory("/d".to_string()),
        ]
    );
    assert_eq!(
        plan_teardown(Scheduling::Cooperative, Some(7), None, true, false),
        vec![TeardownStep::RequestStop, TeardownStep::AwaitExit, TeardownStep::ReleaseSocketDirectory]
    );
}

#[test]
fn a_watcher_starts_with_a_starting_process() {
    let w = Supervisor::new(99);
    assert_eq!(w, Supervisor { pid: 99, state: ProcessState::Starting });
}

#[test]
fn the_marker_makes_a_starting_process_ready() {
    let mut w = Supervisor::new(99);
    w.marker_seen();
    assert_eq!(w.state, ProcessState::Ready);
    w.marker_seen();
    assert_eq!(w.state, ProcessState::Ready);
    let mut stopped = Supervisor { pid: 1, state: ProcessState::Stopped };
    stopped.marker_seen();
    assert_eq!(stopped.state, ProcessState::Stopped);
    let mut stopping = Supervisor { pid: 1, state: ProcessState::Stopping };
    stopping.marker_seen();
    assert_eq!(stopping.state, ProcessState::Stopping);
}

#[test]
fn a_stop_request_that_comes_first_signals_the_process() {
    let mut w = Supervisor::new(99);
    w.marker_seen();
    assert_eq!(
        w.stop_requested(),
        vec![TeardownStep::Interrupt { pid: 99 }, TeardownStep::AwaitExit]
    );
    assert_eq!(w.state, ProcessState::Stopping);
    assert!(w.stop_requested().is_empty());
    assert_eq!(w.exited(), Exit::Requested);
    assert_eq!(w.state, ProcessState::Stopped);
}

#[test]
fn an_exit_that_comes_first_is_unsolicited() {
    let mut w = Supervisor::new(99);
    assert_eq!(w.exited(), Exit::Unsolicited);
    assert_eq!(w.state, ProcessState::Stopped);
    assert!(w.stop_requested().is_empty());
    assert_eq!(w.state, ProcessState::Stopped);
    assert_eq!(w.exited(), Exit::Repeated);

    let mut ready = Supervisor { pid: 5, state: ProcessState::Ready };
    assert_eq!(ready.exited(), Exit::Unsolicited);
}

#[test]
fn a_starting_process_can_be_stopped() {
    let mut w = Supervisor::new(12);
    assert_eq!(
        w.stop_requested(),
        vec![TeardownStep::Interrupt { pid: 12 }, TeardownStep::AwaitExit]
    );
    assert_eq!(w.state, ProcessState::Stopping);
}

#[test]
fn process_numbers_that_fit_are_signal_targets() {
    assert_eq!(signal_target(0), Some(0));
    assert_eq!(signal_target(4242), Some(4242));
    assert_eq!(signal_target(2147483647), Some(2147483647));
    assert_eq!(signal_target(2147483648), None);
    assert_eq!(signal_target(u32::MAX), None);
}
