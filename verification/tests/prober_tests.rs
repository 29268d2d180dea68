use neptune_desktop::prober::PROBE_FIRST_PORT;
use neptune_desktop::prober::PROBE_PORT_COUNT;
use neptune_desktop::prober::PROBE_SETTLE_MILLIS;
use neptune_desktop::prober::ReadinessResult;
use neptune_desktop::prober::probe_result;
use neptune_desktop::supervisor::LaunchStep;
use neptune_desktop::supervisor::SupervisedProcess;
use neptune_desktop::supervisor::Supervisor;
use neptune_desktop::supervisor::SupervisorState;

#[test]
fn probe_reports_the_first_reachable_port() {
    let outcomes = vec![false, false, false, true, false, true, false, false, false, false];
    let verdict = probe_result(&outcomes, PROBE_FIRST_PORT);
    assert_eq!(verdict, ReadinessResult::Ready(8003));
}

#[test]
fn probe_reports_the_default_port_when_it_answers() {
    let outcomes = vec![true, true, false, false, false, false, false, false, false, false];
    let verdict = probe_result(&outcomes, PROBE_FIRST_PORT);
    assert_eq!(verdict, ReadinessResult::Ready(8000));
}

#[test]
fn probe_reports_not_ready_when_no_port_answers() {
    let outcomes = vec![false; PROBE_PORT_COUNT as usize];
    let verdict = probe_result(&outcomes, PROBE_FIRST_PORT);
    assert_eq!(verdict, ReadinessResult::NotReady);
}

#[test]
fn probe_of_an_empty_range_is_not_ready() {
    let outcomes: Vec<bool> = Vec::new();
    let verdict = probe_result(&outcomes, PROBE_FIRST_PORT);
    assert_eq!(verdict, ReadinessResult::NotReady);
}

#[test]
fn unreachable_ports_leave_the_supervisor_running() {
    let mut supervisor = Supervisor::new();
    assert!(supervisor.begin_start().is_ok());
    let spawned = SupervisedProcess { pid: 55, start_timestamp_millis: 2_000 };
    let step = supervisor.handle_attempt(Ok(spawned), true);
    assert_eq!(step, LaunchStep::Started);

    let outcomes = vec![false; PROBE_PORT_COUNT as usize];
    let verdict = probe_result(&outcomes, PROBE_FIRST_PORT);
    assert_eq!(verdict, ReadinessResult::NotReady);

    assert_eq!(supervisor.current_state(), SupervisorState::Running);
    assert_eq!(supervisor.held_process(), Some(spawned));
}

#[test]
fn probe_range_and_settle_delay_match_the_launch_contract() {
    assert_eq!(PROBE_FIRST_PORT, 8000);
    assert_eq!(PROBE_PORT_COUNT, 10);
    assert_eq!(PROBE_SETTLE_MILLIS, 5_000);
}
