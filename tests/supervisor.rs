use watch_run::supervisor::{PollResult, Supervisor, SupervisorAction, SupervisorState};

#[test]
fn new_supervisor_polls() {
    let s = Supervisor::new(false);
    assert!(s.is_polling());
    assert_eq!(s.state, SupervisorState::Polling { drained: false });
}

#[test]
fn running_without_output_waits() {
    let mut s = Supervisor::new(false);
    assert_eq!(s.step(PollResult::Running), SupervisorAction::Wait);
    assert_eq!(s.step(PollResult::Running), SupervisorAction::Wait);
    assert!(s.is_polling());
}

#[test]
fn running_with_output_drains_once() {
    let mut s = Supervisor::new(true);
    assert_eq!(s.step(PollResult::Running), SupervisorAction::DrainOutput);
    assert_eq!(s.step(PollResult::Running), SupervisorAction::Wait);
    assert_eq!(s.state, SupervisorState::Polling { drained: true });
}

#[test]
fn companion_exit_two_reported_once() {
    let mut s = Supervisor::new(false);
    assert_eq!(
        s.step(PollResult::Exited { code: Some(2) }),
        SupervisorAction::ReportFailure { code: Some(2) }
    );
    assert_eq!(s.state, SupervisorState::Failed);
    assert!(!s.is_polling());
    assert_eq!(s.step(PollResult::Exited { code: Some(2) }), SupervisorAction::Finish);
    assert_eq!(s.step(PollResult::Running), SupervisorAction::Finish);
}

#[test]
fn signal_exit_is_failure() {
    let mut s = Supervisor::new(true);
    assert_eq!(
        s.step(PollResult::Exited { code: None }),
        SupervisorAction::ReportFailure { code: None }
    );
}

#[test]
fn successful_exit_finishes_silently() {
    let mut s = Supervisor::new(true);
    assert_eq!(s.step(PollResult::Exited { code: Some(0) }), SupervisorAction::Finish);
    assert_eq!(s.state, SupervisorState::Succeeded);
}

#[test]
fn poll_error_is_reported_and_stops() {
    let mut s = Supervisor::new(false);
    assert_eq!(s.step(PollResult::PollError), SupervisorAction::ReportPollError);
    assert_eq!(s.state, SupervisorState::Failed);
    assert_eq!(s.step(PollResult::PollError), SupervisorAction::Finish);
}
