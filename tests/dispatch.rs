use watch_run::dispatch::{
    DispatchAction, Dispatcher, Phase, ProcessOutcome, Verdict, WatchEvent, FAILURE_EXIT_STATUS,
};
use watch_run::supervisor::{PollResult, Supervisor, SupervisorAction};

fn outcome(code: Option<i32>, stdout: &[u8], stderr: &[u8]) -> ProcessOutcome {
    ProcessOutcome { exit_code: code, stdout: stdout.to_vec(), stderr: stderr.to_vec() }
}

#[test]
fn outcome_success_needs_status_zero() {
    assert!(outcome(Some(0), b"", b"").succeeded());
    assert!(!outcome(Some(1), b"", b"").succeeded());
    assert!(!outcome(None, b"", b"").succeeded());
}

#[test]
fn echo_hello_is_shown_and_loop_goes_on() {
    let mut d = Dispatcher::new(true);
    assert_eq!(d.on_event(WatchEvent::Write), DispatchAction::RunPrimary);
    assert_eq!(d.phase, Phase::Running);
    let o = outcome(Some(0), b"hello\n", b"");
    assert_eq!(d.on_outcome(&o), Verdict::Continue { show_stdout: true });
    assert_eq!(d.phase, Phase::Waiting);
}

#[test]
fn output_hidden_without_show_output() {
    let mut d = Dispatcher::new(false);
    d.on_event(WatchEvent::Write);
    assert_eq!(d.on_outcome(&outcome(Some(0), b"hello\n", b"")), Verdict::Continue { show_stdout: false });
}

#[test]
fn failing_command_terminates_with_status_one() {
    let mut d = Dispatcher::new(false);
    assert_eq!(d.on_event(WatchEvent::Write), DispatchAction::RunPrimary);
    let v = d.on_outcome(&outcome(Some(1), b"", b""));
    assert_eq!(v, Verdict::Terminate { exit_status: 1 });
    assert_eq!(FAILURE_EXIT_STATUS, 1);
    assert_eq!(d.phase, Phase::Stopped);
}

#[test]
fn signal_ended_command_terminates() {
    let mut d = Dispatcher::new(true);
    d.on_event(WatchEvent::Write);
    assert_eq!(d.on_outcome(&outcome(None, b"", b"killed")), Verdict::Terminate { exit_status: 1 });
}

#[test]
fn two_writes_run_twice_in_turn() {
    let mut d = Dispatcher::new(false);
    let mut runs = 0;
    for _ in 0..2 {
        assert_eq!(d.phase, Phase::Waiting);
        if d.on_event(WatchEvent::Write) == DispatchAction::RunPrimary {
            runs += 1;
            assert_eq!(d.phase, Phase::Running);
            d.on_outcome(&outcome(Some(0), b"", b""));
        }
    }
    assert_eq!(runs, 2);
    assert_eq!(d.phase, Phase::Waiting);
}

#[test]
fn watch_error_is_reported_and_loop_goes_on() {
    let mut d = Dispatcher::new(false);
    assert_eq!(d.on_event(WatchEvent::WatchError), DispatchAction::ReportWatchError);
    assert_eq!(d.phase, Phase::Waiting);
    assert_eq!(d.on_event(WatchEvent::Write), DispatchAction::RunPrimary);
}

#[test]
fn other_events_are_ignored() {
    let mut d = Dispatcher::new(false);
    assert_eq!(d.on_event(WatchEvent::Other), DispatchAction::Ignore);
    assert_eq!(d.phase, Phase::Waiting);
}

#[test]
fn companion_failure_leaves_loop_running() {
    let mut s = Supervisor::new(false);
    let mut d = Dispatcher::new(false);
    assert_eq!(
        s.step(PollResult::Exited { code: Some(2) }),
        SupervisorAction::ReportFailure { code: Some(2) }
    );
    for _ in 0..3 {
        assert_eq!(d.on_event(WatchEvent::Write), DispatchAction::RunPrimary);
        assert_eq!(d.on_outcome(&outcome(Some(0), b"", b"")), Verdict::Continue { show_stdout: false });
        assert_eq!(s.step(PollResult::Running), SupervisorAction::Finish);
    }
}
