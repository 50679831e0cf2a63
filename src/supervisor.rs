//! Decisions of the companion supervisor: what to do after each status check of
//! the long-lived companion process.

use vstd::prelude::*;

verus! {

/// Where the supervisor stands.
#[derive(Clone, Copy, Debug, PartialEq, Eq, Structural)]
pub enum SupervisorState {
    /// The companion runs; `drained` tells whether its output was already shown.
    Polling { drained: bool },
    /// The companion exited with success.
    Succeeded,
    /// The companion exited with failure, or its status could not be queried.
    Failed,
}

/// What one non-blocking status check of the companion found.
#[derive(Clone, Copy, Debug, PartialEq, Eq, Structural)]
pub enum PollResult {
    Running,
    /// It exited; `code` is absent when a signal ended it.
    Exited { code: Option<i32> },
    /// The status could not be queried.
    PollError,
}

/// What the caller does next.
#[derive(Clone, Copy, Debug, PartialEq, Eq, Structural)]
pub enum SupervisorAction {
    /// Pause, then check again.
    Wait,
    /// Show the companion's standard output, then check again.
    DrainOutput,
    /// Report the exit code and the companion's standard error, then stop.
    ReportFailure { code: Option<i32> },
    /// Report that the status check failed, then stop.
    ReportPollError,
    /// Stop without a word.
    Finish,
}

pub open spec fn step_spec(state: SupervisorState, show_output: bool, poll: PollResult) -> (
    SupervisorState,
    SupervisorAction,
) {
    match state {
        SupervisorState::Polling { drained } => match poll {
            PollResult::Running => if show_output && !drained {
                (SupervisorState::Polling { drained: true }, SupervisorAction::DrainOutput)
            } else {
                (state, SupervisorAction::Wait)
            },
            PollResult::Exited { code } => if code == Some(0i32) {
                (SupervisorState::Succeeded, SupervisorAction::Finish)
            } else {
                (SupervisorState::Failed, SupervisorAction::ReportFailure { code })
            },
            PollResult::PollError => (SupervisorState::Failed, SupervisorAction::ReportPollError),
        },
        _ => (state, SupervisorAction::Finish),
    }
}

/// Whether an action reports a failure.
pub open spec fn is_report(a: SupervisorAction) -> bool {
    a is ReportFailure || a is ReportPollError
}

/// The actions that a run of status checks gives, from `state` on.
pub open spec fn trace(state: SupervisorState, show_output: bool, polls: Seq<PollResult>) -> Seq<
    SupervisorAction,
>
    decreases polls.len(),
{
    if polls.len() == 0 {
        Seq::empty()
    } else {
        let (next, action) = step_spec(state, show_output, polls[0]);
        seq![action] + trace(next, show_output, polls.skip(1))
    }
}

/// How many actions of `actions` report a failure.
pub open spec fn report_count(actions: Seq<SupervisorAction>) -> nat
    decreases actions.len(),
{
    if actions.len() == 0 {
        0
    } else {
        (if is_report(actions[0]) {
            1nat
        } else {
            0nat
        }) + report_count(actions.skip(1))
    }
}

/// Supervises one companion process.
pub struct Supervisor {
    pub state: SupervisorState,
    pub show_output: bool,
}

impl Supervisor {
    /// A supervisor for a companion that was just spawned.
    pub fn new(show_output: bool) -> (r: Supervisor)
        ensures
            r.state == (SupervisorState::Polling { drained: false }),
            r.show_output == show_output,
    {
        Supervisor { state: SupervisorState::Polling { drained: false }, show_output }
    }

    /// Whether the companion is still being watched.
    pub fn is_polling(&self) -> (r: bool)
        ensures
            r == self.state is Polling,
    {
        match self.state {
            SupervisorState::Polling { .. } => true,
            _ => false,
        }
    }

    /// Takes the result of one status check and says what to do next.
    pub fn step(&mut self, poll: PollResult) -> (r: SupervisorAction)
        ensures
            (final(self).state, r) == step_spec(old(self).state, old(self).show_output, poll),
            final(self).show_output == old(self).show_output,
    {
        match self.state {
            SupervisorState::Polling { drained } => match poll {
                PollResult::Running => {
                    if self.show_output && !drained {
                        self.state = SupervisorState::Polling { drained: true };
                        SupervisorAction::DrainOutput
                    } else {
                        SupervisorAction::Wait
                    }
                },
                PollResult::Exited { code } => {
                    let ok = match code {
                        Some(c) => c == 0,
                        None => false,
                    };
                    if ok {
                        self.state = SupervisorState::Succeeded;
                        SupervisorAction::Finish
                    } else {
                        self.state = SupervisorState::Failed;
                        SupervisorAction::ReportFailure { code }
                    }
                },
                PollResult::PollError => {
                    self.state = SupervisorState::Failed;
                    SupervisorAction::ReportPollError
                },
            },
            _ => SupervisorAction::Finish,
        }
    }
}

/// Once the companion has exited there is no way back: every later check gives
/// `Finish` and leaves the state as it is.
pub proof fn lemma_exited_is_final(state: SupervisorState, show_output: bool, poll: PollResult)
    requires
        !(state is Polling),
    ensures
        step_spec(state, show_output, poll) == (state, SupervisorAction::Finish),
{
}

/// From a stopped supervisor no status check reports anything.
proof fn lemma_trace_after_exit(state: SupervisorState, show_output: bool, polls: Seq<PollResult>)
    requires
        !(state is Polling),
    ensures
        report_count(trace(state, show_output, polls)) == 0,
    decreases polls.len(),
{
    if polls.len() > 0 {
        lemma_trace_after_exit(state, show_output, polls.skip(1));
        let t = trace(state, show_output, polls);
        assert(t.skip(1) =~= trace(state, show_output, polls.skip(1)));
    }
}

/// A failure of the companion is reported at most once, whatever the checks
/// find; a failing exit is reported exactly once and ends the supervision.
pub proof fn lemma_failure_reported_once(
    state: SupervisorState,
    show_output: bool,
    polls: Seq<PollResult>,
)
    ensures
        report_count(trace(state, show_output, polls)) <= 1,
    decreases polls.len(),
{
    if polls.len() > 0 {
        let (next, action) = step_spec(state, show_output, polls[0]);
        let t = trace(state, show_output, polls);
        assert(t.skip(1) =~= trace(next, show_output, polls.skip(1)));
        if is_report(action) {
            lemma_trace_after_exit(next, show_output, polls.skip(1));
        } else {
            lemma_failure_reported_once(next, show_output, polls.skip(1));
        }
    }
}

/// A companion that exits with a failing status is reported exactly once,
/// whatever later checks find.
pub proof fn lemma_failing_exit_reported(
    drained: bool,
    show_output: bool,
    code: Option<i32>,
    later: Seq<PollResult>,
)
    requires
        code != Some(0i32),
    ensures
        report_count(
            trace(SupervisorState::Polling { drained }, show_output, seq![PollResult::Exited { code }] + later),
        ) == 1,
{
    let polls = seq![PollResult::Exited { code }] + later;
    assert(polls[0] == PollResult::Exited { code });
    assert(polls.skip(1) =~= later);
    let t = trace(SupervisorState::Polling { drained }, show_output, polls);
    lemma_trace_after_exit(SupervisorState::Failed, show_output, later);
    assert(t.skip(1) =~= trace(SupervisorState::Failed, show_output, later));
}

} // verus!
