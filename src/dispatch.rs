//! Decisions of the dispatch loop: which watch events run the primary command,
//! and what a finished run means for the program.

use vstd::prelude::*;

verus! {

/// The status with which the program ends when the primary command fails.
pub const FAILURE_EXIT_STATUS: i32 = 1;

/// How one run of a command ended, with what it wrote.
#[derive(Clone, Debug)]
pub struct ProcessOutcome {
    /// Absent when a signal ended the process.
    pub exit_code: Option<i32>,
    pub stdout: Vec<u8>,
    pub stderr: Vec<u8>,
}

impl ProcessOutcome {
    pub open spec fn succeeded_spec(&self) -> bool {
        self.exit_code == Some(0i32)
    }

    /// Whether the process exited with status 0.
    pub fn succeeded(&self) -> (r: bool)
        ensures
            r == self.succeeded_spec(),
    {
        match self.exit_code {
            Some(c) => c == 0,
            None => false,
        }
    }
}

/// A notification taken from the watcher, by class.
#[derive(Clone, Copy, Debug, PartialEq, Eq, Structural)]
pub enum WatchEvent {
    /// The watched content was written.
    Write,
    /// Any other change (creation, removal, rename, ...).
    Other,
    /// The watcher handed over an error in place of an event.
    WatchError,
}

/// Where the loop stands.
#[derive(Clone, Copy, Debug, PartialEq, Eq, Structural)]
pub enum Phase {
    /// Waiting for the next event.
    Waiting,
    /// The primary command runs; no event is taken meanwhile.
    Running,
    /// The primary command failed; the program ends.
    Stopped,
}

/// What the loop does with an event.
#[derive(Clone, Copy, Debug, PartialEq, Eq, Structural)]
pub enum DispatchAction {
    RunPrimary,
    ReportWatchError,
    Ignore,
}

/// What the loop does with a finished run of the primary command.
#[derive(Clone, Copy, Debug, PartialEq, Eq, Structural)]
pub enum Verdict {
    /// Go on waiting; show the captured standard output when `show_stdout`.
    Continue { show_stdout: bool },
    /// Report the command, its exit code and its standard error, and end the
    /// program with `exit_status`.
    Terminate { exit_status: i32 },
}

pub open spec fn event_spec(ev: WatchEvent) -> (Phase, DispatchAction) {
    match ev {
        WatchEvent::Write => (Phase::Running, DispatchAction::RunPrimary),
        WatchEvent::Other => (Phase::Waiting, DispatchAction::Ignore),
        WatchEvent::WatchError => (Phase::Waiting, DispatchAction::ReportWatchError),
    }
}

pub open spec fn verdict_spec(succeeded: bool, show_output: bool) -> (Phase, Verdict) {
    if succeeded {
        (Phase::Waiting, Verdict::Continue { show_stdout: show_output })
    } else {
        (Phase::Stopped, Verdict::Terminate { exit_status: FAILURE_EXIT_STATUS })
    }
}

/// The dispatch loop's state.
pub struct Dispatcher {
    pub phase: Phase,
    pub show_output: bool,
}

impl Dispatcher {
    /// A loop that waits for its first event.
    pub fn new(show_output: bool) -> (r: Dispatcher)
        ensures
            r.phase == Phase::Waiting,
            r.show_output == show_output,
    {
        Dispatcher { phase: Phase::Waiting, show_output }
    }

    /// Takes one event: a write runs the primary command, a watcher error is
    /// reported, anything else is ignored.
    pub fn on_event(&mut self, ev: WatchEvent) -> (r: DispatchAction)
        requires
            old(self).phase == Phase::Waiting,
        ensures
            (final(self).phase, r) == event_spec(ev),
            final(self).show_output == old(self).show_output,
    {
        match ev {
            WatchEvent::Write => {
                self.phase = Phase::Running;
                DispatchAction::RunPrimary
            },
            WatchEvent::Other => DispatchAction::Ignore,
            WatchEvent::WatchError => DispatchAction::ReportWatchError,
        }
    }

    /// Takes the outcome of the primary command: success goes back to waiting,
    /// failure ends the program with status 1.
    pub fn on_outcome(&mut self, outcome: &ProcessOutcome) -> (r: Verdict)
        requires
            old(self).phase == Phase::Running,
        ensures
            (final(self).phase, r) == verdict_spec(outcome.succeeded_spec(), old(self).show_output),
            final(self).show_output == old(self).show_output,
    {
        if outcome.succeeded() {
            self.phase = Phase::Waiting;
            Verdict::Continue { show_stdout: self.show_output }
        } else {
            self.phase = Phase::Stopped;
            Verdict::Terminate { exit_status: FAILURE_EXIT_STATUS }
        }
    }
}

/// Serves `events` from `phase`, every run of the primary command succeeding:
/// the phase where the loop ends and how many runs it made. An event is taken
/// only in `Waiting`, and a run ends before the next event is taken.
pub open spec fn serve(phase: Phase, show_output: bool, events: Seq<WatchEvent>) -> (Phase, nat)
    decreases events.len(),
{
    if events.len() == 0 || phase != Phase::Waiting {
        (phase, 0)
    } else {
        let (taken, action) = event_spec(events[0]);
        let after = if taken == Phase::Running {
            verdict_spec(true, show_output).0
        } else {
            taken
        };
        let rest = serve(after, show_output, events.skip(1));
        (rest.0, rest.1 + if action == DispatchAction::RunPrimary {
            1nat
        } else {
            0nat
        })
    }
}

/// How many writes `events` holds.
pub open spec fn writes_in(events: Seq<WatchEvent>) -> nat
    decreases events.len(),
{
    if events.len() == 0 {
        0
    } else {
        (if events[0] == WatchEvent::Write {
            1nat
        } else {
            0nat
        }) + writes_in(events.skip(1))
    }
}

/// While every run succeeds, each write event runs the primary command once and
/// no other event does, one run after the other, and the loop is left waiting.
pub proof fn lemma_one_run_per_write(show_output: bool, events: Seq<WatchEvent>)
    ensures
        serve(Phase::Waiting, show_output, events) == (Phase::Waiting, writes_in(events)),
    decreases events.len(),
{
    if events.len() > 0 {
        lemma_one_run_per_write(show_output, events.skip(1));
    }
}

/// A successful run returns the loop to `Waiting`, where a following write runs
/// the primary command again; a failed run stops the loop for good.
pub proof fn lemma_run_returns_to_waiting(succeeded: bool, show_output: bool)
    ensures
        event_spec(WatchEvent::Write) == (Phase::Running, DispatchAction::RunPrimary),
        succeeded ==> verdict_spec(succeeded, show_output).0 == Phase::Waiting,
        !succeeded ==> verdict_spec(succeeded, show_output) == (
        Phase::Stopped,
        Verdict::Terminate { exit_status: FAILURE_EXIT_STATUS },
        ),
{
}

} // verus!
