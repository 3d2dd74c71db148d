//! The decisions of one run: launch the guess search, wait, launch
//! verification, report its outcome, then report the winning guess. The
//! caller performs each command and hands back what happened.

use crate::guess::GuessStrategy;
use crate::verify::VerifyPlacement;
use vstd::prelude::*;

verus! {

/// The pause between launching the guess search and launching
/// verification, in milliseconds.
pub const LAUNCH_DELAY_MILLIS: u64 = 1500;

/// How long outstanding work may run once the run is done, in milliseconds.
pub const SHUTDOWN_GRACE_MILLIS: u64 = 10_000;

/// The difficulty a run uses unless told otherwise.
pub const DEFAULT_DIFFICULTY: u32 = 8;

/// Where a run stands.
#[derive(Clone, Copy, Debug, PartialEq, Eq, Structural)]
pub enum Phase {
    Idle,
    GuessLaunched,
    VerifyLaunched,
    VerifyAwaited,
    GuessAwaited,
    Done,
}

/// What happened, as the caller reports it.
#[derive(Clone, Copy, Debug, PartialEq, Eq, Structural)]
pub enum Event {
    /// The run begins.
    Start,
    /// The pause after launching the guess search is over.
    DelayElapsed,
    /// Verification completed with this outcome.
    VerifyFinished(bool),
    /// The guess search completed with this winning guess.
    GuessFinished(u64),
    /// The worker pool has been shut down.
    ShutdownFinished,
    /// An offloaded task failed to run to completion.
    TaskFailed,
}

/// What the caller is to do next.
#[derive(Clone, Copy, Debug, PartialEq, Eq, Structural)]
pub enum Command {
    /// Offload the guess search with this strategy; do not wait for it.
    LaunchGuess(GuessStrategy),
    /// Sleep this many milliseconds.
    Sleep(u64),
    /// Start verification with this placement.
    LaunchVerify(VerifyPlacement),
    /// Wait for verification to complete.
    AwaitVerify,
    /// Report the verification outcome.
    ReportVerdict(bool),
    /// Wait for the guess search to complete.
    AwaitGuess,
    /// Report the winning guess.
    ReportGuess(u64),
    /// Shut the worker pool down, giving outstanding work this many
    /// milliseconds.
    Shutdown(u64),
    /// Give the run up.
    Abort,
}

/// The abstract state of a run.
pub struct RunView {
    pub phase: Phase,
    pub guess_strategy: GuessStrategy,
    pub verify_placement: VerifyPlacement,
    pub launch_delay_millis: u64,
    pub grace_millis: u64,
    /// A winning guess that arrived before the verification outcome was
    /// reported, held until then.
    pub held_guess: Option<u64>,
}

/// The coordinator of one run.
#[derive(Clone, Copy, Debug)]
pub struct Orchestrator {
    phase: Phase,
    guess_strategy: GuessStrategy,
    verify_placement: VerifyPlacement,
    launch_delay_millis: u64,
    grace_millis: u64,
    held_guess: Option<u64>,
}

impl View for Orchestrator {
    type V = RunView;

    closed spec fn view(&self) -> RunView {
        RunView {
            phase: self.phase,
            guess_strategy: self.guess_strategy,
            verify_placement: self.verify_placement,
            launch_delay_millis: self.launch_delay_millis,
            grace_millis: self.grace_millis,
            held_guess: self.held_guess,
        }
    }
}

/// The state `s` moved to `phase`, holding `held`.
pub open spec fn moved(s: RunView, phase: Phase, held: Option<u64>) -> RunView {
    RunView { phase, held_guess: held, ..s }
}

/// The next state and the commands for event `e` in state `s`. An event
/// that does not fit the phase changes nothing and asks for nothing.
pub open spec fn next_of(s: RunView, e: Event) -> (RunView, Seq<Command>) {
    match (s.phase, e) {
        (Phase::Done, _) => (s, seq![]),
        (_, Event::TaskFailed) => (moved(s, Phase::Done, s.held_guess), seq![Command::Abort]),
        (Phase::Idle, Event::Start) => (
            moved(s, Phase::GuessLaunched, None),
            seq![Command::LaunchGuess(s.guess_strategy), Command::Sleep(s.launch_delay_millis)],
        ),
        (Phase::GuessLaunched, Event::DelayElapsed) => (
            moved(s, Phase::VerifyLaunched, s.held_guess),
            seq![Command::LaunchVerify(s.verify_placement), Command::AwaitVerify],
        ),
        (Phase::GuessLaunched, Event::GuessFinished(g)) => (
            moved(s, Phase::GuessLaunched, Some(g)),
            seq![],
        ),
        (Phase::VerifyLaunched, Event::GuessFinished(g)) => (
            moved(s, Phase::VerifyLaunched, Some(g)),
            seq![],
        ),
        (Phase::VerifyLaunched, Event::VerifyFinished(v)) => match s.held_guess {
            Some(g) => (
                moved(s, Phase::GuessAwaited, None),
                seq![Command::ReportVerdict(v), Command::ReportGuess(g), Command::Shutdown(s.grace_millis)],
            ),
            None => (
                moved(s, Phase::VerifyAwaited, None),
                seq![Command::ReportVerdict(v), Command::AwaitGuess],
            ),
        },
        (Phase::VerifyAwaited, Event::GuessFinished(g)) => (
            moved(s, Phase::GuessAwaited, None),
            seq![Command::ReportGuess(g), Command::Shutdown(s.grace_millis)],
        ),
        (Phase::GuessAwaited, Event::ShutdownFinished) => (
            moved(s, Phase::Done, None),
            seq![],
        ),
        _ => (s, seq![]),
    }
}

/// The final state and all commands, in order, for a sequence of events.
pub open spec fn run_of(s: RunView, events: Seq<Event>) -> (RunView, Seq<Command>)
    decreases events.len(),
{
    if events.len() == 0 {
        (s, seq![])
    } else {
        let (s1, c1) = next_of(s, events[0]);
        let (s2, c2) = run_of(s1, events.drop_first());
        (s2, c1 + c2)
    }
}

/// The state of a run that has not begun.
pub open spec fn initial_of(
    guess_strategy: GuessStrategy,
    verify_placement: VerifyPlacement,
    launch_delay_millis: u64,
    grace_millis: u64,
) -> RunView {
    RunView {
        phase: Phase::Idle,
        guess_strategy,
        verify_placement,
        launch_delay_millis,
        grace_millis,
        held_guess: None,
    }
}

/// Whether the verification outcome has been reported in phase `p`.
pub open spec fn verdict_reported(p: Phase) -> bool {
    p is VerifyAwaited || p is GuessAwaited
}

/// Whether a command before position `j` reports the verification outcome.
pub open spec fn verdict_before(cmds: Seq<Command>, j: int) -> bool {
    exists|i: int| 0 <= i < j && (#[trigger] cmds[i]) is ReportVerdict
}

/// Whether every report of a winning guess comes after a report of the
/// verification outcome.
pub open spec fn verdict_first(cmds: Seq<Command>) -> bool {
    forall|j: int| 0 <= j < cmds.len() && (#[trigger] cmds[j]) is ReportGuess ==> verdict_before(cmds, j)
}

proof fn lemma_next_verdict_first(s: RunView, e: Event)
    ensures
        ({
            let (s1, c1) = next_of(s, e);
            &&& forall|j: int|
                0 <= j < c1.len() && (#[trigger] c1[j]) is ReportGuess ==> verdict_before(c1, j)
                    || verdict_reported(s.phase)
            &&& verdict_reported(s1.phase) ==> verdict_reported(s.phase) || (c1.len() > 0
                && c1[0] is ReportVerdict)
        }),
{
    let (s1, c1) = next_of(s, e);
    assert forall|j: int|
        0 <= j < c1.len() && (#[trigger] c1[j]) is ReportGuess implies verdict_before(c1, j)
            || verdict_reported(s.phase) by {
        if !verdict_reported(s.phase) {
            assert(c1[0] is ReportVerdict);
        }
    }
}

proof fn lemma_run_verdict_first(s: RunView, events: Seq<Event>)
    ensures
        forall|j: int|
            0 <= j < run_of(s, events).1.len() && (#[trigger] run_of(s, events).1[j]) is ReportGuess
                ==> verdict_before(run_of(s, events).1, j) || verdict_reported(s.phase),
    decreases events.len(),
{
    if events.len() > 0 {
        let (s1, c1) = next_of(s, events[0]);
        let (s2, c2) = run_of(s1, events.drop_first());
        let cmds = run_of(s, events).1;
        assert(cmds == c1 + c2);
        lemma_next_verdict_first(s, events[0]);
        lemma_run_verdict_first(s1, events.drop_first());
        assert forall|j: int|
            0 <= j < cmds.len() && (#[trigger] cmds[j]) is ReportGuess implies verdict_before(cmds, j)
                || verdict_reported(s.phase) by {
            if j < c1.len() {
                assert(cmds[j] == c1[j]);
                if verdict_before(c1, j) {
                    let i = choose|i: int| 0 <= i < j && (#[trigger] c1[i]) is ReportVerdict;
                    assert(cmds[i] == c1[i]);
                }
            } else {
                let k = j - c1.len();
                assert(cmds[j] == c2[k]);
                if verdict_before(c2, k) {
                    let i = choose|i: int| 0 <= i < k && (#[trigger] c2[i]) is ReportVerdict;
                    assert(cmds[i + c1.len()] == c2[i]);
                } else if !verdict_reported(s.phase) {
                    assert(cmds[0] == c1[0]);
                }
            }
        }
    }
}

/// In every run, whatever the order in which completions arrive, each
/// report of the winning guess comes after a report of the verification
/// outcome.
pub proof fn lemma_verdict_reported_first(
    guess_strategy: GuessStrategy,
    verify_placement: VerifyPlacement,
    launch_delay_millis: u64,
    grace_millis: u64,
    events: Seq<Event>,
)
    ensures
        verdict_first(
            run_of(initial_of(guess_strategy, verify_placement, launch_delay_millis, grace_millis), events).1,
        ),
{
    lemma_run_verdict_first(initial_of(guess_strategy, verify_placement, launch_delay_millis, grace_millis), events);
}

impl Orchestrator {
    /// A run that has not begun.
    pub fn new(
        guess_strategy: GuessStrategy,
        verify_placement: VerifyPlacement,
        launch_delay_millis: u64,
        grace_millis: u64,
    ) -> (r: Orchestrator)
        ensures
            r@ == initial_of(guess_strategy, verify_placement, launch_delay_millis, grace_millis),
    {
        Orchestrator {
            phase: Phase::Idle,
            guess_strategy,
            verify_placement,
            launch_delay_millis,
            grace_millis,
            held_guess: None,
        }
    }

    /// A run with the standard pause and grace period.
    pub fn with_defaults(guess_strategy: GuessStrategy, verify_placement: VerifyPlacement) -> (r: Orchestrator)
        ensures
            r@ == initial_of(guess_strategy, verify_placement, LAUNCH_DELAY_MILLIS, SHUTDOWN_GRACE_MILLIS),
    {
        Orchestrator::new(guess_strategy, verify_placement, LAUNCH_DELAY_MILLIS, SHUTDOWN_GRACE_MILLIS)
    }

    pub fn phase(&self) -> (r: Phase)
        ensures
            r == self@.phase,
    {
        self.phase
    }

    /// Takes in an event and returns the commands to perform, in order.
    pub fn handle(&mut self, e: Event) -> (r: Vec<Command>)
        ensures
            (final(self)@, r@) == next_of(old(self)@, e),
    {
        let mut cmds: Vec<Command> = Vec::new();
        match (self.phase, e) {
            (Phase::Done, _) => {},
            (_, Event::TaskFailed) => {
                self.phase = Phase::Done;
                cmds.push(Command::Abort);
            },
            (Phase::Idle, Event::Start) => {
                self.phase = Phase::GuessLaunched;
                self.held_guess = None;
                cmds.push(Command::LaunchGuess(self.guess_strategy));
                cmds.push(Command::Sleep(self.launch_delay_millis));
            },
            (Phase::GuessLaunched, Event::DelayElapsed) => {
                self.phase = Phase::VerifyLaunched;
                cmds.push(Command::LaunchVerify(self.verify_placement));
                cmds.push(Command::AwaitVerify);
            },
            (Phase::GuessLaunched, Event::GuessFinished(g)) => {
                self.held_guess = Some(g);
            },
            (Phase::VerifyLaunched, Event::GuessFinished(g)) => {
                self.held_guess = Some(g);
            },
            (Phase::VerifyLaunched, Event::VerifyFinished(v)) => {
                cmds.push(Command::ReportVerdict(v));
                match self.held_guess {
                    Some(g) => {
                        self.phase = Phase::GuessAwaited;
                        cmds.push(Command::ReportGuess(g));
                        cmds.push(Command::Shutdown(self.grace_millis));
                    },
                    None => {
                        self.phase = Phase::VerifyAwaited;
                        cmds.push(Command::AwaitGuess);
                    },
                }
                self.held_guess = None;
            },
            (Phase::VerifyAwaited, Event::GuessFinished(g)) => {
                self.phase = Phase::GuessAwaited;
                self.held_guess = None;
                cmds.push(Command::ReportGuess(g));
                cmds.push(Command::Shutdown(self.grace_millis));
            },
            (Phase::GuessAwaited, Event::ShutdownFinished) => {
                self.phase = Phase::Done;
                self.held_guess = None;
            },
            _ => {},
        }
        assert(cmds@ =~= next_of(old(self)@, e).1);
        cmds
    }
}

} // verus!
