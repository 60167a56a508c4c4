//! The decisions of a run: start the engine, race its completion against an
//! operator interrupt, ask it to stop at most once, and report one outcome.
//!
//! The caller performs each action and hands back what happened as an event.
use vstd::prelude::*;

verus! {

/// Where a run stands.
#[derive(Clone, Debug, PartialEq, Eq)]
pub enum Phase {
    Idle,
    Running,
    /// An interrupt came first; the engine was asked to stop and has
    /// acknowledged once `stop_acknowledged` holds.
    Interrupted { stop_acknowledged: bool },
    Completed,
    Failed { cause: String },
}

/// Something that happened, handed to the coordinator.
#[derive(Clone, Debug, PartialEq, Eq)]
pub enum Event {
    /// The caller is ready to start the engine.
    Start,
    /// The engine's run returned, with the error it returned, if any.
    EngineFinished { error: Option<String> },
    /// The operator asked the process to stop.
    Interrupt,
}

/// How a run ended.
#[derive(Clone, Debug, PartialEq, Eq)]
pub enum Outcome {
    Completed,
    Failed { cause: String },
    Interrupted,
}

/// What the caller is to do next.
#[derive(Clone, Debug, PartialEq, Eq)]
pub enum Action {
    Nothing,
    StartEngine,
    RequestStop,
    /// Report the outcome to the operator (and the parent process), then exit.
    Report(Outcome),
}

/// Whether the run has ended and its outcome was reported.
pub open spec fn is_terminal(p: Phase) -> bool {
    match p {
        Phase::Completed | Phase::Failed { .. } => true,
        Phase::Interrupted { stop_acknowledged } => stop_acknowledged,
        _ => false,
    }
}

/// The next phase and the action for an event.
pub open spec fn step(p: Phase, e: Event) -> (Phase, Action) {
    match (p, e) {
        (Phase::Idle, Event::Start) => (Phase::Running, Action::StartEngine),
        (Phase::Idle, Event::Interrupt) => (
            Phase::Interrupted { stop_acknowledged: true },
            Action::Report(Outcome::Interrupted),
        ),
        (Phase::Running, Event::EngineFinished { error: None }) => (
            Phase::Completed,
            Action::Report(Outcome::Completed),
        ),
        (Phase::Running, Event::EngineFinished { error: Some(cause) }) => (
            Phase::Failed { cause },
            Action::Report(Outcome::Failed { cause }),
        ),
        (Phase::Running, Event::Interrupt) => (
            Phase::Interrupted { stop_acknowledged: false },
            Action::RequestStop,
        ),
        (Phase::Interrupted { stop_acknowledged: false }, Event::EngineFinished { .. }) => (
            Phase::Interrupted { stop_acknowledged: true },
            Action::Report(Outcome::Interrupted),
        ),
        (p, _) => (p, Action::Nothing),
    }
}

/// The phase reached and the actions taken for a sequence of events.
pub open spec fn run(p: Phase, events: Seq<Event>) -> (Phase, Seq<Action>)
    decreases events.len(),
{
    if events.len() == 0 {
        (p, Seq::empty())
    } else {
        let (next, a) = step(p, events[0]);
        let (last, rest) = run(next, events.drop_first());
        (last, seq![a] + rest)
    }
}

/// How many of `actions` satisfy `f`.
pub open spec fn count_actions(actions: Seq<Action>, f: spec_fn(Action) -> bool) -> nat
    decreases actions.len(),
{
    if actions.len() == 0 {
        0
    } else {
        (if f(actions[0]) {
            1nat
        } else {
            0nat
        }) + count_actions(actions.drop_first(), f)
    }
}

pub open spec fn is_stop(a: Action) -> bool {
    a == Action::RequestStop
}

pub open spec fn is_report(a: Action) -> bool {
    a is Report
}

/// Once the run has ended, every event is ignored.
pub proof fn lemma_terminal_ignores_events(p: Phase, e: Event)
    requires
        is_terminal(p),
    ensures
        step(p, e) == (p, Action::Nothing),
{
}

/// An interrupt that comes after the engine finished asks for no stop.
pub proof fn lemma_interrupt_after_finish(p: Phase, error: Option<String>)
    requires
        p == Phase::Running || p == (Phase::Interrupted { stop_acknowledged: false }),
    ensures
        step(step(p, Event::EngineFinished { error }).0, Event::Interrupt) == (
            step(p, Event::EngineFinished { error }).0,
            Action::Nothing,
        ),
{
}

proof fn lemma_run_counts(p: Phase, events: Seq<Event>)
    ensures
        count_actions(run(p, events).1, |a: Action| is_stop(a)) <= if p == Phase::Idle || p
            == Phase::Running {
            1nat
        } else {
            0nat
        },
        count_actions(run(p, events).1, |a: Action| is_report(a)) <= if is_terminal(p) {
            0nat
        } else {
            1nat
        },
    decreases events.len(),
{
    if events.len() > 0 {
        let (next, a) = step(p, events[0]);
        lemma_run_counts(next, events.drop_first());
        let rest = run(next, events.drop_first()).1;
        assert((seq![a] + rest).drop_first() =~= rest);
    }
}

/// Over any sequence of events from the start, the engine is asked to stop
/// at most once and an outcome is reported at most once.
pub proof fn lemma_stop_and_report_at_most_once(events: Seq<Event>)
    ensures
        count_actions(run(Phase::Idle, events).1, |a: Action| is_stop(a)) <= 1,
        count_actions(run(Phase::Idle, events).1, |a: Action| is_report(a)) <= 1,
{
    lemma_run_counts(Phase::Idle, events);
}

/// Coordinates one run of the engine.
pub struct LifecycleCoordinator {
    phase: Phase,
}

impl View for LifecycleCoordinator {
    type V = Phase;

    closed spec fn view(&self) -> Phase {
        self.phase
    }
}

impl LifecycleCoordinator {
    pub fn new() -> (r: LifecycleCoordinator)
        ensures
            r@ == Phase::Idle,
    {
        LifecycleCoordinator { phase: Phase::Idle }
    }

    pub fn phase(&self) -> (r: &Phase)
        ensures
            *r == self@,
    {
        &self.phase
    }

    /// Whether the run has ended.
    pub fn is_finished(&self) -> (r: bool)
        ensures
            r == is_terminal(self@),
    {
        match &self.phase {
            Phase::Completed | Phase::Failed { .. } => true,
            Phase::Interrupted { stop_acknowledged } => *stop_acknowledged,
            _ => false,
        }
    }

    /// Takes in an event and says what to do.
    pub fn handle(&mut self, e: Event) -> (r: Action)
        ensures
            step(old(self)@, e) == (final(self)@, r),
    {
        match (&self.phase, e) {
            (Phase::Idle, Event::Start) => {
                self.phase = Phase::Running;
                Action::StartEngine
            },
            (Phase::Idle, Event::Interrupt) => {
                self.phase = Phase::Interrupted { stop_acknowledged: true };
                Action::Report(Outcome::Interrupted)
            },
            (Phase::Running, Event::EngineFinished { error: None }) => {
                self.phase = Phase::Completed;
                Action::Report(Outcome::Completed)
            },
            (Phase::Running, Event::EngineFinished { error: Some(cause) }) => {
                self.phase = Phase::Failed { cause: cause.clone() };
                Action::Report(Outcome::Failed { cause })
            },
            (Phase::Running, Event::Interrupt) => {
                self.phase = Phase::Interrupted { stop_acknowledged: false };
                Action::RequestStop
            },
            (Phase::Interrupted { stop_acknowledged: false }, Event::EngineFinished { .. }) => {
                self.phase = Phase::Interrupted { stop_acknowledged: true };
                Action::Report(Outcome::Interrupted)
            },
            _ => Action::Nothing,
        }
    }
}

} // verus!
