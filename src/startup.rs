//! The start-up handshake with the background node. The decisions are a state
//! machine: the runtime reports each event, the machine answers with the next
//! phase and the one action to perform. The host waits for a single readiness
//! signal, which is sent only once any schema migration has settled.

use vstd::prelude::*;

verus! {

/// Pause after a schema migration before the node is declared ready, in
/// milliseconds, so that its API can finish rebuilding.
pub const GRACE_PERIOD_MS: u64 = 1000;

/// Phase of the node's life cycle as seen by the host.
#[derive(Debug, Clone, Copy, PartialEq, Eq, Structural)]
pub enum Phase {
    NotStarted,
    Initializing,
    MigrationPending,
    Ready,
    Serving,
    ExitRequested,
    ShutDown,
    Failed,
}

/// What the runtime reports back.
#[derive(Debug, Clone, Copy, PartialEq, Eq, Structural)]
pub enum Event {
    /// The host asks for the node to be launched.
    Launch,
    /// The node has started.
    NodeStarted,
    /// The migration finished; `true` when schemas were migrated just now.
    Migrated(bool),
    /// The migration failed.
    MigrationFailed,
    /// The grace period has passed.
    GraceElapsed,
    /// The readiness signal reached the host.
    ReadyDelivered,
    /// The node announced that it is exiting.
    ExitNotified,
    /// The node has shut down.
    ShutdownComplete,
}

/// What the runtime is to do next.
#[derive(Debug, Clone, Copy, PartialEq, Eq, Structural)]
pub enum Action {
    StartNode,
    Migrate,
    /// Wait this many milliseconds, then report `GraceElapsed`.
    Sleep(u64),
    SignalReady,
    SignalFailure,
    AwaitExit,
    Shutdown,
    Nothing,
}

/// The coordinator's state: its phase, and whether the node has reported
/// that it started (which happens during `Initializing`).
#[derive(Debug, Clone, Copy, PartialEq, Eq, Structural)]
pub struct State {
    pub phase: Phase,
    pub node_started: bool,
}

/// The transition function: next state and action for an event in a state.
/// The node is started once, on launch; once it reports that it started, its
/// migration is asked for, once; the migration's outcome decides between
/// `Ready` and `MigrationPending`. An event that does not belong to the state
/// changes nothing.
pub open spec fn step_spec(s: State, event: Event) -> (State, Action) {
    let at = |phase: Phase| State { phase, node_started: s.node_started };
    match (s.phase, s.node_started, event) {
        (Phase::NotStarted, _, Event::Launch) => (at(Phase::Initializing), Action::StartNode),
        (Phase::Initializing, false, Event::NodeStarted) => (
            State { phase: Phase::Initializing, node_started: true },
            Action::Migrate,
        ),
        (Phase::Initializing, true, Event::Migrated(true)) => (
            at(Phase::MigrationPending),
            Action::Sleep(GRACE_PERIOD_MS),
        ),
        (Phase::Initializing, true, Event::Migrated(false)) => (at(Phase::Ready), Action::SignalReady),
        (Phase::Initializing, true, Event::MigrationFailed) => (
            at(Phase::Failed),
            Action::SignalFailure,
        ),
        (Phase::MigrationPending, _, Event::GraceElapsed) => (at(Phase::Ready), Action::SignalReady),
        (Phase::Ready, _, Event::ReadyDelivered) => (at(Phase::Serving), Action::AwaitExit),
        (Phase::Serving, _, Event::ExitNotified) => (at(Phase::ExitRequested), Action::Shutdown),
        (Phase::ExitRequested, _, Event::ShutdownComplete) => (at(Phase::ShutDown), Action::Nothing),
        _ => (s, Action::Nothing),
    }
}

/// The state reached and the actions asked for, event by event.
pub open spec fn run_spec(s: State, events: Seq<Event>) -> (State, Seq<Action>)
    decreases events.len(),
{
    if events.len() == 0 {
        (s, Seq::empty())
    } else {
        let (p, acts) = run_spec(s, events.drop_last());
        let (q, a) = step_spec(p, events.last());
        (q, acts.push(a))
    }
}

/// The state a run starts in.
pub open spec fn initial_state() -> State {
    State { phase: Phase::NotStarted, node_started: false }
}

/// The next state and action for `event` in state `s`.
pub fn step(s: State, event: Event) -> (r: (State, Action))
    ensures
        r == step_spec(s, event),
{
    let phase = s.phase;
    match (phase, s.node_started, event) {
        (Phase::NotStarted, _, Event::Launch) => (
            State { phase: Phase::Initializing, node_started: s.node_started },
            Action::StartNode,
        ),
        (Phase::Initializing, false, Event::NodeStarted) => (
            State { phase: Phase::Initializing, node_started: true },
            Action::Migrate,
        ),
        (Phase::Initializing, true, Event::Migrated(true)) => (
            State { phase: Phase::MigrationPending, node_started: s.node_started },
            Action::Sleep(GRACE_PERIOD_MS),
        ),
        (Phase::Initializing, true, Event::Migrated(false)) => (
            State { phase: Phase::Ready, node_started: s.node_started },
            Action::SignalReady,
        ),
        (Phase::Initializing, true, Event::MigrationFailed) => (
            State { phase: Phase::Failed, node_started: s.node_started },
            Action::SignalFailure,
        ),
        (Phase::MigrationPending, _, Event::GraceElapsed) => (
            State { phase: Phase::Ready, node_started: s.node_started },
            Action::SignalReady,
        ),
        (Phase::Ready, _, Event::ReadyDelivered) => (
            State { phase: Phase::Serving, node_started: s.node_started },
            Action::AwaitExit,
        ),
        (Phase::Serving, _, Event::ExitNotified) => (
            State { phase: Phase::ExitRequested, node_started: s.node_started },
            Action::Shutdown,
        ),
        (Phase::ExitRequested, _, Event::ShutdownComplete) => (
            State { phase: Phase::ShutDown, node_started: s.node_started },
            Action::Nothing,
        ),
        _ => (s, Action::Nothing),
    }
}

/// The coordinator of one run.
pub struct Coordinator {
    pub state: State,
}

impl Coordinator {
    pub fn new() -> (r: Coordinator)
        ensures
            r.state == initial_state(),
    {
        Coordinator { state: State { phase: Phase::NotStarted, node_started: false } }
    }

    /// The current phase.
    pub fn phase(&self) -> (r: Phase)
        ensures
            r == self.state.phase,
    {
        self.state.phase
    }

    /// Feeds one event to the coordinator and returns the action to perform.
    pub fn handle(&mut self, event: Event) -> (r: Action)
        ensures
            (final(self).state, r) == step_spec(old(self).state, event),
    {
        let (state, action) = step(self.state, event);
        self.state = state;
        action
    }

    /// Runs a whole sequence of events and returns the actions, in order.
    pub fn handle_all(&mut self, events: &Vec<Event>) -> (r: Vec<Action>)
        ensures
            (final(self).state, r@) == run_spec(old(self).state, events@),
    {
        let ghost start = self.state;
        let mut actions: Vec<Action> = Vec::new();
        let mut i: usize = 0;
        while i < events.len()
            invariant
                i <= events.len(),
                (self.state, actions@) == run_spec(start, events@.subrange(0, i as int)),
            decreases events.len() - i,
        {
            assert(events@.subrange(0, i + 1).drop_last() =~= events@.subrange(0, i as int));
            let a = self.handle(events[i]);
            actions.push(a);
            i = i + 1;
        }
        assert(events@.subrange(0, events.len() as int) =~= events@);
        actions
    }
}

/// The value that the background task hands to the waiting host.
#[derive(Debug, Clone, Copy, PartialEq, Eq, Structural)]
pub enum ReadySignal {
    Ready,
    Failed,
}

/// Why the host may not go on.
#[derive(Debug, Clone, Copy, PartialEq, Eq, Structural)]
pub enum StartupError {
    /// The node's schema migration failed.
    MigrationFailed,
    /// The background task ended without signalling.
    SignalDropped,
}

/// The signal a phase's action sends, if any.
pub open spec fn signal_of(action: Action) -> Option<ReadySignal> {
    match action {
        Action::SignalReady => Some(ReadySignal::Ready),
        Action::SignalFailure => Some(ReadySignal::Failed),
        _ => None,
    }
}

/// The signal to send for an action, if it is one of the two signalling actions.
pub fn signal_for(action: Action) -> (r: Option<ReadySignal>)
    ensures
        r == signal_of(action),
{
    match action {
        Action::SignalReady => Some(ReadySignal::Ready),
        Action::SignalFailure => Some(ReadySignal::Failed),
        _ => None,
    }
}

/// What the waiting host makes of what it received: it goes on only on a
/// readiness signal; a failure, or a sender dropped unsent, ends the wait
/// with an error instead of leaving it hanging.
pub fn wait_outcome(received: Option<ReadySignal>) -> (r: Result<(), StartupError>)
    ensures
        r == (match received {
            Some(ReadySignal::Ready) => Ok::<(), StartupError>(()),
            Some(ReadySignal::Failed) => Err(StartupError::MigrationFailed),
            None => Err(StartupError::SignalDropped),
        }),
{
    match received {
        Some(ReadySignal::Ready) => Ok(()),
        Some(ReadySignal::Failed) => Err(StartupError::MigrationFailed),
        None => Err(StartupError::SignalDropped),
    }
}

/// When the migration reports that nothing was migrated, the coordinator goes
/// from `Initializing` straight to `Ready` and signals readiness at once, with
/// no grace period.
pub proof fn lemma_no_migration_no_delay(s: State)
    requires
        s.phase == Phase::Initializing,
        s.node_started,
    ensures
        step_spec(s, Event::Migrated(false)) == (
            State { phase: Phase::Ready, node_started: true },
            Action::SignalReady,
        ),
{
}

/// When schemas were migrated, the coordinator goes from `Initializing` to
/// `MigrationPending` and asks for the grace period; readiness is not
/// signalled, whatever else happens, until that period has elapsed.
pub proof fn lemma_migration_waits_for_grace(s: State, events: Seq<Event>)
    requires
        s.phase == Phase::Initializing,
        s.node_started,
        forall|i: int| 0 <= i < events.len() ==> events[i] != Event::GraceElapsed,
    ensures
        step_spec(s, Event::Migrated(true)) == (
            State { phase: Phase::MigrationPending, node_started: true },
            Action::Sleep(GRACE_PERIOD_MS),
        ),
        run_spec(step_spec(s, Event::Migrated(true)).0, events).0.phase == Phase::MigrationPending,
        forall|i: int|
            0 <= i < run_spec(step_spec(s, Event::Migrated(true)).0, events).1.len()
                ==> #[trigger] run_spec(step_spec(s, Event::Migrated(true)).0, events).1[i]
                != Action::SignalReady,
        step_spec(step_spec(s, Event::Migrated(true)).0, Event::GraceElapsed) == (
            State { phase: Phase::Ready, node_started: true },
            Action::SignalReady,
        ),
    decreases events.len(),
{
    if events.len() > 0 {
        lemma_migration_waits_for_grace(s, events.drop_last());
    }
}

/// How far a state is along the life cycle; no transition goes back.
pub open spec fn rank(s: State) -> int {
    match s.phase {
        Phase::NotStarted => 0,
        Phase::Initializing => if s.node_started {
            2
        } else {
            1
        },
        Phase::MigrationPending => 3,
        Phase::Ready => 4,
        Phase::Failed => 4,
        Phase::Serving => 5,
        Phase::ExitRequested => 6,
        Phase::ShutDown => 7,
    }
}

/// The rank a run has reached once it has issued an action, for the actions
/// that must happen at most once; 0 for the others.
pub open spec fn issued_rank(action: Action) -> int {
    match action {
        Action::StartNode => 1,
        Action::Migrate => 2,
        Action::SignalReady => 4,
        Action::SignalFailure => 4,
        Action::AwaitExit => 5,
        Action::Shutdown => 6,
        _ => 0,
    }
}

proof fn lemma_step_rank(s: State, event: Event)
    ensures
        rank(step_spec(s, event).0) >= rank(s),
        issued_rank(step_spec(s, event).1) > 0 ==> rank(s) < issued_rank(step_spec(s, event).1)
            && rank(step_spec(s, event).0) >= issued_rank(step_spec(s, event).1),
{
}

/// A run ends at least as far along as it started, and at least as far as
/// any once-only action it issued.
proof fn lemma_run_rank(s: State, events: Seq<Event>, i: int)
    ensures
        rank(run_spec(s, events).0) >= rank(s),
        0 <= i < run_spec(s, events).1.len() ==> rank(run_spec(s, events).0) >= issued_rank(
            run_spec(s, events).1[i],
        ),
        run_spec(s, events).1.len() == events.len(),
    decreases events.len(),
{
    if events.len() > 0 {
        let prev = run_spec(s, events.drop_last());
        lemma_run_rank(s, events.drop_last(), i);
        lemma_step_rank(prev.0, events.last());
    }
}

/// Starting the node, migrating, signalling, waiting for exit and shutting
/// down are each asked for at most once in a run, and of the two signals
/// only one is ever sent.
pub proof fn lemma_issued_at_most_once(s: State, events: Seq<Event>, i: int, j: int)
    requires
        0 <= i < j < run_spec(s, events).1.len(),
        issued_rank(run_spec(s, events).1[i]) > 0,
    ensures
        issued_rank(run_spec(s, events).1[j]) != issued_rank(run_spec(s, events).1[i]),
    decreases events.len(),
{
    lemma_run_rank(s, events, i);
    let prev = run_spec(s, events.drop_last());
    lemma_run_rank(s, events.drop_last(), i);
    if j < prev.1.len() {
        lemma_issued_at_most_once(s, events.drop_last(), i, j);
    } else {
        lemma_step_rank(prev.0, events.last());
    }
}

} // verus!
