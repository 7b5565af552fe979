//! The life cycle of an accept loop, as a function from what happened to what
//! to do next.
//!
//! The loop that owns the listener hands each event to `on_event` and does
//! what the action says. Shutdown has two tiers: the primary drain ends
//! accepting; then the connections' tasks are told to end and waited for.

use vstd::prelude::*;

verus! {

/// Where the accept loop stands.
#[derive(Clone, Copy, Debug, PartialEq, Eq, Hash, Structural)]
pub enum Phase {
    /// The loop accepts connections.
    Accepting,
    /// The primary drain has fired; the connections' tasks are ending.
    Draining,
    /// The loop has returned.
    Stopped,
}

/// What the loop may learn.
#[derive(Clone, Copy, Debug, PartialEq, Eq, Hash, Structural)]
pub enum Event {
    /// A connection was accepted.
    Accepted,
    /// `accept` failed; `runtime_shutdown` says whether it failed because the
    /// runtime is shutting down.
    AcceptFailed { runtime_shutdown: bool },
    /// The primary drain fired.
    DrainSignaled,
    /// Every task that was told to end has ended.
    TasksDrained,
}

/// What the loop does next.
#[derive(Clone, Copy, Debug, PartialEq, Eq, Hash, Structural)]
pub enum Action {
    /// Start a task for the connection, then accept again.
    Spawn,
    /// Report the failure, then accept again.
    Report,
    /// Tell every task to end, and wait until all have.
    DrainTasks,
    /// Return from the loop.
    Return,
    /// Nothing: the event came too late to matter.
    Nothing,
}

impl Action {
    /// Whether the loop calls `accept` again after this action.
    pub open spec fn spec_accepts(self) -> bool {
        self == Action::Spawn || self == Action::Report
    }

    /// Whether the loop calls `accept` again after this action.
    pub fn accepts(self) -> (r: bool)
        ensures
            r == self.spec_accepts(),
    {
        match self {
            Action::Spawn => true,
            Action::Report => true,
            _ => false,
        }
    }
}

/// An accept loop's state.
#[derive(Clone, Copy, Debug, PartialEq, Eq, Hash, Structural)]
pub struct Acceptor {
    pub phase: Phase,
    /// Whether shutdown waits for the connections' tasks. A loop whose tasks
    /// look after their own end returns as soon as the primary drain fires.
    pub waits_for_tasks: bool,
}

/// The state and the action that follow `event` in state `state`.
pub open spec fn spec_on_event(state: Acceptor, event: Event) -> (Acceptor, Action) {
    match state.phase {
        Phase::Accepting => match event {
            Event::Accepted => (state, Action::Spawn),
            Event::AcceptFailed { runtime_shutdown } => if runtime_shutdown {
                (Acceptor { phase: Phase::Stopped, ..state }, Action::Return)
            } else {
                (state, Action::Report)
            },
            Event::DrainSignaled => if state.waits_for_tasks {
                (Acceptor { phase: Phase::Draining, ..state }, Action::DrainTasks)
            } else {
                (Acceptor { phase: Phase::Stopped, ..state }, Action::Return)
            },
            Event::TasksDrained => (state, Action::Nothing),
        },
        Phase::Draining => match event {
            Event::TasksDrained => (Acceptor { phase: Phase::Stopped, ..state }, Action::Return),
            _ => (state, Action::Nothing),
        },
        Phase::Stopped => (state, Action::Nothing),
    }
}

impl Acceptor {
    /// A loop that is about to accept its first connection.
    pub fn new(waits_for_tasks: bool) -> (r: Acceptor)
        ensures
            r == (Acceptor { phase: Phase::Accepting, waits_for_tasks }),
    {
        Acceptor { phase: Phase::Accepting, waits_for_tasks }
    }

    /// Takes an event and says what the loop does next.
    ///
    /// While accepting, a connection gets a task of its own and a failed
    /// `accept` is reported, and the loop accepts again; only a failure that
    /// comes from the runtime's shutdown ends the loop. The primary drain ends
    /// accepting. After it, nothing is accepted or started any more, and the
    /// loop returns once every task has ended.
    pub fn on_event(&mut self, event: Event) -> (action: Action)
        ensures
            (*final(self), action) == spec_on_event(*old(self), event),
    {
        match self.phase {
            Phase::Accepting => match event {
                Event::Accepted => Action::Spawn,
                Event::AcceptFailed { runtime_shutdown } => if runtime_shutdown {
                    self.phase = Phase::Stopped;
                    Action::Return
                } else {
                    Action::Report
                },
                Event::DrainSignaled => if self.waits_for_tasks {
                    self.phase = Phase::Draining;
                    Action::DrainTasks
                } else {
                    self.phase = Phase::Stopped;
                    Action::Return
                },
                Event::TasksDrained => Action::Nothing,
            },
            Phase::Draining => match event {
                Event::TasksDrained => {
                    self.phase = Phase::Stopped;
                    Action::Return
                },
                _ => Action::Nothing,
            },
            Phase::Stopped => Action::Nothing,
        }
    }
}

/// The state of a loop that began in `state` and saw `events`, in order.
pub open spec fn state_after(state: Acceptor, events: Seq<Event>) -> Acceptor
    decreases events.len(),
{
    if events.len() == 0 {
        state
    } else {
        spec_on_event(state_after(state, events.drop_last()), events.last()).0
    }
}

/// The action that the loop takes on the event at index `at` of `events`.
pub open spec fn action_at(state: Acceptor, events: Seq<Event>, at: int) -> Action
    recommends
        0 <= at < events.len(),
{
    spec_on_event(state_after(state, events.take(at)), events[at]).1
}

/// Once the primary drain has fired, the loop is never accepting again.
proof fn lemma_no_return_to_accepting(state: Acceptor, events: Seq<Event>, drained_at: int)
    requires
        0 <= drained_at < events.len(),
        events[drained_at] == Event::DrainSignaled,
    ensures
        state_after(state, events).phase != Phase::Accepting,
    decreases events.len(),
{
    if drained_at < events.len() - 1 {
        lemma_no_return_to_accepting(state, events.drop_last(), drained_at);
    }
}

/// The phase never goes back: a loop that is draining is draining or stopped
/// ever after, and a stopped loop stays stopped.
pub proof fn lemma_phase_only_advances(state: Acceptor, events: Seq<Event>)
    ensures
        state.phase == Phase::Stopped ==> state_after(state, events).phase == Phase::Stopped,
        state.phase == Phase::Draining ==> state_after(state, events).phase != Phase::Accepting,
        state_after(state, events).waits_for_tasks == state.waits_for_tasks,
    decreases events.len(),
{
    if events.len() > 0 {
        lemma_phase_only_advances(state, events.drop_last());
    }
}

/// From the primary drain on, no action of the loop accepts a connection or
/// starts a task, whatever happens and in whatever order.
pub proof fn lemma_no_accept_after_drain(
    state: Acceptor,
    events: Seq<Event>,
    drained_at: int,
    later: int,
)
    requires
        0 <= drained_at <= later < events.len(),
        events[drained_at] == Event::DrainSignaled,
    ensures
        !action_at(state, events, later).spec_accepts(),
{
    if drained_at < later {
        let before = events.take(later);
        assert(before[drained_at] == events[drained_at]);
        lemma_no_return_to_accepting(state, before, drained_at);
    }
}

/// A loop that waits for its tasks returns after the primary drain only when
/// every task has ended: the action that follows the drain is to tell the
/// tasks and wait, and of the later actions only the one on `TasksDrained`
/// returns.
pub proof fn lemma_return_waits_for_tasks(
    state: Acceptor,
    events: Seq<Event>,
    drained_at: int,
    later: int,
)
    requires
        state.waits_for_tasks,
        0 <= drained_at < later < events.len(),
        events[drained_at] == Event::DrainSignaled,
    ensures
        action_at(state, events, drained_at) != Action::Return,
        action_at(state, events, later) == Action::Return ==> events[later]
            == Event::TasksDrained,
{
    lemma_phase_only_advances(state, events.take(drained_at));
    let before = events.take(later);
    assert(before[drained_at] == events[drained_at]);
    lemma_no_return_to_accepting(state, before, drained_at);
}

} // verus!
