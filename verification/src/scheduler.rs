//! When a cycle starts and when its snapshot is published.
//!
//! A round starts a cycle and, beside it, the wait for the poll interval.
//! The snapshot is published when both are over, and the next round starts
//! when it has been published. The first round waits for nothing.

use vstd::prelude::*;

verus! {

/// Where a round stands.
#[derive(Clone, Copy, Debug, PartialEq, Eq, Structural)]
pub enum Phase {
    /// A cycle is in flight; `wait_elapsed` tells whether the wait is over.
    Fetching { wait_elapsed: bool },
    /// The cycle's snapshot is ready and the wait is not over yet.
    Idle,
    /// The snapshot is being written to the published values.
    Publishing,
}

/// What can happen to a round.
#[derive(Clone, Copy, Debug, PartialEq, Eq, Structural)]
pub enum Event {
    /// The wait of this round is over.
    WaitElapsed,
    /// The cycle of this round has its snapshot.
    CycleFinished,
    /// The snapshot of this round has been published.
    PublishDone,
}

/// What is to be done next.
#[derive(Clone, Copy, Debug, PartialEq, Eq, Structural)]
pub enum Action {
    /// Start a cycle and, beside it, a wait of `wait_sec` seconds.
    StartRound { wait_sec: u64 },
    /// Publish the snapshot of the cycle that has finished.
    Publish,
    /// Nothing yet: the round waits for its other half.
    Pending,
}

/// The scheduler's state: the phase of the current round, and the interval
/// that every round but the first waits for.
#[derive(Clone, Copy, Debug, PartialEq, Eq, Structural)]
pub struct Scheduler {
    pub phase: Phase,
    pub poll_interval_sec: u64,
}

/// The state and the action with which a scheduler starts: the first cycle
/// is in flight at once, with a wait of zero seconds.
pub open spec fn spec_start(poll_interval_sec: u64) -> (Scheduler, Action) {
    (
        Scheduler { phase: Phase::Fetching { wait_elapsed: false }, poll_interval_sec },
        Action::StartRound { wait_sec: 0 },
    )
}

/// The state that follows `s` on `event` and the action that is due, or
/// `None` where the event cannot happen in the phase of `s`.
pub open spec fn spec_step(s: Scheduler, event: Event) -> Option<(Scheduler, Action)> {
    match (s.phase, event) {
        (Phase::Fetching { wait_elapsed: false }, Event::WaitElapsed) => Some(
            (Scheduler { phase: Phase::Fetching { wait_elapsed: true }, ..s }, Action::Pending),
        ),
        (Phase::Fetching { wait_elapsed: false }, Event::CycleFinished) => Some(
            (Scheduler { phase: Phase::Idle, ..s }, Action::Pending),
        ),
        (Phase::Fetching { wait_elapsed: true }, Event::CycleFinished) => Some(
            (Scheduler { phase: Phase::Publishing, ..s }, Action::Publish),
        ),
        (Phase::Idle, Event::WaitElapsed) => Some(
            (Scheduler { phase: Phase::Publishing, ..s }, Action::Publish),
        ),
        (Phase::Publishing, Event::PublishDone) => Some(
            (
                Scheduler { phase: Phase::Fetching { wait_elapsed: false }, ..s },
                Action::StartRound { wait_sec: s.poll_interval_sec },
            ),
        ),
        _ => None,
    }
}

impl Scheduler {
    /// Starts a scheduler: the first cycle is in flight at once, with a wait
    /// of zero seconds.
    pub fn start(poll_interval_sec: u64) -> (r: (Scheduler, Action))
        ensures
            r == spec_start(poll_interval_sec),
    {
        (
            Scheduler { phase: Phase::Fetching { wait_elapsed: false }, poll_interval_sec },
            Action::StartRound { wait_sec: 0 },
        )
    }

    /// Takes `event` and says what is due. An event that cannot happen in
    /// the current phase gives `None` and changes nothing.
    pub fn step(&mut self, event: Event) -> (r: Option<Action>)
        ensures
            match spec_step(*old(self), event) {
                Some((next, action)) => *final(self) == next && r == Some(action),
                None => *final(self) == *old(self) && r.is_none(),
            },
    {
        match (self.phase, event) {
            (Phase::Fetching { wait_elapsed: false }, Event::WaitElapsed) => {
                self.phase = Phase::Fetching { wait_elapsed: true };
                Some(Action::Pending)
            },
            (Phase::Fetching { wait_elapsed: false }, Event::CycleFinished) => {
                self.phase = Phase::Idle;
                Some(Action::Pending)
            },
            (Phase::Fetching { wait_elapsed: true }, Event::CycleFinished) => {
                self.phase = Phase::Publishing;
                Some(Action::Publish)
            },
            (Phase::Idle, Event::WaitElapsed) => {
                self.phase = Phase::Publishing;
                Some(Action::Publish)
            },
            (Phase::Publishing, Event::PublishDone) => {
                self.phase = Phase::Fetching { wait_elapsed: false };
                Some(Action::StartRound { wait_sec: self.poll_interval_sec })
            },
            _ => None,
        }
    }

    /// True while a cycle is in flight.
    pub open spec fn spec_is_fetching(self) -> bool {
        self.phase is Fetching
    }

    /// True while a snapshot is being written.
    pub open spec fn spec_is_publishing(self) -> bool {
        self.phase is Publishing
    }

    #[verifier::when_used_as_spec(spec_is_fetching)]
    pub fn is_fetching(self) -> (b: bool)
        ensures
            b == self.spec_is_fetching(),
    {
        match self.phase {
            Phase::Fetching { .. } => true,
            _ => false,
        }
    }

    #[verifier::when_used_as_spec(spec_is_publishing)]
    pub fn is_publishing(self) -> (b: bool)
        ensures
            b == self.spec_is_publishing(),
    {
        match self.phase {
            Phase::Publishing => true,
            _ => false,
        }
    }
}

/// The state after `events` were taken in turn from `s`, and the rounds that
/// were started and the snapshots that were published on the way, in order.
/// An event that cannot happen where it comes is passed over.
pub open spec fn run(s: Scheduler, events: Seq<Event>) -> (Scheduler, Seq<Action>)
    decreases events.len(),
{
    if events.len() == 0 {
        (s, Seq::empty())
    } else {
        let (before, done) = run(s, events.drop_last());
        match spec_step(before, events.last()) {
            Some((next, action)) => if action == Action::Pending {
                (next, done)
            } else {
                (next, done.push(action))
            },
            None => (before, done),
        }
    }
}

/// What a scheduler with the interval `poll_interval_sec` does from its
/// start, over `events`: the round it starts with, then what `run` gives.
pub open spec fn history(poll_interval_sec: u64, events: Seq<Event>) -> Seq<Action> {
    seq![spec_start(poll_interval_sec).1] + run(spec_start(poll_interval_sec).0, events).1
}

/// Whatever events come in whatever order, starting a round and publishing
/// take turns: a round is started first, with no wait; every round that is
/// started is published before the next one starts, and every later round
/// starts with a wait of the poll interval. A snapshot is being written
/// exactly when as many were due as rounds were started, so no cycle is in
/// flight then.
pub proof fn law_rounds_and_publishes_alternate(poll_interval_sec: u64, events: Seq<Event>)
    ensures
        history(poll_interval_sec, events)[0] == (Action::StartRound { wait_sec: 0 }),
        forall|i: int|
            0 < i < history(poll_interval_sec, events).len() && i % 2 == 0 ==> #[trigger] history(
                poll_interval_sec,
                events,
            )[i] == (Action::StartRound { wait_sec: poll_interval_sec }),
        forall|i: int|
            0 <= i < history(poll_interval_sec, events).len() && i % 2 == 1 ==> #[trigger] history(
                poll_interval_sec,
                events,
            )[i] == Action::Publish,
        run(spec_start(poll_interval_sec).0, events).0.poll_interval_sec == poll_interval_sec,
        run(spec_start(poll_interval_sec).0, events).0.phase is Publishing <==> history(
            poll_interval_sec,
            events,
        ).len() % 2 == 0,
    decreases events.len(),
{
    if events.len() > 0 {
        law_rounds_and_publishes_alternate(poll_interval_sec, events.drop_last());
        let earlier = history(poll_interval_sec, events.drop_last());
        let now = history(poll_interval_sec, events);
        assert forall|i: int| 0 <= i < earlier.len() implies earlier[i] == now[i] by {}
    }
}

} // verus!
