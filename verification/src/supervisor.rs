//! The conversion supervisor: the decisions of the loop that drives the
//! helper processes of the device-binary format.
//!
//! The loop itself runs outside. It performs the action that the supervisor
//! asks for (a non-blocking receive, a spawn, a non-blocking check, a
//! blocking collection, a sleep) and hands back what happened;
//! [`poll_kindlegen`] is the step from state and event to the next state,
//! the next action and the event to report.

use vstd::prelude::*;
use crate::comic::{Comic, ComicStage, ComicStatus, ProgressEvent, CONVERT_PROGRESS};

verus! {

/// Milliseconds to sleep between two rounds of polling.
pub const IDLE_MILLIS: u64 = 100;

/// An entity whose helper process has been spawned and not yet collected.
#[derive(Clone, Debug, PartialEq, Eq)]
pub struct InFlight {
    pub comic: Comic,
    /// The caller's token for the spawned process.
    pub handle: u64,
}

/// What the supervisor waits for.
#[derive(Clone, Copy, Debug, PartialEq, Eq, Structural)]
pub enum Phase {
    /// The result of a receive from the queue.
    Drain,
    /// The result of spawning the helper for the entity just received.
    Spawn,
    /// The result of checking the record under the cursor.
    Poll,
    /// The result of collecting the record under the cursor.
    Collect,
    /// The end of the idle sleep.
    Idle,
    /// Nothing: the batch is complete.
    Stopped,
}

/// What happened outside since the last step.
#[derive(Clone, Debug, PartialEq, Eq)]
pub enum PollEvent {
    /// The queue handed over an entity.
    Received { comic: Comic },
    /// The queue holds nothing at the moment.
    QueueEmpty,
    /// The queue is closed for good.
    QueueClosed,
    /// The helper was spawned; `handle` names it from now on.
    Spawned { handle: u64 },
    /// The helper could not be spawned.
    SpawnFailed { error: String },
    /// The checked process has not finished.
    Running,
    /// The checked process has finished, or the check itself failed.
    Exited,
    /// The process was collected and had succeeded.
    Collected,
    /// Collecting the process gave an error.
    CollectFailed { error: String },
    /// The idle sleep is over.
    Slept,
}

/// What the loop is to do next.
#[derive(Clone, Copy, Debug, PartialEq, Eq, Structural)]
pub enum PollAction {
    /// Receive from the queue without blocking.
    Receive,
    /// Spawn the helper for the entity that `Supervisor::spawning` shows.
    Spawn,
    /// Check the process without blocking.
    Check { handle: u64 },
    /// Collect the result of the process, blocking.
    Collect { handle: u64 },
    /// Sleep.
    Sleep { millis: u64 },
    /// Leave the loop.
    Stop,
}

/// The answer of one step.
#[derive(Clone, Debug, PartialEq, Eq)]
pub struct PollStep {
    pub action: PollAction,
    pub event: Option<ProgressEvent>,
}

/// The supervisor of one batch.
pub struct Supervisor {
    phase: Phase,
    in_flight: Vec<InFlight>,
    spawning: Option<Comic>,
    cursor: usize,
    received: Ghost<nat>,
    finalized: Ghost<nat>,
}

/// The supervisor as a mathematical value.
pub struct SupervisorState {
    pub phase: Phase,
    /// The in-flight records, oldest first.
    pub in_flight: Seq<InFlight>,
    /// The entity whose spawn is awaited.
    pub spawning: Option<Comic>,
    /// The position of the record that the poll phase has reached.
    pub cursor: nat,
    /// How many entities the queue has handed over so far.
    pub received: nat,
    /// How many of them have been finalized so far.
    pub finalized: nat,
}

impl SupervisorState {
    /// The state before anything has happened.
    pub open spec fn initial() -> SupervisorState {
        SupervisorState {
            phase: Phase::Drain,
            in_flight: Seq::empty(),
            spawning: None,
            cursor: 0,
            received: 0,
            finalized: 0,
        }
    }

    /// How many entities the supervisor holds: those in flight and the one
    /// whose spawn is awaited.
    pub open spec fn held(self) -> nat {
        self.in_flight.len() + if self.spawning is Some {
            1nat
        } else {
            0nat
        }
    }

    /// The invariant of every reachable state.
    pub open spec fn wf(self) -> bool {
        &&& self.received == self.finalized + self.held()
        &&& (self.phase == Phase::Spawn <==> self.spawning is Some)
        &&& (self.phase == Phase::Poll || self.phase == Phase::Collect ==> self.cursor
            < self.in_flight.len())
        &&& (self.phase == Phase::Stopped ==> self.in_flight.len() == 0)
    }

    /// The poll phase at position `at`, or the idle wait where no record is left there.
    pub open spec fn polling(self, at: nat) -> SupervisorState {
        if at < self.in_flight.len() {
            SupervisorState { phase: Phase::Poll, cursor: at, ..self }
        } else {
            SupervisorState { phase: Phase::Idle, cursor: 0, ..self }
        }
    }

    /// The state after the record under the cursor has been finalized.
    pub open spec fn collected(self) -> SupervisorState {
        SupervisorState {
            in_flight: self.in_flight.remove(self.cursor as int),
            finalized: self.finalized + 1,
            ..self
        }.polling(self.cursor)
    }

    /// The action that the state asks for.
    pub open spec fn action(self) -> PollAction {
        match self.phase {
            Phase::Drain => PollAction::Receive,
            Phase::Spawn => PollAction::Spawn,
            Phase::Poll => PollAction::Check { handle: self.in_flight[self.cursor as int].handle },
            Phase::Collect => PollAction::Collect {
                handle: self.in_flight[self.cursor as int].handle,
            },
            Phase::Idle => PollAction::Sleep { millis: IDLE_MILLIS },
            Phase::Stopped => PollAction::Stop,
        }
    }

    /// The state after `event`.
    ///
    /// Draining: an entity enters the conversion stage and its spawn is
    /// awaited; an empty queue starts the poll phase; a closed queue stops
    /// the supervisor where nothing is in flight and starts the poll phase
    /// otherwise. Spawning: the entity joins the in-flight records, or is
    /// finalized as failed. Polling: a running process is passed over, a
    /// finished one is collected. Collecting: the record leaves the set,
    /// its entity finalized as succeeded or, on an error, as failed.
    /// An event that does not answer the awaited action changes nothing.
    pub open spec fn step(self, event: PollEvent) -> SupervisorState {
        match (self.phase, event) {
            (Phase::Drain, PollEvent::Received { comic }) => SupervisorState {
                phase: Phase::Spawn,
                spawning: Some(comic.entering(ComicStage::Convert, CONVERT_PROGRESS)),
                received: self.received + 1,
                ..self
            },
            (Phase::Drain, PollEvent::QueueEmpty) => self.polling(0),
            (Phase::Drain, PollEvent::QueueClosed) => if self.in_flight.len() == 0 {
                SupervisorState { phase: Phase::Stopped, ..self }
            } else {
                self.polling(0)
            },
            (Phase::Spawn, PollEvent::Spawned { handle }) => SupervisorState {
                phase: Phase::Drain,
                in_flight: self.in_flight.push(InFlight { comic: self.spawning->0, handle }),
                spawning: None,
                ..self
            },
            (Phase::Spawn, PollEvent::SpawnFailed { error }) => SupervisorState {
                phase: Phase::Drain,
                spawning: None,
                finalized: self.finalized + 1,
                ..self
            },
            (Phase::Poll, PollEvent::Running) => self.polling(self.cursor + 1),
            (Phase::Poll, PollEvent::Exited) => SupervisorState { phase: Phase::Collect, ..self },
            (Phase::Collect, PollEvent::Collected) => self.collected(),
            (Phase::Collect, PollEvent::CollectFailed { error }) => self.collected(),
            (Phase::Idle, PollEvent::Slept) => SupervisorState { phase: Phase::Drain, ..self },
            _ => self,
        }
    }

    /// What the step from this state on `event` reports.
    ///
    /// An entity's entry into the conversion stage and its terminal status
    /// are reported as updates (nothing where the entity was terminal
    /// already); stopping is reported as the completion of the batch.
    pub open spec fn emitted(self, event: PollEvent) -> Option<ProgressEvent> {
        match (self.phase, event) {
            (Phase::Drain, PollEvent::Received { comic }) => comic.report(
                comic.entering(ComicStage::Convert, CONVERT_PROGRESS),
            ),
            (Phase::Drain, PollEvent::QueueClosed) => if self.in_flight.len() == 0 {
                Some(ProgressEvent::ProcessingComplete)
            } else {
                None
            },
            (Phase::Spawn, PollEvent::SpawnFailed { error }) => {
                let comic = self.spawning->0;
                comic.report(comic.with_status(ComicStatus::Failed { error }))
            },
            (Phase::Collect, PollEvent::Collected) => {
                let comic = self.in_flight[self.cursor as int].comic;
                comic.report(comic.with_status(ComicStatus::Success))
            },
            (Phase::Collect, PollEvent::CollectFailed { error }) => {
                let comic = self.in_flight[self.cursor as int].comic;
                comic.report(comic.with_status(ComicStatus::Failed { error }))
            },
            _ => None,
        }
    }
}

impl View for Supervisor {
    type V = SupervisorState;

    closed spec fn view(&self) -> SupervisorState {
        SupervisorState {
            phase: self.phase,
            in_flight: self.in_flight@,
            spawning: self.spawning,
            cursor: self.cursor as nat,
            received: self.received@,
            finalized: self.finalized@,
        }
    }
}

impl Supervisor {
    /// Every supervisor satisfies the invariant of the reachable states.
    #[verifier::type_invariant]
    closed spec fn inv(self) -> bool {
        self@.wf()
    }

    /// A supervisor that has received nothing yet. Its first action is a receive.
    pub fn new() -> (supervisor: Supervisor)
        ensures
            supervisor@ == SupervisorState::initial(),
            supervisor@.wf(),
    {
        let supervisor = Supervisor {
            phase: Phase::Drain,
            in_flight: Vec::new(),
            spawning: None,
            cursor: 0,
            received: Ghost(0),
            finalized: Ghost(0),
        };
        assert(supervisor@.in_flight =~= Seq::empty());
        supervisor
    }

    /// What the supervisor waits for.
    pub fn phase(&self) -> (phase: Phase)
        ensures
            phase == self@.phase,
            self@.wf(),
    {
        proof {
            use_type_invariant(self);
        }
        self.phase
    }

    /// The number of in-flight records.
    pub fn in_flight_count(&self) -> (count: usize)
        ensures
            count == self@.in_flight.len(),
    {
        self.in_flight.len()
    }

    /// The entity whose helper is to be spawned, while a spawn is awaited.
    pub fn spawning(&self) -> (comic: Option<&Comic>)
        ensures
            comic is Some == self@.spawning is Some,
            comic is Some ==> *comic->0 == self@.spawning->0,
    {
        self.spawning.as_ref()
    }

    /// The action that the supervisor asks for.
    pub fn next_action(&self) -> (action: PollAction)
        ensures
            action == self@.action(),
    {
        proof {
            use_type_invariant(self);
        }
        match self.phase {
            Phase::Drain => PollAction::Receive,
            Phase::Spawn => PollAction::Spawn,
            Phase::Poll => PollAction::Check { handle: self.in_flight[self.cursor].handle },
            Phase::Collect => PollAction::Collect { handle: self.in_flight[self.cursor].handle },
            Phase::Idle => PollAction::Sleep { millis: IDLE_MILLIS },
            Phase::Stopped => PollAction::Stop,
        }
    }
}

/// Where the poll phase stands once it has reached position `at` of `count`
/// records: at that record, or in the idle wait where none is left there.
fn poll_position(count: usize, at: usize) -> (place: (Phase, usize))
    ensures
        place == if at < count {
            (Phase::Poll, at)
        } else {
            (Phase::Idle, 0usize)
        },
{
    if at < count {
        (Phase::Poll, at)
    } else {
        (Phase::Idle, 0)
    }
}

/// One step of the supervisor: takes what happened outside, moves the
/// supervisor on, and answers with the update to report, if any, and the
/// action to perform next.
pub fn poll_kindlegen(supervisor: &mut Supervisor, event: PollEvent) -> (step: PollStep)
    ensures
        old(supervisor)@.wf(),
        final(supervisor)@ == old(supervisor)@.step(event),
        final(supervisor)@.wf(),
        step.event == old(supervisor)@.emitted(event),
        step.action == final(supervisor)@.action(),
{
    proof {
        use_type_invariant(&*supervisor);
    }
    let mut taken = Supervisor::new();
    core::mem::swap(supervisor, &mut taken);
    let Supervisor { phase, in_flight, spawning, cursor, received, finalized } = taken;
    let mut phase = phase;
    let mut in_flight = in_flight;
    let mut spawning = spawning;
    let mut cursor = cursor;
    let ghost mut received = received@;
    let ghost mut finalized = finalized@;
    let reported = match (phase, event) {
        (Phase::Drain, PollEvent::Received { comic }) => {
            let mut comic = comic;
            let update = comic.update_status(ComicStage::Convert, CONVERT_PROGRESS);
            spawning = Some(comic);
            phase = Phase::Spawn;
            proof {
                received = received + 1;
            }
            update
        },
        (Phase::Drain, PollEvent::QueueEmpty) => {
            let place = poll_position(in_flight.len(), 0);
            phase = place.0;
            cursor = place.1;
            None
        },
        (Phase::Drain, PollEvent::QueueClosed) => {
            if in_flight.len() == 0 {
                phase = Phase::Stopped;
                Some(ProgressEvent::ProcessingComplete)
            } else {
                let place = poll_position(in_flight.len(), 0);
                phase = place.0;
                cursor = place.1;
                None
            }
        },
        (Phase::Spawn, PollEvent::Spawned { handle }) => {
            match spawning.take() {
                Some(comic) => {
                    in_flight.push(InFlight { comic, handle });
                },
                None => {},
            }
            phase = Phase::Drain;
            None
        },
        (Phase::Spawn, PollEvent::SpawnFailed { error }) => {
            let update = match spawning.take() {
                Some(comic) => {
                    let mut comic = comic;
                    comic.fail(error)
                },
                None => None,
            };
            phase = Phase::Drain;
            proof {
                finalized = finalized + 1;
            }
            update
        },
        (Phase::Poll, PollEvent::Running) => {
            let count = in_flight.len();
            let place = poll_position(count, cursor + 1);
            phase = place.0;
            cursor = place.1;
            None
        },
        (Phase::Poll, PollEvent::Exited) => {
            phase = Phase::Collect;
            None
        },
        (Phase::Collect, PollEvent::Collected) => {
            let mut record = in_flight.remove(cursor);
            let place = poll_position(in_flight.len(), cursor);
            phase = place.0;
            cursor = place.1;
            proof {
                finalized = finalized + 1;
            }
            record.comic.success()
        },
        (Phase::Collect, PollEvent::CollectFailed { error }) => {
            let mut record = in_flight.remove(cursor);
            let place = poll_position(in_flight.len(), cursor);
            phase = place.0;
            cursor = place.1;
            proof {
                finalized = finalized + 1;
            }
            record.comic.fail(error)
        },
        (Phase::Idle, PollEvent::Slept) => {
            phase = Phase::Drain;
            None
        },
        _ => None,
    };
    *supervisor = Supervisor {
        phase,
        in_flight,
        spawning,
        cursor,
        received: Ghost(received),
        finalized: Ghost(finalized),
    };
    PollStep { action: supervisor.next_action(), event: reported }
}

} // verus!
