//! The worker: a state machine that claims items and finalizes them.
//!
//! A worker waits on the queue, claims an item, checks whether its caller has
//! already given up, runs the remote call, writes the result into the item's
//! completion handle and waits again. The waiting itself (on the queue, on
//! the remote call) is done by whoever drives the worker: it performs the
//! [`WorkerAction`] it was given and reports what happened as a
//! [`WorkerEvent`].

use vstd::prelude::*;
use crate::channels::{handle_abandoned, handle_send};
use crate::request::{HttpPoolRequest, HttpPoolResponse};

verus! {

/// Where a worker stands between two steps.
#[derive(Debug, Clone, Copy, PartialEq, Eq, Structural)]
pub enum WorkerPhase {
    /// Idle: the next thing to happen is an item from the queue.
    Waiting,
    /// An item is claimed and its remote call is in flight.
    Executing,
    /// The queue is closed and drained; the worker has left its loop.
    Stopped,
}

/// The kind of thing that can happen to a worker.
#[derive(Debug, Clone, Copy, PartialEq, Eq, Structural)]
pub enum WorkerSignal {
    /// The queue handed over an item.
    Item,
    /// The queue is closed and holds nothing more.
    QueueClosed,
    /// The remote call that was in flight has returned.
    CallFinished,
}

/// What a step amounted to. This is what the worker has to tell a
/// diagnostics sink; nothing depends on anyone listening.
#[derive(Debug, Clone, Copy, PartialEq, Eq, Structural)]
pub enum WorkerNote {
    /// An item was claimed and its remote call is to be made.
    Claimed,
    /// An item was claimed whose caller had already given up: no remote call
    /// is made for it.
    Abandoned,
    /// The result was written into the completion handle.
    Delivered,
    /// The result was dropped because the caller had given up meanwhile.
    Discarded,
    /// The queue is closed; the worker stops.
    Closed,
    /// The event does not belong to the phase the worker is in. Nothing
    /// changed.
    OutOfTurn,
}

/// What happened since the last step.
pub enum WorkerEvent {
    /// The queue handed over this item.
    Received(HttpPoolRequest),
    /// Receiving failed: the queue is closed and empty.
    QueueClosed,
    /// The remote call returned this.
    CallFinished(HttpPoolResponse),
}

/// What the driver has to do next.
#[derive(Debug)]
pub enum WorkerAction {
    /// Wait on the queue, then report `Received` or `QueueClosed`.
    Receive,
    /// Run the remote call for this target to its end, then report
    /// `CallFinished`. No deadline applies to it.
    Execute(String),
    /// Leave the loop.
    Stop,
}

/// The outcome of one step.
#[derive(Debug)]
pub struct WorkerStep {
    pub action: WorkerAction,
    pub note: WorkerNote,
}

/// The notes that can accompany `signal` in `phase`. Where two are listed,
/// which one it is depends on whether the caller is still waiting.
pub open spec fn admissible(phase: WorkerPhase, signal: WorkerSignal, note: WorkerNote) -> bool {
    match (phase, signal) {
        (WorkerPhase::Waiting, WorkerSignal::Item) => note == WorkerNote::Claimed || note
            == WorkerNote::Abandoned,
        (WorkerPhase::Waiting, WorkerSignal::QueueClosed) => note == WorkerNote::Closed,
        (WorkerPhase::Executing, WorkerSignal::CallFinished) => note == WorkerNote::Delivered
            || note == WorkerNote::Discarded,
        _ => note == WorkerNote::OutOfTurn,
    }
}

/// The phase a worker is in after a step that amounted to `note`.
pub open spec fn phase_after(phase: WorkerPhase, note: WorkerNote) -> WorkerPhase {
    match note {
        WorkerNote::Claimed => WorkerPhase::Executing,
        WorkerNote::Abandoned | WorkerNote::Delivered | WorkerNote::Discarded => WorkerPhase::Waiting,
        WorkerNote::Closed => WorkerPhase::Stopped,
        WorkerNote::OutOfTurn => phase,
    }
}

/// `action` is what a worker in `phase` asks of its driver; when it is
/// executing, the call is for `target`.
pub open spec fn action_fits(action: WorkerAction, phase: WorkerPhase, target: Seq<char>) -> bool {
    match phase {
        WorkerPhase::Waiting => action is Receive,
        WorkerPhase::Executing => action matches WorkerAction::Execute(url) && url@ == target,
        WorkerPhase::Stopped => action is Stop,
    }
}

impl WorkerEvent {
    /// The kind of this event.
    pub open spec fn signal(self) -> WorkerSignal {
        match self {
            WorkerEvent::Received(_) => WorkerSignal::Item,
            WorkerEvent::QueueClosed => WorkerSignal::QueueClosed,
            WorkerEvent::CallFinished(_) => WorkerSignal::CallFinished,
        }
    }
}

/// The note for an item just taken from the queue, given whether its caller
/// was seen to have given up.
pub fn claim_note(abandoned: bool) -> (note: WorkerNote)
    ensures
        note == if abandoned {
            WorkerNote::Abandoned
        } else {
            WorkerNote::Claimed
        },
{
    if abandoned {
        WorkerNote::Abandoned
    } else {
        WorkerNote::Claimed
    }
}

/// The note for a result just written, given what the completion handle
/// answered: a refused write is absorbed, it is no error.
pub fn delivery_note(sent: &Result<(), HttpPoolResponse>) -> (note: WorkerNote)
    ensures
        note == if sent is Ok {
            WorkerNote::Delivered
        } else {
            WorkerNote::Discarded
        },
{
    match sent {
        Ok(_) => WorkerNote::Delivered,
        Err(_) => WorkerNote::Discarded,
    }
}

/// A worker as seen by contracts.
pub struct WorkerView {
    /// The worker's number within its pool, counted from zero.
    pub id: int,
    pub phase: WorkerPhase,
    /// The item whose remote call is in flight.
    pub claimed: Option<HttpPoolRequest>,
}

impl WorkerView {
    /// The target of the call in flight, or the empty string when there is
    /// none.
    pub open spec fn target(self) -> Seq<char> {
        match self.claimed {
            Some(item) => item.target(),
            None => Seq::empty(),
        }
    }
}

/// What a worker holds between two steps.
pub(crate) enum WorkerState {
    Waiting,
    Executing(HttpPoolRequest),
    Stopped,
}

/// One of the long-lived workers of a pool.
pub struct HttpPoolWorker {
    pub(crate) id: i32,
    pub(crate) receiver: async_channel::Receiver<HttpPoolRequest>,
    pub(crate) state: WorkerState,
}

impl View for HttpPoolWorker {
    type V = WorkerView;

    closed spec fn view(&self) -> WorkerView {
        WorkerView {
            id: self.id as int,
            phase: match self.state {
                WorkerState::Waiting => WorkerPhase::Waiting,
                WorkerState::Executing(_) => WorkerPhase::Executing,
                WorkerState::Stopped => WorkerPhase::Stopped,
            },
            claimed: match self.state {
                WorkerState::Executing(item) => Some(item),
                _ => None,
            },
        }
    }
}

impl HttpPoolWorker {
    /// The receiving end of the queue on which this worker waits.
    pub closed spec fn queue(&self) -> async_channel::Receiver<HttpPoolRequest> {
        self.receiver
    }

    /// A waiting worker with this number on this receiving end.
    pub(crate) fn new(
        id: i32,
        receiver: async_channel::Receiver<HttpPoolRequest>,
    ) -> (worker: HttpPoolWorker)
        ensures
            worker@ == (WorkerView { id: id as int, phase: WorkerPhase::Waiting, claimed: None }),
            worker.queue() == receiver,
    {
        HttpPoolWorker { id, receiver, state: WorkerState::Waiting }
    }

    /// The worker's number within its pool. It serves diagnostics only.
    pub fn id(&self) -> (id: i32)
        ensures
            id == self@.id,
    {
        self.id
    }

    /// The phase the worker is in.
    pub fn phase(&self) -> (phase: WorkerPhase)
        ensures
            phase == self@.phase,
    {
        match &self.state {
            WorkerState::Waiting => WorkerPhase::Waiting,
            WorkerState::Executing(_) => WorkerPhase::Executing,
            WorkerState::Stopped => WorkerPhase::Stopped,
        }
    }

    /// The receiving end of the queue on which this worker waits.
    pub fn receiver(&self) -> (receiver: &async_channel::Receiver<HttpPoolRequest>)
        ensures
            *receiver == self.queue(),
    {
        &self.receiver
    }

    /// What the worker asks of its driver in the phase it is in.
    pub fn action(&self) -> (action: WorkerAction)
        ensures
            action_fits(action, self@.phase, self@.target()),
    {
        match &self.state {
            WorkerState::Waiting => WorkerAction::Receive,
            WorkerState::Executing(item) => WorkerAction::Execute(item.url().clone()),
            WorkerState::Stopped => WorkerAction::Stop,
        }
    }

    /// Takes the worker one step further.
    ///
    /// A waiting worker that receives an item claims it, unless the item's
    /// caller has already given up: then the item is finalized at once and no
    /// remote call is made. A waiting worker that learns that the queue is
    /// closed stops. An executing worker whose call has returned writes the
    /// result into the claimed item's completion handle and waits again; if
    /// the caller has given up meanwhile the result is dropped, which is no
    /// error. Any other event is out of turn: it changes nothing, and an
    /// item or a result that came with it is dropped.
    ///
    /// Whether the caller has given up is read from the completion handle,
    /// so of two notes that are admissible the contract does not say which
    /// one comes back; everything else follows from the note.
    pub fn step(&mut self, event: WorkerEvent) -> (step: WorkerStep)
        ensures
            admissible(old(self)@.phase, event.signal(), step.note),
            final(self)@.id == old(self)@.id,
            final(self)@.phase == phase_after(old(self)@.phase, step.note),
            final(self)@.claimed == match step.note {
                WorkerNote::Claimed => Some(event->Received_0),
                WorkerNote::OutOfTurn => old(self)@.claimed,
                _ => None,
            },
            final(self).queue() == old(self).queue(),
            action_fits(step.action, final(self)@.phase, final(self)@.target()),
    {
        let mut state = WorkerState::Waiting;
        core::mem::swap(&mut self.state, &mut state);
        let note = match (state, event) {
            (WorkerState::Waiting, WorkerEvent::Received(item)) => {
                let note = claim_note(handle_abandoned(&item.result));
                if note == WorkerNote::Claimed {
                    self.state = WorkerState::Executing(item);
                }
                note
            },
            (WorkerState::Waiting, WorkerEvent::QueueClosed) => {
                self.state = WorkerState::Stopped;
                WorkerNote::Closed
            },
            (WorkerState::Executing(item), WorkerEvent::CallFinished(response)) => {
                let sent = handle_send(item.result, response);
                delivery_note(&sent)
            },
            (state, _) => {
                self.state = state;
                WorkerNote::OutOfTurn
            },
        };
        WorkerStep { action: self.action(), note }
    }
}

} // verus!
