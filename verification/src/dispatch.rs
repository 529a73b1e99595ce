//! The pool as a whole, and what holds of every state it can reach.
//!
//! The workers of this crate are driven one by one, and the queue between
//! callers and workers lives outside of it. This module puts them together in
//! an abstract account: a bounded queue of items, the workers with the item
//! each of them holds, and the callers that have given up. The queue is taken
//! to do what a bounded first-in first-out channel with many receivers does:
//! it admits an item only while it has room, and it hands each item to one
//! receiver that waits. The workers move as [`admissible`] and
//! [`phase_after`] say, the same functions by which
//! [`HttpPoolWorker::step`](crate::worker::HttpPoolWorker::step) is
//! specified.
//!
//! Items are numbered in the order in which the queue admitted them.

use vstd::prelude::*;
use crate::config::PoolConfig;
use crate::worker::{admissible, phase_after, WorkerNote, WorkerPhase, WorkerSignal, WorkerView};

verus! {

/// A worker in the account: its phase and the item it holds.
pub struct Slot {
    pub phase: WorkerPhase,
    pub item: Option<nat>,
}

/// A state of the pool.
pub struct Dispatch {
    /// How many items the queue holds at most.
    pub capacity: nat,
    /// Whether the queue has been closed.
    pub closed: bool,
    /// How many items the queue has admitted so far: the items `0`,
    /// `1`, ... below this number.
    pub submitted: nat,
    /// The items waiting in the queue, oldest first.
    pub queue: Seq<nat>,
    /// The workers, by their number.
    pub workers: Seq<Slot>,
    /// The items whose caller has given up its completion handle.
    pub abandoned: Set<nat>,
    /// For each item that has left the queue, the worker that took it.
    pub claimant: Map<nat, nat>,
    /// The items a worker is done with.
    pub finalized: Set<nat>,
}

/// One thing that can happen in the pool.
pub enum Move {
    /// The queue admits a new item.
    Submit,
    /// The queue hands its oldest item to a waiting worker, whose step
    /// amounts to `note`.
    Claim { worker: nat, note: WorkerNote },
    /// The remote call of an executing worker returns, and its step amounts
    /// to `note`.
    Finish { worker: nat, note: WorkerNote },
    /// The caller of an item gives up: its deadline has passed, or it has
    /// its result.
    GiveUp { item: nat },
    /// The queue is closed.
    Close,
    /// A waiting worker learns that the queue is closed and drained.
    Stop { worker: nat },
}

/// Where an item is.
pub enum Place {
    /// The queue has not admitted it yet.
    Unsubmitted,
    /// It waits in the queue.
    Queued,
    /// This worker holds it and runs its remote call.
    Executing(nat),
    /// A worker is done with it.
    Finalized,
}

/// The state of a pool built from `config` and started: an empty queue as
/// large as the pool has workers, and every worker waiting.
pub open spec fn initial(config: PoolConfig) -> Dispatch {
    Dispatch {
        capacity: config.size as nat,
        closed: false,
        submitted: 0,
        queue: Seq::empty(),
        workers: Seq::new(
            config.size as nat,
            |i: int| Slot { phase: WorkerPhase::Waiting, item: None },
        ),
        abandoned: Set::empty(),
        claimant: Map::empty(),
        finalized: Set::empty(),
    }
}

/// `m` can happen in `s`.
///
/// A submission is admitted only while the queue is open and has room;
/// otherwise it waits, which is no move. An item is handed only to a worker
/// that waits, and a worker passes over the item only if its caller has given
/// up. A result is dropped exactly if the caller has given up by then.
pub open spec fn enabled(s: Dispatch, m: Move) -> bool {
    match m {
        Move::Submit => !s.closed && s.queue.len() < s.capacity,
        Move::Claim { worker, note } => {
            &&& worker < s.workers.len()
            &&& s.workers[worker as int].phase == WorkerPhase::Waiting
            &&& s.queue.len() > 0
            &&& admissible(WorkerPhase::Waiting, WorkerSignal::Item, note)
            &&& note == WorkerNote::Abandoned ==> s.abandoned.contains(s.queue[0])
        },
        Move::Finish { worker, note } => {
            &&& worker < s.workers.len()
            &&& s.workers[worker as int].phase == WorkerPhase::Executing
            &&& s.workers[worker as int].item is Some
            &&& admissible(WorkerPhase::Executing, WorkerSignal::CallFinished, note)
            &&& note == WorkerNote::Discarded <==> s.abandoned.contains(
                s.workers[worker as int].item->0,
            )
        },
        Move::GiveUp { item } => item < s.submitted,
        Move::Close => true,
        Move::Stop { worker } => {
            &&& worker < s.workers.len()
            &&& s.workers[worker as int].phase == WorkerPhase::Waiting
            &&& s.closed
            &&& s.queue.len() == 0
        },
    }
}

/// The state after `m` has happened in `s`.
pub open spec fn apply(s: Dispatch, m: Move) -> Dispatch {
    match m {
        Move::Submit => Dispatch {
            submitted: s.submitted + 1,
            queue: s.queue.push(s.submitted),
            ..s
        },
        Move::Claim { worker, note } => {
            let item = s.queue[0];
            let slot = Slot {
                phase: phase_after(WorkerPhase::Waiting, note),
                item: if note == WorkerNote::Claimed {
                    Some(item)
                } else {
                    None
                },
            };
            Dispatch {
                queue: s.queue.drop_first(),
                workers: s.workers.update(worker as int, slot),
                claimant: s.claimant.insert(item, worker),
                finalized: if note == WorkerNote::Claimed {
                    s.finalized
                } else {
                    s.finalized.insert(item)
                },
                ..s
            }
        },
        Move::Finish { worker, note } => {
            let item = s.workers[worker as int].item->0;
            let slot = Slot { phase: phase_after(WorkerPhase::Executing, note), item: None };
            Dispatch {
                workers: s.workers.update(worker as int, slot),
                finalized: s.finalized.insert(item),
                ..s
            }
        },
        Move::GiveUp { item } => Dispatch { abandoned: s.abandoned.insert(item), ..s },
        Move::Close => Dispatch { closed: true, ..s },
        Move::Stop { worker } => {
            let slot = Slot {
                phase: phase_after(WorkerPhase::Waiting, WorkerNote::Closed),
                item: None,
            };
            Dispatch { workers: s.workers.update(worker as int, slot), ..s }
        },
    }
}

/// What a worker's step that amounted to `note` is in the account: the move
/// of the pool that it takes part in, or none for a step out of turn.
pub open spec fn move_for(worker: nat, note: WorkerNote) -> Option<Move> {
    match note {
        WorkerNote::Claimed | WorkerNote::Abandoned => Some(Move::Claim { worker, note }),
        WorkerNote::Delivered | WorkerNote::Discarded => Some(Move::Finish { worker, note }),
        WorkerNote::Closed => Some(Move::Stop { worker }),
        WorkerNote::OutOfTurn => None,
    }
}

/// The account's `slot` stands for a worker that looks like `worker`: both
/// are in the same phase, and both hold an item or neither does.
pub open spec fn mirrors(slot: Slot, worker: WorkerView) -> bool {
    &&& slot.phase == worker.phase
    &&& slot.item is Some <==> worker.claimed is Some
}

/// Where `item` is in `s`.
pub open spec fn place(s: Dispatch, item: nat) -> Place {
    if s.finalized.contains(item) {
        Place::Finalized
    } else if s.claimant.contains_key(item) {
        Place::Executing(s.claimant[item])
    } else if s.queue.contains(item) {
        Place::Queued
    } else {
        Place::Unsubmitted
    }
}

/// The books of `s` are in order: the queue, the workers and the record of
/// who took what agree with each other.
pub open spec fn sound(s: Dispatch) -> bool {
    &&& s.capacity >= 1
    &&& s.workers.len() == s.capacity
    &&& s.queue.len() <= s.capacity
    &&& s.queue.no_duplicates()
    &&& forall|i: int|
        0 <= i < s.queue.len() ==> {
            &&& (#[trigger] s.queue[i]) < s.submitted
            &&& !s.claimant.contains_key(s.queue[i])
        }
    &&& forall|w: int|
        0 <= w < s.workers.len() ==> {
            &&& (#[trigger] s.workers[w]).phase == WorkerPhase::Executing <==> s.workers[w].item is Some
            &&& s.workers[w].item matches Some(item) ==> {
                &&& s.claimant.contains_key(item)
                &&& s.claimant[item] == w
                &&& !s.finalized.contains(item)
            }
            &&& s.workers[w].phase == WorkerPhase::Stopped ==> s.closed && s.queue.len() == 0
        }
    &&& forall|item: nat| #[trigger]
        s.claimant.contains_key(item) ==> {
            &&& item < s.submitted
            &&& s.claimant[item] < s.capacity
            &&& !s.finalized.contains(item) ==> s.workers[s.claimant[item] as int].item == Some(
                item,
            )
        }
    &&& forall|item: nat| #[trigger] s.finalized.contains(item) ==> s.claimant.contains_key(item)
    &&& forall|item: nat|
        item < s.submitted ==> #[trigger] s.queue.contains(item) || s.claimant.contains_key(item)
}

/// The state after `moves` have happened one after the other, if each of
/// them could.
pub open spec fn run(s: Dispatch, moves: Seq<Move>) -> Option<Dispatch>
    decreases moves.len(),
{
    if moves.len() == 0 {
        Some(s)
    } else if !enabled(s, moves[0]) {
        None
    } else {
        run(apply(s, moves[0]), moves.drop_first())
    }
}

/// How many of `moves` hand an item to a worker.
pub open spec fn claims(moves: Seq<Move>) -> nat
    decreases moves.len(),
{
    if moves.len() == 0 {
        0
    } else {
        let first: nat = if moves[0] is Claim {
            1
        } else {
            0
        };
        first + claims(moves.drop_first())
    }
}

/// A pool that has just been started is in order.
pub proof fn law_initial_state_is_sound(config: PoolConfig)
    requires
        config.valid(),
    ensures
        sound(initial(config)),
{
}

/// Every state that a started pool can reach is in order.
pub proof fn law_reachable_states_are_sound(config: PoolConfig, moves: Seq<Move>)
    requires
        config.valid(),
        run(initial(config), moves) is Some,
    ensures
        sound(run(initial(config), moves)->0),
{
    law_runs_keep_soundness(initial(config), moves);
}

proof fn lemma_submit_keeps_soundness(s: Dispatch)
    requires
        sound(s),
        enabled(s, Move::Submit),
    ensures
        sound(apply(s, Move::Submit)),
{
    let t = apply(s, Move::Submit);
    assert forall|item: nat| item < t.submitted implies #[trigger] t.queue.contains(item)
        || t.claimant.contains_key(item) by {
        if item == s.submitted {
            assert(t.queue[s.queue.len() as int] == item);
        } else if s.queue.contains(item) {
            let i = choose|i: int| 0 <= i < s.queue.len() && s.queue[i] == item;
            assert(t.queue[i] == item);
        }
    }
}

proof fn lemma_claim_keeps_soundness(s: Dispatch, worker: nat, note: WorkerNote)
    requires
        sound(s),
        enabled(s, Move::Claim { worker, note }),
    ensures
        sound(apply(s, Move::Claim { worker, note })),
{
    let t = apply(s, Move::Claim { worker, note });
    let item = s.queue[0];
    assert(!s.claimant.contains_key(item));
    assert forall|i: int| 0 <= i < t.queue.len() implies {
        &&& (#[trigger] t.queue[i]) < t.submitted
        &&& !t.claimant.contains_key(t.queue[i])
    } by {
        assert(t.queue[i] == s.queue[i + 1]);
    }
    assert forall|other: nat| other < t.submitted implies #[trigger] t.queue.contains(other)
        || t.claimant.contains_key(other) by {
        if other != item && s.queue.contains(other) {
            let i = choose|i: int| 0 <= i < s.queue.len() && s.queue[i] == other;
            assert(t.queue[i - 1] == other);
        }
    }
}

/// Whatever happens in a pool that is in order leaves it in order.
pub proof fn law_moves_keep_soundness(s: Dispatch, m: Move)
    requires
        sound(s),
        enabled(s, m),
    ensures
        sound(apply(s, m)),
{
    match m {
        Move::Submit => lemma_submit_keeps_soundness(s),
        Move::Claim { worker, note } => lemma_claim_keeps_soundness(s, worker, note),
        Move::Finish { worker, note } => {},
        Move::GiveUp { item } => {},
        Move::Close => {},
        Move::Stop { worker } => {},
    }
}

/// Whatever sequence of things happens in a pool that is in order leaves it
/// in order.
pub proof fn law_runs_keep_soundness(s: Dispatch, moves: Seq<Move>)
    requires
        sound(s),
        run(s, moves) is Some,
    ensures
        sound(run(s, moves)->0),
    decreases moves.len(),
{
    if moves.len() > 0 {
        law_moves_keep_soundness(s, moves[0]);
        law_runs_keep_soundness(apply(s, moves[0]), moves.drop_first());
    }
}

/// Every item that the queue has admitted is in exactly one place: in the
/// queue, where it occurs once; with one worker; or finalized. No item is
/// lost, and none is with two workers.
pub proof fn law_every_item_has_one_place(s: Dispatch, item: nat)
    requires
        sound(s),
    ensures
        item < s.submitted <==> !(place(s, item) is Unsubmitted),
        s.queue.contains(item) <==> place(s, item) is Queued,
        forall|i: int, j: int|
            0 <= i < s.queue.len() && 0 <= j < s.queue.len() && s.queue[i] == item && s.queue[j]
                == item ==> i == j,
        forall|w: int|
            0 <= w < s.workers.len() ==> (#[trigger] s.workers[w].item == Some(item) <==> place(
                s,
                item,
            ) == Place::Executing(w as nat)),
{
    if s.queue.contains(item) {
        let i = choose|i: int| 0 <= i < s.queue.len() && s.queue[i] == item;
        assert(!s.claimant.contains_key(s.queue[i]));
    }
}

/// Once a worker has taken an item, the item stays with that worker in the
/// record whatever happens next: no second worker ever gets it.
pub proof fn law_claim_is_never_undone(s: Dispatch, m: Move, item: nat)
    requires
        sound(s),
        enabled(s, m),
        s.claimant.contains_key(item),
    ensures
        apply(s, m).claimant.contains_key(item),
        apply(s, m).claimant[item] == s.claimant[item],
{
    if m is Claim {
        assert(!s.claimant.contains_key(s.queue[0]));
    }
}

/// Once a worker has taken an item, the item stays with that worker in the
/// record through any sequence of moves.
pub proof fn law_claims_outlast_runs(s: Dispatch, moves: Seq<Move>, item: nat)
    requires
        sound(s),
        run(s, moves) is Some,
        s.claimant.contains_key(item),
    ensures
        run(s, moves)->0.claimant.contains_key(item),
        run(s, moves)->0.claimant[item] == s.claimant[item],
    decreases moves.len(),
{
    if moves.len() > 0 {
        law_moves_keep_soundness(s, moves[0]);
        law_claim_is_never_undone(s, moves[0], item);
        law_claims_outlast_runs(apply(s, moves[0]), moves.drop_first(), item);
    }
}

/// While an item waits in the queue and a worker waits for one, the queue
/// can hand over its oldest item, and the worker that gets it is the one that
/// holds it afterwards.
pub proof fn law_waiting_worker_takes_oldest(s: Dispatch, worker: nat)
    requires
        sound(s),
        s.queue.len() > 0,
        worker < s.workers.len(),
        s.workers[worker as int].phase == WorkerPhase::Waiting,
    ensures
        enabled(s, Move::Claim { worker, note: WorkerNote::Claimed }),
        place(apply(s, Move::Claim { worker, note: WorkerNote::Claimed }), s.queue[0])
            == Place::Executing(worker),
{
    assert(!s.claimant.contains_key(s.queue[0]));
}

/// An item that has `k` items before it in the queue has been taken by a
/// worker once the queue has handed over more than `k` items, whatever else
/// happens in between. So no item waits forever while workers keep taking
/// items.
pub proof fn law_queued_item_is_claimed(s: Dispatch, moves: Seq<Move>, k: int)
    requires
        sound(s),
        0 <= k < s.queue.len(),
        run(s, moves) is Some,
        claims(moves) > k,
    ensures
        run(s, moves)->0.claimant.contains_key(s.queue[k]),
    decreases moves.len(),
{
    let item = s.queue[k];
    if moves.len() > 0 {
        let m = moves[0];
        let t = apply(s, m);
        let rest = moves.drop_first();
        law_moves_keep_soundness(s, m);
        if m is Claim {
            if k == 0 {
                law_claims_outlast_runs(t, rest, item);
            } else {
                assert(t.queue[k - 1] == item);
                law_queued_item_is_claimed(t, rest, k - 1);
            }
        } else {
            assert(t.queue[k] == item);
            law_queued_item_is_claimed(t, rest, k);
        }
    }
}

/// A full queue admits nothing: the submission waits. It is admitted as soon
/// as the queue has handed an item to a worker, and nothing else that can
/// happen makes room for it.
pub proof fn law_full_queue_waits_for_a_claim(s: Dispatch, m: Move)
    requires
        sound(s),
        s.queue.len() == s.capacity,
        enabled(s, m),
    ensures
        !enabled(s, Move::Submit),
        enabled(apply(s, m), Move::Submit) ==> m is Claim,
        m is Claim && !s.closed ==> enabled(apply(s, m), Move::Submit),
{
}

/// An open queue that has room admits a submission at once, and the new item
/// waits at the end of the queue.
pub proof fn law_open_queue_with_room_admits(s: Dispatch)
    requires
        sound(s),
        !s.closed,
        s.queue.len() < s.capacity,
    ensures
        enabled(s, Move::Submit),
        apply(s, Move::Submit).queue == s.queue.push(s.submitted),
        place(apply(s, Move::Submit), s.submitted) is Queued,
{
    let t = apply(s, Move::Submit);
    assert(t.queue[s.queue.len() as int] == s.submitted);
    assert(!s.claimant.contains_key(s.submitted));
}

/// A result that comes back after the caller has given up is dropped: the
/// write can always happen, it is no error, and it is not delivered. The
/// worker waits again; the queue, the other workers and every other item are
/// as they were.
pub proof fn law_late_result_is_absorbed(s: Dispatch, worker: nat, item: nat)
    requires
        sound(s),
        worker < s.workers.len(),
        s.workers[worker as int].item == Some(item),
        s.abandoned.contains(item),
    ensures
        enabled(s, Move::Finish { worker, note: WorkerNote::Discarded }),
        !enabled(s, Move::Finish { worker, note: WorkerNote::Delivered }),
        ({
            let t = apply(s, Move::Finish { worker, note: WorkerNote::Discarded });
            &&& t.workers[worker as int].phase == WorkerPhase::Waiting
            &&& place(t, item) is Finalized
            &&& t.queue == s.queue
            &&& t.closed == s.closed
            &&& t.abandoned == s.abandoned
            &&& forall|w: int|
                0 <= w < s.workers.len() && w != worker ==> #[trigger] t.workers[w] == s.workers[w]
            &&& forall|other: nat| other != item ==> #[trigger] place(t, other) == place(s, other)
        }),
{
}

/// A caller that gives up cancels nothing but its own wait: the queue and
/// the workers are as they were, and every item is where it was. A remote
/// call in flight runs to its end.
pub proof fn law_giving_up_cancels_nothing(s: Dispatch, item: nat)
    requires
        sound(s),
        item < s.submitted,
    ensures
        enabled(s, Move::GiveUp { item }),
        ({
            let t = apply(s, Move::GiveUp { item });
            &&& t.queue == s.queue
            &&& t.workers == s.workers
            &&& t.closed == s.closed
            &&& forall|other: nat| #[trigger] place(t, other) == place(s, other)
        }),
{
}

/// The account moves as the workers do. Take a worker for which a slot
/// stands, and a step of it as
/// [`HttpPoolWorker::step`](crate::worker::HttpPoolWorker::step) describes
/// one: an admissible note, the phase that follows from it, and an item held
/// afterwards exactly if one was claimed or kept. If the step is in turn and
/// the pool is in a state in which its move can happen, the slot stands for
/// the worker after the move as well; a step out of turn is no move, and the
/// slot goes on standing for the worker.
pub proof fn law_steps_are_moves(
    s: Dispatch,
    worker: nat,
    before: WorkerView,
    signal: WorkerSignal,
    note: WorkerNote,
    after: WorkerView,
)
    requires
        sound(s),
        worker < s.workers.len(),
        mirrors(s.workers[worker as int], before),
        admissible(before.phase, signal, note),
        after.phase == phase_after(before.phase, note),
        after.claimed is Some <==> note == WorkerNote::Claimed || (note == WorkerNote::OutOfTurn
            && before.claimed is Some),
        move_for(worker, note) matches Some(m) ==> enabled(s, m),
    ensures
        match move_for(worker, note) {
            Some(m) => mirrors(apply(s, m).workers[worker as int], after),
            None => mirrors(s.workers[worker as int], after),
        },
{
}

/// A worker has stopped only if the queue is closed and drained.
pub proof fn law_workers_stop_only_when_drained(s: Dispatch, worker: nat)
    requires
        sound(s),
        worker < s.workers.len(),
        s.workers[worker as int].phase == WorkerPhase::Stopped,
    ensures
        s.closed,
        s.queue.len() == 0,
{
}

} // verus!
