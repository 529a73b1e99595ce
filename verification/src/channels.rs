//! The two channels the pool is built on, and what is taken on trust of them.
//!
//! The submission queue is an `async_channel` bounded channel; a completion
//! handle is a `tokio` oneshot channel. Both are shared between tasks, so
//! what a call observes can change between two calls on the same handle.
//! Only what never changes gets a name here: the bound a queue was made with,
//! and whether two receiving ends belong to one queue.

use vstd::prelude::*;
use crate::request::{HttpPoolRequest, HttpPoolResponse};

verus! {

#[verifier::external_type_specification]
#[verifier::external_body]
#[verifier::reject_recursive_types(T)]
pub struct ExQueueSender<T>(async_channel::Sender<T>);

#[verifier::external_type_specification]
#[verifier::external_body]
#[verifier::reject_recursive_types(T)]
pub struct ExQueueReceiver<T>(async_channel::Receiver<T>);

#[verifier::external_type_specification]
#[verifier::external_body]
#[verifier::reject_recursive_types(T)]
pub struct ExHandleSender<T>(tokio::sync::oneshot::Sender<T>);

#[verifier::external_type_specification]
#[verifier::external_body]
#[verifier::reject_recursive_types(T)]
pub struct ExHandleReceiver<T>(tokio::sync::oneshot::Receiver<T>);

#[verifier::external_type_specification]
#[verifier::external_body]
pub struct ExHandleRecvError(tokio::sync::oneshot::error::RecvError);

/// What `async_channel::Sender::capacity` returns for this sending end: the
/// bound the queue was created with, which never changes afterwards.
pub uninterp spec fn queue_bound(sender: async_channel::Sender<HttpPoolRequest>) -> Option<usize>;

/// What `async_channel::Receiver::same_channel` returns for these two
/// receiving ends: whether they take items from one and the same queue.
pub uninterp spec fn shares_queue(
    a: async_channel::Receiver<HttpPoolRequest>,
    b: async_channel::Receiver<HttpPoolRequest>,
) -> bool;

/// Calls `async_channel::bounded`. Trusted: the call returns the two ends of
/// a new queue whose bound is `capacity`. The outside function panics on a
/// capacity of zero, which the precondition rules out; it allocates all
/// `capacity` slots at once.
#[verifier::external_body]
pub(crate) fn open_queue(capacity: usize) -> (ends: (
    async_channel::Sender<HttpPoolRequest>,
    async_channel::Receiver<HttpPoolRequest>,
))
    requires
        capacity > 0,
    ensures
        queue_bound(ends.0) == Some(capacity),
{
    async_channel::bounded::<HttpPoolRequest>(capacity)
}

/// Calls `async_channel::Sender::capacity`. Trusted: the result is the bound
/// of the queue behind this sending end.
#[verifier::external_body]
pub(crate) fn bound_of(sender: &async_channel::Sender<HttpPoolRequest>) -> (bound: Option<usize>)
    ensures
        bound == queue_bound(*sender),
{
    sender.capacity()
}

/// Calls `Clone::clone` on an `async_channel::Receiver`. Trusted: the new
/// receiving end belongs to the same queue as the one it was cloned from.
/// The outside function aborts once more receiving ends exist than half of
/// `usize::MAX`, which a worker count that fits an `i32` does not reach.
#[verifier::external_body]
pub(crate) fn share_receiver(
    receiver: &async_channel::Receiver<HttpPoolRequest>,
) -> (shared: async_channel::Receiver<HttpPoolRequest>)
    ensures
        shares_queue(shared, *receiver),
{
    receiver.clone()
}

/// Calls `tokio::sync::oneshot::channel`. Nothing is claimed of the two ends.
#[verifier::external_body]
pub(crate) fn open_handle() -> (ends: (
    tokio::sync::oneshot::Sender<HttpPoolResponse>,
    tokio::sync::oneshot::Receiver<HttpPoolResponse>,
))
{
    tokio::sync::oneshot::channel::<HttpPoolResponse>()
}

/// Calls `tokio::sync::oneshot::Sender::is_closed`. The answer depends on
/// what the waiting side has done so far, so nothing is claimed of it.
#[verifier::external_body]
pub(crate) fn handle_abandoned(
    handle: &tokio::sync::oneshot::Sender<HttpPoolResponse>,
) -> (abandoned: bool)
{
    handle.is_closed()
}

/// Calls `tokio::sync::oneshot::Sender::send`. Trusted: the call never
/// blocks, and when the waiting side is gone the value comes back unchanged
/// as the error. Whether it is delivered depends on the waiting side.
#[verifier::external_body]
pub(crate) fn handle_send(
    handle: tokio::sync::oneshot::Sender<HttpPoolResponse>,
    value: HttpPoolResponse,
) -> (sent: Result<(), HttpPoolResponse>)
    ensures
        sent matches Err(returned) ==> returned == value,
{
    handle.send(value)
}

} // verus!
