//! The caller's side of one submission: its deadline and what it returns.
//!
//! A submission is created together with its work item. The caller enqueues
//! the item, then waits on the completion handle for what is left of its
//! deadline, and finally hands what it saw to [`Submission::conclude`], which
//! decides what the caller gets. Times are milliseconds since the submission
//! was created, so time spent queueing counts against the deadline.

use vstd::prelude::*;
use crate::request::{HttpPoolResponse, RemoteError, RemoteResponse};

verus! {

/// Why a submission returned no response.
#[derive(Debug, Clone, PartialEq, Eq)]
pub enum DispatchError {
    /// The queue was closed, so the item was never enqueued.
    QueueClosed,
    /// The remote call failed; its error is passed through as it is.
    Remote(RemoteError),
    /// The deadline passed before a result arrived. The remote call is not
    /// cancelled: its result, if any, is dropped by the worker.
    Timeout,
    /// The completion handle was dropped before the deadline without a result.
    Disconnected,
}

/// What the caller saw after creating the submission.
pub enum SubmitEvent {
    /// Enqueueing failed because the queue is closed.
    QueueClosed,
    /// A result arrived on the completion handle after `elapsed`
    /// milliseconds.
    Completed { elapsed: u64, response: HttpPoolResponse },
    /// The writing end of the completion handle was dropped without a
    /// result, which was noticed after `elapsed` milliseconds.
    Disconnected { elapsed: u64 },
    /// The deadline passed first.
    DeadlineElapsed,
}

/// What a caller whose deadline is `timeout` milliseconds gets for `event`.
///
/// Whatever arrives strictly before the deadline is passed on: a response as
/// success, a remote error as that error. Whatever arrives at the deadline or
/// later counts as not having arrived.
pub open spec fn outcome(timeout: u64, event: SubmitEvent) -> Result<RemoteResponse, DispatchError> {
    match event {
        SubmitEvent::QueueClosed => Err(DispatchError::QueueClosed),
        SubmitEvent::Completed { elapsed, response } => if elapsed < timeout {
            match response {
                Ok(value) => Ok(value),
                Err(error) => Err(DispatchError::Remote(error)),
            }
        } else {
            Err(DispatchError::Timeout)
        },
        SubmitEvent::Disconnected { elapsed } => if elapsed < timeout {
            Err(DispatchError::Disconnected)
        } else {
            Err(DispatchError::Timeout)
        },
        SubmitEvent::DeadlineElapsed => Err(DispatchError::Timeout),
    }
}

/// How long a caller whose deadline is `timeout` may still wait once
/// `elapsed` milliseconds have gone by.
pub open spec fn time_left(timeout: u64, elapsed: u64) -> int {
    if elapsed < timeout {
        timeout - elapsed
    } else {
        0
    }
}

/// The caller's side of one submission. It owns the reading end of the
/// completion handle; dropping it is what abandons the handle.
pub struct Submission {
    pub(crate) timeout: u64,
    pub(crate) receiver: tokio::sync::oneshot::Receiver<HttpPoolResponse>,
}

impl Submission {
    /// A submission that waits on `receiver` for `timeout` milliseconds.
    pub(crate) fn new(
        timeout: u64,
        receiver: tokio::sync::oneshot::Receiver<HttpPoolResponse>,
    ) -> (submission: Submission)
        ensures
            submission.deadline() == timeout,
            submission.handle() == receiver,
    {
        Submission { timeout, receiver }
    }

    /// The deadline in milliseconds, counted from the creation of the
    /// submission.
    pub closed spec fn deadline(&self) -> u64 {
        self.timeout
    }

    /// The deadline in milliseconds, counted from the creation of the
    /// submission.
    pub fn timeout(&self) -> (timeout: u64)
        ensures
            timeout == self.deadline(),
    {
        self.timeout
    }

    /// How long the caller may still wait for the result once `elapsed`
    /// milliseconds have gone by since the submission was created.
    pub fn budget(&self, elapsed: u64) -> (left: u64)
        ensures
            left == time_left(self.deadline(), elapsed),
    {
        if elapsed < self.timeout {
            self.timeout - elapsed
        } else {
            0
        }
    }

    /// The reading end of the completion handle.
    pub closed spec fn handle(&self) -> tokio::sync::oneshot::Receiver<HttpPoolResponse> {
        self.receiver
    }

    /// The reading end of the completion handle, on which the caller waits.
    /// Waiting on it leaves the deadline as it is.
    pub fn receiver(&mut self) -> (receiver: &mut tokio::sync::oneshot::Receiver<HttpPoolResponse>)
        ensures
            *receiver == old(self).handle(),
            final(self).handle() == *final(receiver),
            final(self).deadline() == old(self).deadline(),
    {
        &mut self.receiver
    }

    /// Ends the submission: decides what the caller gets for what it saw,
    /// and gives up the completion handle. A result that a worker writes
    /// afterwards goes nowhere.
    ///
    /// A result that arrived strictly before the deadline is returned as it
    /// is, a response as success and a remote error as that error. Without
    /// one the caller gets a timeout.
    pub fn conclude(self, event: SubmitEvent) -> (result: Result<RemoteResponse, DispatchError>)
        ensures
            result == outcome(self.deadline(), event),
            event matches SubmitEvent::Completed { elapsed, response: Ok(value) } ==> (elapsed
                < self.deadline() ==> result == Ok::<RemoteResponse, DispatchError>(value)),
            event matches SubmitEvent::Completed { elapsed, response: Err(error) } ==> (elapsed
                < self.deadline() ==> result == Err::<RemoteResponse, DispatchError>(
                DispatchError::Remote(error),
            )),
            event matches SubmitEvent::Completed { elapsed, .. } ==> (elapsed >= self.deadline()
                ==> result == Err::<RemoteResponse, DispatchError>(DispatchError::Timeout)),
            event is DeadlineElapsed ==> result == Err::<RemoteResponse, DispatchError>(
                DispatchError::Timeout,
            ),
            result is Ok ==> event is Completed,
    {
        match event {
            SubmitEvent::QueueClosed => Err(DispatchError::QueueClosed),
            SubmitEvent::Completed { elapsed, response } => {
                if elapsed < self.timeout {
                    match response {
                        Ok(value) => Ok(value),
                        Err(error) => Err(DispatchError::Remote(error)),
                    }
                } else {
                    Err(DispatchError::Timeout)
                }
            },
            SubmitEvent::Disconnected { elapsed } => {
                if elapsed < self.timeout {
                    Err(DispatchError::Disconnected)
                } else {
                    Err(DispatchError::Timeout)
                }
            },
            SubmitEvent::DeadlineElapsed => Err(DispatchError::Timeout),
        }
    }
}

} // verus!
