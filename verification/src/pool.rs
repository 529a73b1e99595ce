//! The pool: its queue, its start, and the creation of submissions.

use vstd::prelude::*;
use crate::channels::{bound_of, open_handle, open_queue, queue_bound, share_receiver, shares_queue};
use crate::config::{HttpPoolBuilder, PoolConfig};
use crate::request::HttpPoolRequest;
use crate::submit::Submission;
use crate::worker::{HttpPoolWorker, WorkerPhase, WorkerView};

verus! {

/// Why a pool could not be started.
#[derive(Debug, Clone, Copy, PartialEq, Eq, Structural)]
pub enum StartupError {
    /// The pool had been started before. Its workers are running; starting
    /// it again would put a second set of workers on the same queue.
    AlreadyStarted,
}

/// A pool as seen by contracts.
pub struct PoolView {
    pub config: PoolConfig,
    /// Whether the workers have been handed out.
    pub started: bool,
}

/// A pool: the two ends of its bounded submission queue and its parameters.
#[derive(Debug)]
pub struct HttpPool {
    size: i32,
    timeout: i32,
    started: bool,
    sender: async_channel::Sender<HttpPoolRequest>,
    receiver: async_channel::Receiver<HttpPoolRequest>,
}

impl View for HttpPool {
    type V = PoolView;

    closed spec fn view(&self) -> PoolView {
        PoolView {
            config: PoolConfig { size: self.size as int, timeout: self.timeout as int },
            started: self.started,
        }
    }
}

impl HttpPool {
    #[verifier::type_invariant]
    spec fn queue_matches_parameters(&self) -> bool {
        &&& self.size >= 1
        &&& self.timeout >= 1
        &&& queue_bound(self.sender) == Some(self.size as usize)
    }

    /// The receiving end of the submission queue that the pool keeps.
    pub closed spec fn queue(&self) -> async_channel::Receiver<HttpPoolRequest> {
        self.receiver
    }

    /// The sending end of the submission queue.
    pub closed spec fn entrance(&self) -> async_channel::Sender<HttpPoolRequest> {
        self.sender
    }

    /// A builder holding the default parameters.
    pub fn builder() -> (builder: HttpPoolBuilder)
        ensures
            builder@ == PoolConfig::defaults(),
    {
        HttpPoolBuilder::new()
    }

    /// An unstarted pool with these parameters, on a new queue that holds at
    /// most `size` items.
    pub(crate) fn open(size: i32, timeout: i32) -> (pool: HttpPool)
        requires
            size >= 1,
            timeout >= 1,
        ensures
            pool@ == (PoolView {
                config: PoolConfig { size: size as int, timeout: timeout as int },
                started: false,
            }),
            queue_bound(pool.entrance()) == Some(size as usize),
    {
        let (sender, receiver) = open_queue(size as usize);
        HttpPool { size, timeout, started: false, sender, receiver }
    }

    /// The number of workers.
    pub fn size(&self) -> (size: i32)
        ensures
            size == self@.config.size,
            size >= 1,
    {
        proof {
            use_type_invariant(self);
        }
        self.size
    }

    /// The default deadline of a submission, in milliseconds.
    pub fn timeout(&self) -> (timeout: i32)
        ensures
            timeout == self@.config.timeout,
            timeout >= 1,
    {
        proof {
            use_type_invariant(self);
        }
        self.timeout
    }

    /// Whether the pool has been started.
    pub fn is_started(&self) -> (started: bool)
        ensures
            started == self@.started,
    {
        self.started
    }

    /// The number of items the submission queue holds at most: the number of
    /// workers.
    pub fn capacity(&self) -> (capacity: Option<usize>)
        ensures
            capacity == Some(self@.config.size as usize),
            capacity == queue_bound(self.entrance()),
    {
        proof {
            use_type_invariant(self);
        }
        bound_of(&self.sender)
    }

    /// The sending end of the submission queue, on which items are enqueued.
    pub fn sender(&self) -> (sender: &async_channel::Sender<HttpPoolRequest>)
        ensures
            *sender == self.entrance(),
    {
        &self.sender
    }

    /// Starts the pool: marks it started and hands out its workers, one for
    /// each number from zero up to the worker count, all waiting and all on
    /// the pool's own queue. Whoever drives the workers runs each of them in
    /// a task of its own.
    ///
    /// A pool can be started once. Starting it again fails, and the pool is
    /// gone with the call.
    pub fn start(self) -> (result: Result<(HttpPool, Vec<HttpPoolWorker>), StartupError>)
        ensures
            result is Ok <==> !self@.started,
            result matches Err(error) ==> error == StartupError::AlreadyStarted,
            result matches Ok((pool, workers)) ==> {
                &&& pool@ == (PoolView { config: self@.config, started: true })
                &&& pool.queue() == self.queue()
                &&& pool.entrance() == self.entrance()
                &&& pool@.config.valid()
                &&& workers.len() == self@.config.size
                &&& forall|i: int|
                    0 <= i < workers.len() ==> {
                        &&& (#[trigger] workers[i])@ == (WorkerView {
                            id: i,
                            phase: WorkerPhase::Waiting,
                            claimed: None,
                        })
                        &&& shares_queue(workers[i].queue(), self.queue())
                    }
            },
    {
        proof {
            use_type_invariant(&self);
        }
        if self.started {
            return Err(StartupError::AlreadyStarted);
        }
        let HttpPool { size, timeout, started: _, sender, receiver } = self;
        let mut workers: Vec<HttpPoolWorker> = Vec::new();
        let mut id: i32 = 0;
        while id < size
            invariant
                0 <= id <= size,
                workers.len() == id,
                forall|i: int|
                    0 <= i < workers.len() ==> {
                        &&& (#[trigger] workers[i])@ == (WorkerView {
                            id: i,
                            phase: WorkerPhase::Waiting,
                            claimed: None,
                        })
                        &&& shares_queue(workers[i].queue(), receiver)
                    },
            decreases size - id,
        {
            workers.push(HttpPoolWorker::new(id, share_receiver(&receiver)));
            id = id + 1;
        }
        Ok((HttpPool { size, timeout, started: true, sender, receiver }, workers))
    }

    /// Begins a submission for `req_url` with a deadline of `req_timeout`
    /// milliseconds, counted from this call: creates a fresh completion
    /// handle, puts its writing end into the work item and its reading end
    /// into the submission. The item is then to be enqueued on the pool's
    /// queue.
    pub fn request(&self, req_url: String, req_timeout: u64) -> (begun: (Submission, HttpPoolRequest))
        ensures
            begun.0.deadline() == req_timeout,
            begun.1.target() == req_url@,
    {
        let (result, receiver) = open_handle();
        (Submission::new(req_timeout, receiver), HttpPoolRequest::new(req_url, result))
    }

    /// Begins a submission for `req_url` with the pool's default deadline.
    pub fn request_with_default(&self, req_url: String) -> (begun: (Submission, HttpPoolRequest))
        ensures
            begun.0.deadline() == self@.config.timeout,
            begun.1.target() == req_url@,
    {
        let timeout = self.timeout();
        self.request(req_url, timeout as u64)
    }
}

} // verus!
