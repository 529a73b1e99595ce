//! A bounded-concurrency request-dispatch pool.
//!
//! Callers submit work items through a bounded queue; a fixed set of workers
//! claims them, runs the remote call and hands the result back through a
//! single-use completion handle, while the caller waits no longer than its
//! deadline.
//!
//! The crate holds the decisions of that pool: how a configuration is
//! validated, how the pool starts, what a worker does with each item, and what
//! a caller gets back. Waiting (on the queue, on the remote call, on the
//! deadline) is left to the embedding program, which feeds what happened back
//! into the state machines defined here.

pub mod channels;
pub mod config;
pub mod dispatch;
pub mod pool;
pub mod request;
pub mod submit;
pub mod worker;

pub use config::{ConfigError, HttpPoolBuilder, PoolConfig};
pub use pool::{HttpPool, PoolView, StartupError};
pub use request::{HttpPoolRequest, HttpPoolResponse, RemoteError, RemoteResponse};
pub use submit::{DispatchError, SubmitEvent, Submission};
pub use worker::{
    HttpPoolWorker, WorkerAction, WorkerEvent, WorkerNote, WorkerPhase, WorkerSignal, WorkerStep,
};
