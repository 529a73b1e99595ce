//! Pool parameters and their fluent builder.

use vstd::prelude::*;
use crate::channels::queue_bound;
use crate::pool::{HttpPool, PoolView};

verus! {

/// The parameters of a pool, as mathematical integers.
pub struct PoolConfig {
    /// Number of workers, which is also the capacity of the submission queue.
    pub size: int,
    /// Default deadline of a submission, in milliseconds.
    pub timeout: int,
}

impl PoolConfig {
    /// The parameters a fresh builder starts from.
    pub open spec fn defaults() -> PoolConfig {
        PoolConfig { size: 10, timeout: 60 }
    }

    /// A pool can be built from these parameters: both are positive.
    pub open spec fn valid(self) -> bool {
        self.size >= 1 && self.timeout >= 1
    }
}

/// Why a set of parameters was refused.
#[derive(Debug, Clone, Copy, PartialEq, Eq, Structural)]
pub enum ConfigError {
    /// The worker count was zero or negative.
    InvalidSize(i32),
    /// The default timeout was zero or negative.
    InvalidTimeout(i32),
}

/// Collects the parameters of a pool before it is built.
#[derive(Debug)]
pub struct HttpPoolBuilder {
    pub(crate) size: i32,
    pub(crate) timeout: i32,
}

impl View for HttpPoolBuilder {
    type V = PoolConfig;

    closed spec fn view(&self) -> PoolConfig {
        PoolConfig { size: self.size as int, timeout: self.timeout as int }
    }
}

impl HttpPoolBuilder {
    /// A builder holding the default parameters: ten workers and a timeout of
    /// sixty milliseconds.
    pub fn new() -> (builder: HttpPoolBuilder)
        ensures
            builder@ == PoolConfig::defaults(),
    {
        HttpPoolBuilder { size: 10, timeout: 60 }
    }

    /// Replaces the worker count and keeps the timeout. Any value is taken;
    /// it is judged when the pool is built.
    pub fn size(self, size: i32) -> (builder: HttpPoolBuilder)
        ensures
            builder@ == (PoolConfig { size: size as int, timeout: self@.timeout }),
    {
        let mut builder = self;
        builder.size = size;
        builder
    }

    /// Replaces the default timeout and keeps the worker count. Any value is
    /// taken; it is judged when the pool is built.
    pub fn timeout(self, timeout: i32) -> (builder: HttpPoolBuilder)
        ensures
            builder@ == (PoolConfig { size: self@.size, timeout: timeout as int }),
    {
        let mut builder = self;
        builder.timeout = timeout;
        builder
    }

    /// Builds an unstarted pool whose submission queue holds as many items
    /// as the pool has workers. A worker count or a timeout below one is
    /// refused; the worker count is judged first.
    pub fn build(self) -> (result: Result<HttpPool, ConfigError>)
        ensures
            result is Ok <==> self@.valid(),
            result matches Ok(pool) ==> {
                &&& pool@ == (PoolView { config: self@, started: false })
                &&& queue_bound(pool.entrance()) == Some(self@.size as usize)
            },
            result matches Err(error) ==> error == if self@.size < 1 {
                ConfigError::InvalidSize(self@.size as i32)
            } else {
                ConfigError::InvalidTimeout(self@.timeout as i32)
            },
    {
        if self.size < 1 {
            Err(ConfigError::InvalidSize(self.size))
        } else if self.timeout < 1 {
            Err(ConfigError::InvalidTimeout(self.timeout))
        } else {
            Ok(HttpPool::open(self.size, self.timeout))
        }
    }
}

} // verus!
