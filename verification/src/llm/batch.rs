//! Bookkeeping of batch analyses and of the client pool.

use vstd::prelude::*;
use crate::llm::error::LLMError;

verus! {

/// Settings of a batch analyzer.
#[derive(Debug)]
pub struct BatchStats {
    pub max_concurrent: usize,
}

/// The outcome of a batch: the successful results, and the failures with the
/// position of the item that failed.
pub struct BatchResult<T> {
    pub successful: Vec<T>,
    pub failed: Vec<(usize, LLMError)>,
}

impl<T> BatchResult<T> {
    /// An empty outcome.
    pub fn new() -> (r: Self)
        ensures
            r.successful@.len() == 0,
            r.failed@.len() == 0,
    {
        BatchResult { successful: Vec::new(), failed: Vec::new() }
    }
}

/// Occupancy of a client pool.
#[derive(Debug, Clone)]
pub struct PoolStats {
    pub pool_size: usize,
    pub available_permits: usize,
}

} // verus!
