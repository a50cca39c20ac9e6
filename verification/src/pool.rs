//! The bounded worker pool behind pooled dispatch, held behind trusted
//! wrappers around the `threadpool` crate.

use vstd::prelude::*;

use std::sync::Arc;

use crate::event::RawEvent;
use crate::handler::Handler;

verus! {

/// Declares threadpool's `ThreadPool` type so the engine can own and pass a
/// worker pool; everything known about its behavior enters through the
/// wrappers below.
#[verifier::external_type_specification]
#[verifier::external_body]
pub struct ExThreadPool(threadpool::ThreadPool);

/// Relies on threadpool::ThreadPool::new: a pool whose `workers` threads
/// outlive individual jobs and run at most `workers` jobs at once. `new`
/// panics on zero workers, so that input is excluded.
#[verifier::external_body]
pub(crate) fn pool_new(workers: usize) -> threadpool::ThreadPool
    requires
        workers >= 1,
{
    threadpool::ThreadPool::new(workers)
}

/// Relies on threadpool::ThreadPool::execute: submits one job — invoking the
/// shared handler on this event — and returns without waiting for it to run.
/// Jobs start in submission order; their completion order is not promised.
#[verifier::external_body]
pub(crate) fn pool_execute<H: Handler + Send + Sync + 'static>(
    pool: &threadpool::ThreadPool,
    handler: &Arc<H>,
    event: RawEvent,
) {
    let shared = Arc::clone(handler);
    pool.execute(move || shared.handle(event));
}

/// Relies on threadpool::ThreadPool::join: blocks until every job submitted
/// so far, queued or running, has completed. This is what lets the session
/// promise that no dispatched work is abandoned at shutdown.
#[verifier::external_body]
pub(crate) fn pool_join(pool: &threadpool::ThreadPool) {
    pool.join();
}

} // verus!
