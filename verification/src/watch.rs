//! The watch session: the orchestrator that owns the filter, the handler,
//! the optional worker pool and the subscription handle, and carries out the
//! classify–filter–dispatch work and the drain-before-exit shutdown protocol
//! one observation at a time.
//!
//! One call to [`Watch::run_step`] performs one iteration of the session
//! loop: it waits for the next observation, advances the lifecycle state
//! machine, and executes the command the machine ordered. The caller drives
//! `run_step` until the session reports [`ShutdownState::Stopped`] and then
//! calls [`Watch::finish`]; the driving loop itself stays outside this crate
//! because it blocks for as long as the watch source keeps producing.

use vstd::prelude::*;

use std::sync::Arc;

use crate::channel::select_next;
use crate::channel::try_next;
use crate::dispatch::print_line;
use crate::dispatch::process_event;
use crate::dispatch::process_event_spec;
use crate::dispatch::DispatchOutcome;
use crate::event::IntakeItem;
use crate::filter::CategoryFilter;
use crate::handler::Handler;
use crate::lifecycle::state_le;
use crate::lifecycle::step;
use crate::lifecycle::step_spec;
use crate::lifecycle::SessionCommand;
use crate::lifecycle::SessionEvent;
use crate::lifecycle::ShutdownState;
use crate::pool::pool_join;
use crate::pool::pool_new;

verus! {

/// The session's exclusively owned handle on the external watch source.
/// Releasing it stops new events from entering the intake; the session
/// releases it exactly once, when cancellation starts the drain. When the
/// intake disconnects on its own there is nothing left to release.
pub trait Subscription {
    fn release(&mut self);
}

/// A configured watch session. `path` and `recursive` record what the
/// subscription was made for; `events_filter` is the admission policy;
/// `handler` consumes admitted events; a worker pool is present exactly when
/// `num_threads > 1`, in which case admitted events are fanned out instead of
/// handled inline.
pub struct Watch<H> {
    pub path: String,
    pub recursive: bool,
    pub events_filter: CategoryFilter,
    pub handler: Arc<H>,
    pub num_threads: usize,
    pub pool: Option<threadpool::ThreadPool>,
}

/// What one session iteration did to the handler: the dispatch decision for
/// the one intake item it processed, if it processed one.
pub open spec fn run_step_outcome_spec(
    events_filter: CategoryFilter,
    pooled: bool,
    state: ShutdownState,
    observed: SessionEvent,
) -> Option<DispatchOutcome> {
    match step_spec(state, observed).1 {
        Some(SessionCommand::Process(item)) => Some(
            process_event_spec(item, events_filter, pooled),
        ),
        _ => None,
    }
}

impl<H: Handler + Send + Sync + 'static> Watch<H> {
    /// A session asks for at least one thread, and owns a worker pool
    /// exactly when it dispatches concurrently.
    pub open spec fn wf(&self) -> bool {
        &&& self.num_threads >= 1
        &&& (self.pool is Some <==> self.num_threads > 1)
    }

    /// Configure a session watching `path`. With `num_threads == 1` events
    /// are handled on the session's own thread, in arrival order, one at a
    /// time; with more threads a worker pool of that size is created now and
    /// admitted events are submitted to it.
    pub fn new(
        path: String,
        recursive: bool,
        events_filter: CategoryFilter,
        f: Arc<H>,
        num_threads: usize,
    ) -> (r: Watch<H>)
        requires
            num_threads >= 1,
        ensures
            r.path == path,
            r.recursive == recursive,
            r.events_filter == events_filter,
            r.handler == f,
            r.num_threads == num_threads,
            r.wf(),
    {
        let pool = if num_threads > 1 {
            Some(pool_new(num_threads))
        } else {
            None
        };
        Watch { path, recursive, events_filter, handler: f, num_threads, pool }
    }

    /// One iteration of the session loop, for a session that has not
    /// stopped.
    ///
    /// While `Running` it blocks for the next of an intake item or a
    /// cancellation notice; while `Draining` it takes the next buffered
    /// intake item without blocking. It then advances the lifecycle state
    /// machine by that observation and executes what the machine ordered:
    /// an intake item is processed — classified, filtered, dispatched — in
    /// arrival order, and a cancellation releases the subscription before
    /// any draining. Returns the next state, the observation (as a ghost
    /// record of what this iteration reacted to), and the dispatch decision
    /// for the processed item, if one was processed.
    pub fn run_step<S: Subscription>(
        &self,
        state: ShutdownState,
        subscription: &mut S,
        intake: &crossbeam_channel::Receiver<IntakeItem>,
        cancel: &crossbeam_channel::Receiver<()>,
    ) -> (r: (ShutdownState, Ghost<SessionEvent>, Option<DispatchOutcome>))
        requires
            !(state is Stopped),
        ensures
            r.0 == step_spec(state, r.1@).0,
            r.2 == run_step_outcome_spec(self.events_filter, self.pool is Some, state, r.1@),
            state_le(state, r.0),
            state is Running ==> !(r.1@ is IntakeEmpty),
            state is Draining ==> !(r.1@ is Cancel),
    {
        let observed: SessionEvent = match state {
            ShutdownState::Running => select_next(intake, cancel),
            ShutdownState::Draining => try_next(intake),
            ShutdownState::Stopped => try_next(intake),
        };
        let ghost observed_then = observed;
        let (next, command) = step(state, observed);
        let outcome = match command {
            Some(SessionCommand::Process(item)) => Some(
                process_event(item, &self.events_filter, &self.handler, &self.pool),
            ),
            Some(SessionCommand::Unsubscribe) => {
                print_line(
                    "Termination signal received. Stopping the watcher... Waiting for ongoing tasks to complete...",
                );
                subscription.release();
                None
            },
            None => None,
        };
        (next, Ghost(observed_then), outcome)
    }

    /// Block until every task submitted to the worker pool so far has
    /// completed; with no pool there is nothing to wait for. The session
    /// calls this once it is `Stopped`, before reporting completion, so that
    /// no dispatched work is abandoned.
    pub fn finish(&self) {
        if let Some(pool) = &self.pool {
            pool_join(pool);
        }
    }
}

} // verus!
