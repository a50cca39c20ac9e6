//! The handler capability: what the session invokes for each admitted event.

use vstd::prelude::*;

use crate::event::RawEvent;

verus! {

/// A user-supplied consumer of admitted events. The engine promises nothing
/// about what `handle` does and never inspects its effects; when events are
/// fanned out over a worker pool the handler is shared read-only across
/// threads, so pooled use additionally needs `Send + Sync`. A failure inside
/// `handle` is the handler's own concern: with inline delivery it propagates
/// to the session loop, with pooled delivery it stays on its worker.
pub trait Handler {
    fn handle(&self, event: RawEvent);
}

} // verus!
