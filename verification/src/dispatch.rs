//! Per-item dispatch: classify and filter one intake item and deliver it to
//! the handler, inline or on the worker pool; and the laws tying the
//! dispatched stream to the arrival stream.

use vstd::prelude::*;

use std::io::Write;
use std::sync::Arc;

use crate::event::IntakeItem;
use crate::event::RawEvent;
use crate::filter::admits_spec;
use crate::filter::CategoryFilter;
use crate::handler::Handler;
use crate::pool::pool_execute;

verus! {

/// What processing one intake item decided.
#[derive(Clone, Copy, Debug, PartialEq, Eq, Structural)]
pub enum DispatchOutcome {
    /// The event was admitted and the handler was invoked on the calling
    /// thread; the call has returned.
    Inline,
    /// The event was admitted and a task invoking the handler was submitted
    /// to the worker pool.
    Pooled,
    /// The event was not admitted; the handler is never invoked for it.
    Filtered,
    /// The watch source reported an error in place of an event; it was
    /// reported and the session goes on.
    ErrorReported,
}

/// Whether an outcome hands the event to the handler.
pub open spec fn is_dispatch(outcome: DispatchOutcome) -> bool {
    outcome is Inline || outcome is Pooled
}

/// What `process_event` decides for one intake item: an admitted event is
/// dispatched — pooled exactly when a pool is present — a rejected event is
/// dropped, and a source error is reported without ending the session.
pub open spec fn process_event_spec(
    item: IntakeItem,
    events_filter: CategoryFilter,
    pooled: bool,
) -> DispatchOutcome {
    match item {
        IntakeItem::Event(event) => if admits_spec(events_filter, event.kind) {
            if pooled {
                DispatchOutcome::Pooled
            } else {
                DispatchOutcome::Inline
            }
        } else {
            DispatchOutcome::Filtered
        },
        IntakeItem::SourceError(_) => DispatchOutcome::ErrorReported,
    }
}

/// Relies on std::io::Stdout::write_fmt, via writeln, to print one line.
#[verifier::external_body]
pub(crate) fn print_line(msg: &str) {
    let _ = writeln!(std::io::stdout(), "{}", msg);
}

/// Deliver one intake item: an admitted event goes to the handler — on the
/// calling thread when there is no pool, as a submitted task when there is
/// one — a rejected event is silently dropped, and a source error is printed
/// and recovered from. Returns the decision taken.
pub fn process_event<H: Handler + Send + Sync + 'static>(
    item: IntakeItem,
    events_filter: &CategoryFilter,
    handler: &Arc<H>,
    pool: &Option<threadpool::ThreadPool>,
) -> (r: DispatchOutcome)
    ensures
        r == process_event_spec(item, *events_filter, *pool is Some),
{
    match item {
        IntakeItem::Event(event) => {
            if events_filter.admits(&event) {
                match pool {
                    Some(p) => {
                        pool_execute(p, handler, event);
                        DispatchOutcome::Pooled
                    },
                    None => {
                        let h: &H = &**handler;
                        h.handle(event);
                        DispatchOutcome::Inline
                    },
                }
            } else {
                DispatchOutcome::Filtered
            }
        },
        IntakeItem::SourceError(msg) => {
            let line = String::from_str("Watch error: ").concat(msg.as_str());
            print_line(line.as_str());
            DispatchOutcome::ErrorReported
        },
    }
}

/// The admission predicate of a filter, on whole events.
pub open spec fn admitted_pred(events_filter: CategoryFilter) -> spec_fn(RawEvent) -> bool {
    |event: RawEvent| admits_spec(events_filter, event.kind)
}

/// The events that processing a stream of raw events hands to the handler,
/// in order.
pub open spec fn dispatched_events(
    events_filter: CategoryFilter,
    pooled: bool,
    events: Seq<RawEvent>,
) -> Seq<RawEvent>
    decreases events.len(),
{
    if events.len() == 0 {
        Seq::empty()
    } else {
        let rest = dispatched_events(events_filter, pooled, events.drop_last());
        if is_dispatch(
            process_event_spec(IntakeItem::Event(events.last()), events_filter, pooled),
        ) {
            rest.push(events.last())
        } else {
            rest
        }
    }
}

/// Law: processing a stream of events dispatches exactly the admitted ones —
/// each exactly once, in arrival order — whether delivery is inline or
/// pooled: the dispatched sequence is the admitted subsequence of the
/// arrival sequence.
pub proof fn lemma_dispatched_is_admitted_subsequence(
    events_filter: CategoryFilter,
    pooled: bool,
    events: Seq<RawEvent>,
)
    ensures
        dispatched_events(events_filter, pooled, events) == events.filter(
            admitted_pred(events_filter),
        ),
    decreases events.len(),
{
    reveal(Seq::filter);
    if events.len() > 0 {
        lemma_dispatched_is_admitted_subsequence(events_filter, pooled, events.drop_last());
    }
}

/// Law: an event the filter does not admit never reaches the handler.
pub proof fn lemma_unadmitted_never_dispatched(
    events_filter: CategoryFilter,
    pooled: bool,
    events: Seq<RawEvent>,
    event: RawEvent,
)
    requires
        !admits_spec(events_filter, event.kind),
    ensures
        !dispatched_events(events_filter, pooled, events).contains(event),
{
    lemma_dispatched_is_admitted_subsequence(events_filter, pooled, events);
    let filtered = events.filter(admitted_pred(events_filter));
    if filtered.contains(event) {
        let i = choose|i: int| 0 <= i < filtered.len() && filtered[i] == event;
        events.lemma_filter_pred(admitted_pred(events_filter), i);
    }
}

/// Law: each admitted arrival is dispatched exactly as often as it arrives —
/// an admitted event delivered once by the watch source reaches the handler
/// exactly once, never zero times and never twice.
pub proof fn lemma_admitted_dispatched_exactly_once(
    events_filter: CategoryFilter,
    pooled: bool,
    events: Seq<RawEvent>,
    event: RawEvent,
)
    requires
        admits_spec(events_filter, event.kind),
    ensures
        dispatched_events(events_filter, pooled, events).to_multiset().count(event)
            == events.to_multiset().count(event),
    decreases events.len(),
{
    broadcast use vstd::multiset::group_multiset_axioms;
    broadcast use vstd::multiset::group_multiset_properties;

    if events.len() == 0 {
        assert(events =~= Seq::<RawEvent>::empty());
        assert(dispatched_events(events_filter, pooled, events) =~= Seq::<RawEvent>::empty());
        events.to_multiset_ensures();
        assert(events.to_multiset().len() == 0);
        assert(events.to_multiset().count(event) == 0);
    } else {
        let front = events.drop_last();
        let last = events.last();
        lemma_admitted_dispatched_exactly_once(events_filter, pooled, front, event);
        front.to_multiset_ensures();
        assert(events =~= front.push(last));
        assert(events.to_multiset() == front.to_multiset().insert(last));
        let dispatched_front = dispatched_events(events_filter, pooled, front);
        dispatched_front.to_multiset_ensures();
        if admits_spec(events_filter, last.kind) {
            assert(dispatched_events(events_filter, pooled, events) == dispatched_front.push(
                last,
            ));
            assert(dispatched_front.push(last).to_multiset() =~= dispatched_front.to_multiset()
                .insert(last));
            if event == last {
                assert(dispatched_front.to_multiset().insert(last).count(event)
                    == dispatched_front.to_multiset().count(event) + 1);
                assert(front.to_multiset().insert(last).count(event) == front.to_multiset().count(
                    event,
                ) + 1);
            } else {
                assert(dispatched_front.to_multiset().insert(last).count(event)
                    == dispatched_front.to_multiset().count(event));
                assert(front.to_multiset().insert(last).count(event) == front.to_multiset().count(
                    event,
                ));
            }
        } else {
            assert(last != event);
            assert(dispatched_events(events_filter, pooled, events) == dispatched_front);
            assert(front.to_multiset().insert(last).count(event) == front.to_multiset().count(
                event,
            ));
        }
    }
}

/// Compute the dispatch plan for a stream of events: the subsequence that
/// will be handed to the handler, in arrival order. This is the submission
/// order that pooled delivery preserves and the execution order that inline
/// delivery guarantees.
pub fn plan_dispatches(events_filter: &CategoryFilter, events: Vec<RawEvent>) -> (r: Vec<
    RawEvent,
>)
    ensures
        r@ == events@.filter(admitted_pred(*events_filter)),
{
    let ghost all = events@;
    let mut rest = events;
    let mut admitted: Vec<RawEvent> = Vec::new();
    let ghost mut done: int = 0;
    proof {
        reveal(Seq::filter);
        assert(all.subrange(0, 0) =~= Seq::<RawEvent>::empty());
        assert(all.skip(0) =~= all);
    }
    while rest.len() > 0
        invariant
            0 <= done <= all.len(),
            rest@ == all.skip(done),
            admitted@ == all.subrange(0, done).filter(admitted_pred(*events_filter)),
        decreases rest@.len(),
    {
        let event = rest.remove(0);
        if events_filter.admits(&event) {
            admitted.push(event);
        }
        proof {
            reveal(Seq::filter);
            assert(event == all[done]);
            assert(all.subrange(0, done + 1).drop_last() =~= all.subrange(0, done));
            assert(all.subrange(0, done + 1).last() == all[done]);
            assert(rest@ =~= all.skip(done + 1));
            done = done + 1;
        }
    }
    proof {
        assert(all.skip(done).len() == 0);
        assert(all.subrange(0, done) =~= all);
    }
    admitted
}

} // verus!
