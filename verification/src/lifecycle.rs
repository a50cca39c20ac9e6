//! The shutdown-coordination state machine of a watch session.
//!
//! The session is `Running` until either the intake channel disconnects or a
//! cancellation notice arrives. A cancellation first releases the
//! subscription, then the buffered intake is drained (`Draining`) with the
//! same per-item processing as in `Running`; once the intake yields nothing
//! further the session is `Stopped`. The state never regresses.

use vstd::prelude::*;

use crate::event::IntakeItem;

verus! {

/// The lifecycle phase of a watch session. Monotonic:
/// `Running` -> `Draining` -> `Stopped`.
#[derive(Clone, Copy, Debug, PartialEq, Eq, Structural)]
pub enum ShutdownState {
    Running,
    Draining,
    Stopped,
}

/// What the session loop observed while waiting: an intake item, an empty
/// intake, a disconnected intake, or the one-shot cancellation notice.
///
/// `IntakeEmpty` is seen while draining, where reads do not block, and on
/// platforms whose cancellation flag must be polled, where the running wait
/// uses a short timeout instead of blocking indefinitely; while running it
/// leaves the state unchanged, so a timed-out wait simply polls again.
#[derive(Debug, PartialEq)]
pub enum SessionEvent {
    Intake(IntakeItem),
    IntakeEmpty,
    IntakeClosed,
    Cancel,
}

/// What the session must do in response: process one intake item exactly as
/// arrival order dictates, or release the watch-source subscription so that
/// no new events arrive while draining.
#[derive(Debug, PartialEq)]
pub enum SessionCommand {
    Process(IntakeItem),
    Unsubscribe,
}

/// Numeric rank of a phase, for stating monotonicity.
pub open spec fn state_rank(s: ShutdownState) -> int {
    match s {
        ShutdownState::Running => 0,
        ShutdownState::Draining => 1,
        ShutdownState::Stopped => 2,
    }
}

/// Phase order: a session may only move forward along
/// `Running` -> `Draining` -> `Stopped`.
pub open spec fn state_le(a: ShutdownState, b: ShutdownState) -> bool {
    state_rank(a) <= state_rank(b)
}

/// The transition relation of the session lifecycle.
///
/// - While `Running`, every intake item is processed; a disconnected intake
///   stops the session at once (nothing further can ever arrive); the
///   cancellation notice moves to `Draining` and releases the subscription
///   first.
/// - While `Draining`, buffered intake items are still processed one by one;
///   an empty or disconnected intake ends the drain. A repeated cancellation
///   notice has no effect: cancellation is one-shot.
/// - `Stopped` is terminal: no input is processed any more.
pub open spec fn step_spec(state: ShutdownState, event: SessionEvent) -> (
    ShutdownState,
    Option<SessionCommand>,
) {
    match state {
        ShutdownState::Running => match event {
            SessionEvent::Intake(item) => (
                ShutdownState::Running,
                Some(SessionCommand::Process(item)),
            ),
            SessionEvent::IntakeEmpty => (ShutdownState::Running, None),
            SessionEvent::IntakeClosed => (ShutdownState::Stopped, None),
            SessionEvent::Cancel => (ShutdownState::Draining, Some(SessionCommand::Unsubscribe)),
        },
        ShutdownState::Draining => match event {
            SessionEvent::Intake(item) => (
                ShutdownState::Draining,
                Some(SessionCommand::Process(item)),
            ),
            SessionEvent::IntakeEmpty => (ShutdownState::Stopped, None),
            SessionEvent::IntakeClosed => (ShutdownState::Stopped, None),
            SessionEvent::Cancel => (ShutdownState::Draining, None),
        },
        ShutdownState::Stopped => (ShutdownState::Stopped, None),
    }
}

/// One step of the session lifecycle.
pub fn step(state: ShutdownState, event: SessionEvent) -> (r: (
    ShutdownState,
    Option<SessionCommand>,
))
    ensures
        r == step_spec(state, event),
        state_le(state, r.0),
{
    match state {
        ShutdownState::Running => match event {
            SessionEvent::Intake(item) => (
                ShutdownState::Running,
                Some(SessionCommand::Process(item)),
            ),
            SessionEvent::IntakeEmpty => (ShutdownState::Running, None),
            SessionEvent::IntakeClosed => (ShutdownState::Stopped, None),
            SessionEvent::Cancel => (ShutdownState::Draining, Some(SessionCommand::Unsubscribe)),
        },
        ShutdownState::Draining => match event {
            SessionEvent::Intake(item) => (
                ShutdownState::Draining,
                Some(SessionCommand::Process(item)),
            ),
            SessionEvent::IntakeEmpty => (ShutdownState::Stopped, None),
            SessionEvent::IntakeClosed => (ShutdownState::Stopped, None),
            SessionEvent::Cancel => (ShutdownState::Draining, None),
        },
        ShutdownState::Stopped => (ShutdownState::Stopped, None),
    }
}

/// The state after a whole sequence of observations, first one first.
pub open spec fn run_state(state: ShutdownState, events: Seq<SessionEvent>) -> ShutdownState
    decreases events.len(),
{
    if events.len() == 0 {
        state
    } else {
        run_state(step_spec(state, events[0]).0, events.skip(1))
    }
}

/// Law: the lifecycle never regresses, over any sequence of observations.
pub proof fn lemma_shutdown_monotonic(state: ShutdownState, events: Seq<SessionEvent>)
    ensures
        state_le(state, run_state(state, events)),
    decreases events.len(),
{
    if events.len() > 0 {
        lemma_shutdown_monotonic(step_spec(state, events[0]).0, events.skip(1));
    }
}

/// Law: `Stopped` is terminal. Once the session has stopped, no observation
/// changes the state and no intake item is processed any more.
pub proof fn lemma_stopped_is_terminal(events: Seq<SessionEvent>)
    ensures
        run_state(ShutdownState::Stopped, events) == ShutdownState::Stopped,
        forall|e: SessionEvent| (#[trigger] step_spec(ShutdownState::Stopped, e)).1 is None,
    decreases events.len(),
{
    if events.len() > 0 {
        lemma_stopped_is_terminal(events.skip(1));
    }
}

/// The intake items a sequence of observations processes, in order: the
/// items of the `Process` commands the state machine issues along the run.
pub open spec fn processed_items(state: ShutdownState, events: Seq<SessionEvent>) -> Seq<
    IntakeItem,
>
    decreases events.len(),
{
    if events.len() == 0 {
        Seq::empty()
    } else {
        let next = step_spec(state, events[0]);
        let rest = processed_items(next.0, events.skip(1));
        match next.1 {
            Some(SessionCommand::Process(item)) => seq![item] + rest,
            _ => rest,
        }
    }
}

/// Each intake item seen as an observation of the session loop.
pub open spec fn intake_observations(items: Seq<IntakeItem>) -> Seq<SessionEvent> {
    items.map_values(|item: IntakeItem| SessionEvent::Intake(item))
}

/// What a drain observes: every buffered item, then the empty intake.
pub open spec fn drain_observations(buffered: Seq<IntakeItem>) -> Seq<SessionEvent> {
    intake_observations(buffered).push(SessionEvent::IntakeEmpty)
}

/// What a cancelled session observes: some items while running, then the
/// cancellation notice, then the items that were already buffered, then the
/// empty intake.
pub open spec fn cancelled_session_observations(
    before: Seq<IntakeItem>,
    buffered: Seq<IntakeItem>,
) -> Seq<SessionEvent> {
    intake_observations(before) + seq![SessionEvent::Cancel] + drain_observations(buffered)
}

/// Law: a drain loses nothing. From `Draining`, observing every buffered
/// item and then the empty intake processes exactly the buffered items, in
/// order, and stops the session.
pub proof fn lemma_drain_processes_all_buffered(buffered: Seq<IntakeItem>)
    ensures
        run_state(ShutdownState::Draining, drain_observations(buffered))
            == ShutdownState::Stopped,
        processed_items(ShutdownState::Draining, drain_observations(buffered)) == buffered,
    decreases buffered.len(),
{
    let observations = drain_observations(buffered);
    if buffered.len() == 0 {
        assert(observations =~= seq![SessionEvent::IntakeEmpty]);
        assert(observations.skip(1) =~= Seq::<SessionEvent>::empty());
        assert(buffered =~= Seq::<IntakeItem>::empty());
        assert(step_spec(ShutdownState::Draining, observations[0]) == (
            ShutdownState::Stopped,
            None::<SessionCommand>,
        ));
        assert(processed_items(ShutdownState::Draining, observations) == processed_items(
            ShutdownState::Stopped,
            observations.skip(1),
        ));
        assert(run_state(ShutdownState::Draining, observations) == run_state(
            ShutdownState::Stopped,
            observations.skip(1),
        ));
    } else {
        lemma_drain_processes_all_buffered(buffered.skip(1));
        assert(observations[0] == SessionEvent::Intake(buffered[0]));
        assert(observations.skip(1) =~= drain_observations(buffered.skip(1)));
        assert(step_spec(ShutdownState::Draining, observations[0]) == (
            ShutdownState::Draining,
            Some(SessionCommand::Process(buffered[0])),
        ));
        assert(processed_items(ShutdownState::Draining, observations) == seq![buffered[0]]
            + processed_items(ShutdownState::Draining, observations.skip(1)));
        assert(run_state(ShutdownState::Draining, observations) == run_state(
            ShutdownState::Draining,
            observations.skip(1),
        ));
        assert(seq![buffered[0]] + buffered.skip(1) =~= buffered);
    }
}

/// Law (the shutdown protocol, end to end): a session that observes some
/// intake items while running, then the cancellation notice, then every item
/// that was already buffered, then the empty intake, processes exactly those
/// items — the ones from before the cancellation and the buffered ones, in
/// order, none lost and none duplicated — and stops.
pub proof fn lemma_cancelled_session_processes_everything(
    before: Seq<IntakeItem>,
    buffered: Seq<IntakeItem>,
)
    ensures
        run_state(ShutdownState::Running, cancelled_session_observations(before, buffered))
            == ShutdownState::Stopped,
        processed_items(ShutdownState::Running, cancelled_session_observations(before, buffered))
            == before + buffered,
    decreases before.len(),
{
    let observations = cancelled_session_observations(before, buffered);
    if before.len() == 0 {
        assert(observations[0] == SessionEvent::Cancel);
        assert(observations.skip(1) =~= drain_observations(buffered));
        lemma_drain_processes_all_buffered(buffered);
        assert(before + buffered =~= buffered);
    } else {
        lemma_cancelled_session_processes_everything(before.skip(1), buffered);
        assert(observations[0] == SessionEvent::Intake(before[0]));
        assert(observations.skip(1) =~= cancelled_session_observations(before.skip(1), buffered));
        assert(seq![before[0]] + (before.skip(1) + buffered) =~= before + buffered);
    }
}

/// Law: once the session has stopped, no observation is processed any more;
/// in particular an event that only arrives after the drain found the intake
/// empty is never dispatched.
pub proof fn lemma_nothing_processed_after_stop(events: Seq<SessionEvent>)
    ensures
        processed_items(ShutdownState::Stopped, events) == Seq::<IntakeItem>::empty(),
    decreases events.len(),
{
    if events.len() > 0 {
        lemma_nothing_processed_after_stop(events.skip(1));
    }
}

/// Law: cancellation releases the subscription before any draining, and while
/// draining every buffered item is still processed, in order, exactly as it
/// would have been while running.
pub proof fn lemma_cancellation_drains(item: IntakeItem)
    ensures
        step_spec(ShutdownState::Running, SessionEvent::Cancel) == (
            ShutdownState::Draining,
            Some(SessionCommand::Unsubscribe),
        ),
        step_spec(ShutdownState::Draining, SessionEvent::Intake(item)) == (
            ShutdownState::Draining,
            Some(SessionCommand::Process(item)),
        ),
        step_spec(ShutdownState::Draining, SessionEvent::Intake(item)).1 == step_spec(
            ShutdownState::Running,
            SessionEvent::Intake(item),
        ).1,
{
}

/// Law: cancellation is one-shot. A second notice while draining neither
/// processes anything nor changes the phase.
pub proof fn lemma_cancel_one_shot()
    ensures
        step_spec(ShutdownState::Draining, SessionEvent::Cancel) == (
            ShutdownState::Draining,
            None::<SessionCommand>,
        ),
{
}

} // verus!
