//! The session's two inbound endpoints — the event intake and the one-shot
//! cancellation notice — held behind trusted wrappers around the
//! `crossbeam_channel` crate.

use vstd::prelude::*;

use crate::event::IntakeItem;
use crate::lifecycle::SessionEvent;

verus! {

/// Declares crossbeam_channel's `Receiver` so the session can hold its
/// intake and cancellation endpoints; what reads return enters only through
/// the wrappers below.
#[verifier::external_type_specification]
#[verifier::external_body]
#[verifier::reject_recursive_types(T)]
pub struct ExReceiver<T>(crossbeam_channel::Receiver<T>);

/// Relies on crossbeam_channel::Select — both endpoints registered for
/// receiving, then `select` — which blocks until one endpoint is ready and
/// receives from it. A ready intake yields its next item in arrival order,
/// or `IntakeClosed` once the intake is disconnected and empty. A ready
/// cancellation endpoint — a delivered notice, or a notifier that went away —
/// yields `Cancel`. A blocking read never reports an empty intake.
#[verifier::external_body]
pub(crate) fn select_next(
    intake: &crossbeam_channel::Receiver<IntakeItem>,
    cancel: &crossbeam_channel::Receiver<()>,
) -> (r: SessionEvent)
    ensures
        !(r is IntakeEmpty),
{
    let mut sel = crossbeam_channel::Select::new();
    let idx_intake = sel.recv(intake);
    let _idx_cancel = sel.recv(cancel);
    let op = sel.select();
    if op.index() == idx_intake {
        match op.recv(intake) {
            Ok(item) => SessionEvent::Intake(item),
            Err(_) => SessionEvent::IntakeClosed,
        }
    } else {
        let _ = op.recv(cancel);
        SessionEvent::Cancel
    }
}

/// Relies on crossbeam_channel::Receiver::try_recv: a non-blocking read of
/// the intake — its next buffered item in arrival order, `IntakeEmpty` when
/// nothing is buffered right now, `IntakeClosed` when the intake is
/// disconnected and empty. It never reports a cancellation.
#[verifier::external_body]
pub(crate) fn try_next(intake: &crossbeam_channel::Receiver<IntakeItem>) -> (r: SessionEvent)
    ensures
        !(r is Cancel),
{
    match intake.try_recv() {
        Ok(item) => SessionEvent::Intake(item),
        Err(crossbeam_channel::TryRecvError::Empty) => SessionEvent::IntakeEmpty,
        Err(crossbeam_channel::TryRecvError::Disconnected) => SessionEvent::IntakeClosed,
    }
}

} // verus!
