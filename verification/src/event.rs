//! The event model: what a change record from the watch source looks like to
//! the engine, and how a record is classified into a semantic category.

use vstd::prelude::*;

verus! {

/// The kind of change a raw event reports, as the watch source labels it.
/// `Any` and `Other` are kinds the classifier does not recognize.
#[derive(Clone, Copy, Debug, PartialEq, Eq, Structural)]
pub enum EventKind {
    Any,
    Access,
    Create,
    Modify,
    Remove,
    Other,
}

/// The semantic category of a classifiable event.
#[derive(Clone, Copy, Debug, PartialEq, Eq, Structural)]
pub enum EventCategory {
    Access,
    Create,
    Modify,
    Remove,
}

/// One filesystem-change record delivered by the watch source: a kind and the
/// non-empty ordered list of affected paths.
#[derive(Debug, PartialEq)]
pub struct RawEvent {
    pub kind: EventKind,
    pub paths: Vec<String>,
}

/// An element-wise copy of a list of strings.
fn clone_string_vec(v: &Vec<String>) -> (r: Vec<String>)
    ensures
        r@ == v@,
{
    let mut out: Vec<String> = Vec::new();
    let mut i: usize = 0;
    while i < v.len()
        invariant
            i <= v@.len(),
            out@ == v@.subrange(0, i as int),
        decreases v@.len() - i,
    {
        out.push(v[i].clone());
        i = i + 1;
        assert(out@ =~= v@.subrange(0, i as int));
    }
    assert(out@ =~= v@);
    out
}

impl Clone for RawEvent {
    /// A clone carries the same kind and the same paths.
    fn clone(&self) -> (r: Self)
        ensures
            r.kind == self.kind,
            r.paths@ == self.paths@,
    {
        RawEvent { kind: self.kind, paths: clone_string_vec(&self.paths) }
    }
}

impl RawEvent {
    /// A raw event carries at least one affected path.
    pub open spec fn wf(&self) -> bool {
        self.paths@.len() > 0
    }

    pub fn new(kind: EventKind, paths: Vec<String>) -> (r: RawEvent)
        requires
            paths@.len() > 0,
        ensures
            r.kind == kind,
            r.paths == paths,
            r.wf(),
    {
        RawEvent { kind, paths }
    }
}

/// One item of the intake channel: either a change record or an error the
/// watch source reported in its place.
#[derive(Debug, PartialEq)]
pub enum IntakeItem {
    Event(RawEvent),
    SourceError(String),
}

/// The classifier's mapping: each kind belongs to exactly one category or to
/// none; unrecognized kinds classify to none, which is not an error.
pub open spec fn classify_spec(kind: EventKind) -> Option<EventCategory> {
    match kind {
        EventKind::Access => Some(EventCategory::Access),
        EventKind::Create => Some(EventCategory::Create),
        EventKind::Modify => Some(EventCategory::Modify),
        EventKind::Remove => Some(EventCategory::Remove),
        EventKind::Any => None,
        EventKind::Other => None,
    }
}

/// EventClassifier: a total, side-effect-free map from a raw event's kind to
/// its single semantic category, or to none for unrecognized kinds.
pub fn classify(kind: EventKind) -> (r: Option<EventCategory>)
    ensures
        r == classify_spec(kind),
{
    match kind {
        EventKind::Access => Some(EventCategory::Access),
        EventKind::Create => Some(EventCategory::Create),
        EventKind::Modify => Some(EventCategory::Modify),
        EventKind::Remove => Some(EventCategory::Remove),
        EventKind::Any => None,
        EventKind::Other => None,
    }
}

} // verus!
