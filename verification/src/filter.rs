//! The admission policy: which event categories reach the handler.

use vstd::prelude::*;

use crate::event::classify;
use crate::event::classify_spec;
use crate::event::EventCategory;
use crate::event::EventKind;
use crate::event::RawEvent;
use crate::util::str_eq;

verus! {

/// Why a category filter could not be built from the requested names.
#[derive(Clone, Copy, Debug, PartialEq, Eq, Structural)]
pub enum FilterError {
    /// The request was not the `all` sentinel and named no known category.
    EmptySelection,
}

/// The user-requested admission policy: either the `All` sentinel, which
/// admits every event without classifying it, or an explicit set of
/// categories. A `Selected` filter is only well formed when the set is
/// non-empty.
#[derive(Clone, Copy, Debug, PartialEq, Eq, Structural)]
pub enum CategoryFilter {
    All,
    Selected { access: bool, create: bool, modify: bool, remove: bool },
}

/// Whether the admission policy lets an event of the given kind through:
/// `All` admits everything; an explicit set admits exactly the events whose
/// classification lands in the set, and rejects unclassifiable ones.
pub open spec fn admits_spec(f: CategoryFilter, kind: EventKind) -> bool {
    match f {
        CategoryFilter::All => true,
        CategoryFilter::Selected { access, create, modify, remove } => match classify_spec(
            kind,
        ) {
            Some(EventCategory::Access) => access,
            Some(EventCategory::Create) => create,
            Some(EventCategory::Modify) => modify,
            Some(EventCategory::Remove) => remove,
            None => false,
        },
    }
}

/// Whether some name among the first `k` equals `what`.
pub open spec fn name_selects_prefix(names: Seq<String>, k: int, what: Seq<char>) -> bool {
    exists|i: int| 0 <= i < k && names[i]@ == what
}

/// Whether some name in the list equals `what`.
pub open spec fn name_selects(names: Seq<String>, what: Seq<char>) -> bool {
    name_selects_prefix(names, names.len() as int, what)
}

/// The filter a list of requested names denotes: exactly the name `all` alone
/// is the sentinel; otherwise each known category name turns its category on,
/// unknown names are inert, and a request that turns nothing on is a
/// configuration error.
pub open spec fn filter_of_names_spec(names: Seq<String>) -> Result<CategoryFilter, FilterError> {
    if names.len() == 1 && names[0]@ == "all"@ {
        Ok(CategoryFilter::All)
    } else {
        if name_selects(names, "access"@) || name_selects(names, "create"@) || name_selects(
            names,
            "modify"@,
        ) || name_selects(names, "remove"@) {
            Ok(
                (CategoryFilter::Selected {
                    access: name_selects(names, "access"@),
                    create: name_selects(names, "create"@),
                    modify: name_selects(names, "modify"@),
                    remove: name_selects(names, "remove"@),
                }),
            )
        } else {
            Err(FilterError::EmptySelection)
        }
    }
}

proof fn lemma_selects_extend(names: Seq<String>, k: int, what: Seq<char>)
    requires
        0 <= k < names.len(),
    ensures
        name_selects_prefix(names, k + 1, what) == (name_selects_prefix(names, k, what)
            || names[k]@ == what),
{
    if name_selects_prefix(names, k + 1, what) {
        let i = choose|i: int| 0 <= i < k + 1 && names[i]@ == what;
        if i < k {
            assert(name_selects_prefix(names, k, what));
        }
    }
    if name_selects_prefix(names, k, what) {
        let i = choose|i: int| 0 <= i < k && names[i]@ == what;
        assert(0 <= i < k + 1 && names[i]@ == what);
    }
}

impl CategoryFilter {
    /// A well-formed explicit filter selects at least one category.
    pub open spec fn wf(&self) -> bool {
        *self matches CategoryFilter::Selected { access, create, modify, remove } ==> (access
            || create || modify || remove)
    }

    /// Build the admission policy from the requested category names,
    /// rejecting a request that selects nothing.
    pub fn from_names(names: &Vec<String>) -> (r: Result<CategoryFilter, FilterError>)
        ensures
            r == filter_of_names_spec(names@),
            r matches Ok(f) ==> f.wf(),
    {
        if names.len() == 1 && str_eq(names[0].as_str(), "all") {
            return Ok(CategoryFilter::All);
        }
        let mut access = false;
        let mut create = false;
        let mut modify = false;
        let mut remove = false;
        let mut idx: usize = 0;
        while idx < names.len()
            invariant
                idx <= names@.len(),
                access == name_selects_prefix(names@, idx as int, "access"@),
                create == name_selects_prefix(names@, idx as int, "create"@),
                modify == name_selects_prefix(names@, idx as int, "modify"@),
                remove == name_selects_prefix(names@, idx as int, "remove"@),
            decreases names@.len() - idx,
        {
            let name = names[idx].as_str();
            let hit_access = str_eq(name, "access");
            let hit_create = str_eq(name, "create");
            let hit_modify = str_eq(name, "modify");
            let hit_remove = str_eq(name, "remove");
            proof {
                lemma_selects_extend(names@, idx as int, "access"@);
                lemma_selects_extend(names@, idx as int, "create"@);
                lemma_selects_extend(names@, idx as int, "modify"@);
                lemma_selects_extend(names@, idx as int, "remove"@);
            }
            access = access || hit_access;
            create = create || hit_create;
            modify = modify || hit_modify;
            remove = remove || hit_remove;
            idx = idx + 1;
        }
        if access || create || modify || remove {
            Ok(CategoryFilter::Selected { access, create, modify, remove })
        } else {
            Err(FilterError::EmptySelection)
        }
    }

    /// CategoryFilter admission: `All` admits without consulting the
    /// classifier; an explicit set classifies the event and admits exactly
    /// when the category is selected.
    pub fn admits(&self, event: &RawEvent) -> (r: bool)
        ensures
            r == admits_spec(*self, event.kind),
    {
        match self {
            CategoryFilter::All => true,
            CategoryFilter::Selected { access, create, modify, remove } => match classify(
                event.kind,
            ) {
                Some(EventCategory::Access) => *access,
                Some(EventCategory::Create) => *create,
                Some(EventCategory::Modify) => *modify,
                Some(EventCategory::Remove) => *remove,
                None => false,
            },
        }
    }
}

/// Law: the `All` sentinel admits every event, in particular events whose
/// kind the classifier maps to no category.
pub proof fn lemma_all_admits(kind: EventKind)
    ensures
        admits_spec(CategoryFilter::All, kind),
{
}

/// Law: an explicit category set never admits an event the classifier cannot
/// classify; a classification miss is a silent drop, not an error.
pub proof fn lemma_selected_rejects_unclassifiable(f: CategoryFilter, kind: EventKind)
    requires
        f !is All,
        classify_spec(kind) is None,
    ensures
        !admits_spec(f, kind),
{
}

} // verus!
