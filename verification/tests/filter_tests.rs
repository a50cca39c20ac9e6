use watchcrab::event::classify;
use watchcrab::filter::CategoryFilter;
use watchcrab::filter::FilterError;
use watchcrab::EventCategory;
use watchcrab::EventKind;
use watchcrab::RawEvent;

fn event_of(kind: EventKind) -> RawEvent {
    RawEvent::new(kind, vec!["/tmp/file".to_string()])
}

#[test]
fn classify_maps_each_recognized_kind_to_its_category() {
    assert_eq!(classify(EventKind::Access), Some(EventCategory::Access));
    assert_eq!(classify(EventKind::Create), Some(EventCategory::Create));
    assert_eq!(classify(EventKind::Modify), Some(EventCategory::Modify));
    assert_eq!(classify(EventKind::Remove), Some(EventCategory::Remove));
}

#[test]
fn classify_maps_unrecognized_kinds_to_none() {
    assert_eq!(classify(EventKind::Any), None);
    assert_eq!(classify(EventKind::Other), None);
}

#[test]
fn from_names_all_alone_is_the_sentinel() {
    let names = vec!["all".to_string()];
    assert_eq!(CategoryFilter::from_names(&names), Ok(CategoryFilter::All));
}

#[test]
fn from_names_single_category() {
    let names = vec!["create".to_string()];
    assert_eq!(
        CategoryFilter::from_names(&names),
        Ok(CategoryFilter::Selected { access: false, create: true, modify: false, remove: false })
    );
}

#[test]
fn from_names_several_categories_with_unknown_names_inert() {
    let names = vec![
        "remove".to_string(),
        "rename".to_string(),
        "access".to_string(),
    ];
    assert_eq!(
        CategoryFilter::from_names(&names),
        Ok(CategoryFilter::Selected { access: true, create: false, modify: false, remove: true })
    );
}

#[test]
fn from_names_all_among_others_is_not_the_sentinel() {
    // Only the single name `all` is the sentinel; alongside other names it is
    // an unknown name like any other.
    let names = vec!["all".to_string(), "modify".to_string()];
    assert_eq!(
        CategoryFilter::from_names(&names),
        Ok(CategoryFilter::Selected { access: false, create: false, modify: true, remove: false })
    );
}

#[test]
fn from_names_empty_request_is_rejected() {
    let names: Vec<String> = vec![];
    assert_eq!(CategoryFilter::from_names(&names), Err(FilterError::EmptySelection));
}

#[test]
fn from_names_only_unknown_names_is_rejected() {
    let names = vec!["rename".to_string(), "chmod".to_string()];
    assert_eq!(CategoryFilter::from_names(&names), Err(FilterError::EmptySelection));
}

#[test]
fn all_admits_every_kind_even_unclassifiable_ones() {
    let all = CategoryFilter::All;
    for kind in [
        EventKind::Any,
        EventKind::Access,
        EventKind::Create,
        EventKind::Modify,
        EventKind::Remove,
        EventKind::Other,
    ] {
        assert!(all.admits(&event_of(kind)));
    }
}

#[test]
fn selected_admits_exactly_its_categories() {
    let only_create =
        CategoryFilter::Selected { access: false, create: true, modify: false, remove: false };
    assert!(only_create.admits(&event_of(EventKind::Create)));
    assert!(!only_create.admits(&event_of(EventKind::Modify)));
    assert!(!only_create.admits(&event_of(EventKind::Access)));
    assert!(!only_create.admits(&event_of(EventKind::Remove)));
}

#[test]
fn selected_rejects_unclassifiable_kinds() {
    let everything_explicit =
        CategoryFilter::Selected { access: true, create: true, modify: true, remove: true };
    assert!(!everything_explicit.admits(&event_of(EventKind::Any)));
    assert!(!everything_explicit.admits(&event_of(EventKind::Other)));
}
