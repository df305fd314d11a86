use santa::selection::{calculate_current_selection, mouseover_unzoomed_buildings, Candidate, ObjectKind};

fn c(kind: ObjectKind, contains_cursor: bool) -> Candidate {
    Candidate { kind, contains_cursor }
}

#[test]
fn zoomed_out_without_flags_selects_nothing() {
    let v = vec![c(ObjectKind::Building, true)];
    assert_eq!(calculate_current_selection(&v, false, false, false), None);
}

#[test]
fn zoomed_in_picks_first_containing_object() {
    let v = vec![
        c(ObjectKind::Road, true),
        c(ObjectKind::Area, false),
        c(ObjectKind::Building, true),
        c(ObjectKind::Intersection, true),
    ];
    assert_eq!(calculate_current_selection(&v, true, false, false), Some(2));
    assert_eq!(calculate_current_selection(&v, false, true, false), Some(0));
    assert_eq!(calculate_current_selection(&v, false, false, true), Some(2));
}

#[test]
fn buildings_only_filter() {
    let v = vec![c(ObjectKind::Intersection, true), c(ObjectKind::Building, true)];
    assert_eq!(mouseover_unzoomed_buildings(&v, false), Some(1));
    assert_eq!(mouseover_unzoomed_buildings(&v, true), None);
    assert_eq!(mouseover_unzoomed_buildings(&vec![], true), None);
}
