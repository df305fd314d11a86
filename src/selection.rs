use vstd::prelude::*;

verus! {

/// The kind of a map object under the cursor.
#[derive(Clone, Copy, Debug, PartialEq, Eq, Structural)]
pub enum ObjectKind {
    Road,
    Intersection,
    Building,
    Area,
    Other,
}

/// A map object near the cursor: its kind, and whether its shape holds the
/// cursor.
#[derive(Clone, Copy, Debug, PartialEq, Eq, Structural)]
pub struct Candidate {
    pub kind: ObjectKind,
    pub contains_cursor: bool,
}

/// Whether an object of this kind can be selected. `zoomed_in` says the
/// camera shows map detail; the two flags ask for roads and intersections, or
/// buildings, while zoomed out.
pub open spec fn selectable(
    kind: ObjectKind,
    zoomed_in: bool,
    unzoomed_roads_and_intersections: bool,
    unzoomed_buildings: bool,
) -> bool {
    match kind {
        ObjectKind::Road => unzoomed_roads_and_intersections && !zoomed_in,
        ObjectKind::Intersection => zoomed_in || unzoomed_roads_and_intersections,
        ObjectKind::Building => zoomed_in || unzoomed_buildings,
        _ => zoomed_in,
    }
}

pub open spec fn picks(c: Candidate, zoomed_in: bool, ri: bool, b: bool) -> bool {
    c.contains_cursor && selectable(c.kind, zoomed_in, ri, b)
}

/// Picks the object to select among `candidates`, given front to back: the
/// first one that may be selected and holds the cursor. Zoomed out, nothing is
/// selected unless one of the flags asks for it.
pub fn calculate_current_selection(
    candidates: &Vec<Candidate>,
    zoomed_in: bool,
    unzoomed_roads_and_intersections: bool,
    unzoomed_buildings: bool,
) -> (r: Option<usize>)
    ensures
        !zoomed_in && !(unzoomed_roads_and_intersections || unzoomed_buildings) ==> r is None,
        r is Some ==> ({
            let k = r.unwrap() as int;
            &&& 0 <= k < candidates.len()
            &&& picks(candidates@[k], zoomed_in, unzoomed_roads_and_intersections, unzoomed_buildings)
            &&& forall|j: int| 0 <= j < k ==> !picks(#[trigger] candidates@[j], zoomed_in, unzoomed_roads_and_intersections, unzoomed_buildings)
        }),
        r is None && (zoomed_in || unzoomed_roads_and_intersections || unzoomed_buildings) ==>
            forall|j: int| 0 <= j < candidates.len() ==> !picks(#[trigger] candidates@[j], zoomed_in, unzoomed_roads_and_intersections, unzoomed_buildings),
{
    if !zoomed_in && !(unzoomed_roads_and_intersections || unzoomed_buildings) {
        return None;
    }
    let mut i: usize = 0;
    while i < candidates.len()
        invariant
            0 <= i <= candidates.len(),
            forall|j: int| 0 <= j < i ==> !picks(#[trigger] candidates@[j], zoomed_in, unzoomed_roads_and_intersections, unzoomed_buildings),
        decreases candidates.len() - i,
    {
        let c = candidates[i];
        let allowed = match c.kind {
            ObjectKind::Road => unzoomed_roads_and_intersections && !zoomed_in,
            ObjectKind::Intersection => zoomed_in || unzoomed_roads_and_intersections,
            ObjectKind::Building => zoomed_in || unzoomed_buildings,
            _ => zoomed_in,
        };
        if allowed && c.contains_cursor {
            return Some(i);
        }
        i = i + 1;
    }
    None
}

/// Only select buildings, and work whether zoomed in or not: the selection
/// with buildings asked for, kept only where it is a building.
pub fn mouseover_unzoomed_buildings(candidates: &Vec<Candidate>, zoomed_in: bool) -> (r: Option<usize>)
    ensures
        r is Some ==> ({
            let k = r.unwrap() as int;
            &&& 0 <= k < candidates.len()
            &&& candidates@[k].kind is Building
            &&& candidates@[k].contains_cursor
            &&& forall|j: int| 0 <= j < k ==> !picks(#[trigger] candidates@[j], zoomed_in, false, true)
        }),
        r is None ==> forall|j: int|
            0 <= j < candidates.len() && picks(#[trigger] candidates@[j], zoomed_in, false, true)
                && (forall|m: int| 0 <= m < j ==> !picks(#[trigger] candidates@[m], zoomed_in, false, true))
            ==> !(candidates@[j].kind is Building),
{
    match calculate_current_selection(candidates, zoomed_in, false, true) {
        Some(k) => match candidates[k].kind {
            ObjectKind::Building => Some(k),
            _ => None,
        },
        None => None,
    }
}

} // verus!
