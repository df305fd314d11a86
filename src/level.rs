use vstd::prelude::*;

verus! {

/// Fastest speed a vehicle may have, in millimetres per second.
pub const MAX_SPEED: u64 = 1_000_000_000;

/// The text of each string of a list.
pub open spec fn texts(v: Seq<String>) -> Seq<Seq<char>> {
    v.map_values(|s: String| s@)
}

/// One playable level. Durations are in microseconds.
pub struct Level {
    pub title: String,
    pub map_name: String,
    /// OpenStreetMap node where the player starts.
    pub start: i64,
    pub minimap_zoom: usize,
    pub time_limit: u64,
    /// Score needed to unlock the next level.
    pub goal: usize,
    pub unlock_upzones: usize,
    pub unlock_vehicles: Vec<String>,
}

pub struct LevelView {
    pub title: Seq<char>,
    pub map_name: Seq<char>,
    pub start: i64,
    pub minimap_zoom: usize,
    pub time_limit: u64,
    pub goal: usize,
    pub unlock_upzones: usize,
    pub unlock_vehicles: Seq<Seq<char>>,
}

impl View for Level {
    type V = LevelView;

    open spec fn view(&self) -> LevelView {
        LevelView {
            title: self.title@,
            map_name: self.map_name@,
            start: self.start,
            minimap_zoom: self.minimap_zoom,
            time_limit: self.time_limit,
            goal: self.goal,
            unlock_upzones: self.unlock_upzones,
            unlock_vehicles: texts(self.unlock_vehicles@),
        }
    }
}

/// The views of each level of a list.
pub open spec fn level_views(v: Seq<Level>) -> Seq<LevelView> {
    v.map_values(|l: Level| l@)
}

/// Whether two lists of strings hold the same texts in the same order.
pub fn same_strings(a: &Vec<String>, b: &Vec<String>) -> (r: bool)
    ensures
        r == (texts(a@) == texts(b@)),
{
    if a.len() != b.len() {
        assert(texts(a@).len() != texts(b@).len());
        return false;
    }
    let mut i: usize = 0;
    while i < a.len()
        invariant
            a.len() == b.len(),
            0 <= i <= a.len(),
            forall|j: int| 0 <= j < i ==> a@[j]@ == b@[j]@,
        decreases a.len() - i,
    {
        if a[i] != b[i] {
            assert(texts(a@)[i as int] != texts(b@)[i as int]);
            return false;
        }
        i = i + 1;
    }
    assert(texts(a@) =~= texts(b@));
    true
}

impl Level {
    pub fn same_as(&self, other: &Level) -> (r: bool)
        ensures
            r == (self@ == other@),
    {
        self.title == other.title && self.map_name == other.map_name && self.start == other.start
            && self.minimap_zoom == other.minimap_zoom && self.time_limit == other.time_limit
            && self.goal == other.goal && self.unlock_upzones == other.unlock_upzones
            && same_strings(&self.unlock_vehicles, &other.unlock_vehicles)
    }
}

/// Whether two lists of levels are the same levels in the same order.
pub fn same_levels(a: &Vec<Level>, b: &Vec<Level>) -> (r: bool)
    ensures
        r == (level_views(a@) == level_views(b@)),
{
    if a.len() != b.len() {
        assert(level_views(a@).len() != level_views(b@).len());
        return false;
    }
    let mut i: usize = 0;
    while i < a.len()
        invariant
            a.len() == b.len(),
            0 <= i <= a.len(),
            forall|j: int| 0 <= j < i ==> a@[j]@ == b@[j]@,
        decreases a.len() - i,
    {
        if !a[i].same_as(&b[i]) {
            assert(level_views(a@)[i as int] != level_views(b@)[i as int]);
            return false;
        }
        i = i + 1;
    }
    assert(level_views(a@) =~= level_views(b@));
    true
}

/// A vehicle's fixed characteristics. Speeds are in millimetres per second,
/// the boost capacity in microseconds.
pub struct Vehicle {
    pub name: String,
    pub normal_speed: u64,
    pub tired_speed: u64,
    pub max_energy: usize,
    pub max_boost: u64,
}

impl Vehicle {
    pub open spec fn wf(&self) -> bool {
        self.normal_speed <= MAX_SPEED && self.tired_speed <= MAX_SPEED
    }
}

} // verus!
