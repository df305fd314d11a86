use vstd::prelude::*;

use crate::level::{level_views, same_levels, texts, Level, LevelView};

verus! {

/// How many top scores are kept per level.
pub const TOP_SCORES: usize = 3;

pub open spec fn digit_char(d: int) -> char {
    seq!['0', '1', '2', '3', '4', '5', '6', '7', '8', '9'][d]
}

/// Base-10 digits of `n`, without sign or padding.
pub open spec fn decimal(n: nat) -> Seq<char>
    decreases n,
{
    if n < 10 {
        seq![digit_char(n as int)]
    } else {
        decimal(n / 10).push(digit_char((n % 10) as int))
    }
}

/// Relies on `usize`'s `Display` through `ToString::to_string`: base-10 digits,
/// no sign, no padding.
#[verifier::external_body]
fn usize_text(n: usize) -> (r: String)
    ensures
        r@ == decimal(n as nat),
{
    n.to_string()
}

/// Highest first.
pub open spec fn sorted_desc(s: Seq<usize>) -> bool {
    forall|i: int, j: int| 0 <= i < j < s.len() ==> s[i] >= s[j]
}

/// A list of top scores: highest first, at most `TOP_SCORES` of them.
pub open spec fn top_list(s: Seq<usize>) -> bool {
    sorted_desc(s) && s.len() <= TOP_SCORES
}

/// `x` put into a list before its first element that is not larger.
pub open spec fn insert_desc(s: Seq<usize>, x: usize) -> Seq<usize>
    decreases s.len(),
{
    if s.len() == 0 {
        seq![x]
    } else if x >= s[0] {
        seq![x] + s
    } else {
        seq![s[0]] + insert_desc(s.drop_first(), x)
    }
}

/// The top scores after `x` is recorded: sorted in, then cut to the first
/// `TOP_SCORES`.
pub open spec fn with_score(s: Seq<usize>, x: usize) -> Seq<usize> {
    let t = insert_desc(s, x);
    if t.len() <= TOP_SCORES { t } else { t.take(TOP_SCORES as int) }
}

/// `a + b`, or the largest `usize` where that does not fit.
pub open spec fn sat_add(a: usize, b: usize) -> usize {
    if a + b > usize::MAX { usize::MAX } else { (a + b) as usize }
}

/// Whether `i` is the first level with title `t`.
pub open spec fn first_titled(levels: Seq<LevelView>, t: Seq<char>, i: int) -> bool {
    &&& 0 <= i < levels.len()
    &&& levels[i].title == t
    &&& forall|j: int| 0 <= j < i ==> #[trigger] levels[j].title != t
}

/// Messages for beating the goal of level `idx` while it is the last one
/// unlocked.
pub open spec fn unlock_messages(levels: Seq<LevelView>, idx: int) -> Seq<Seq<char>> {
    let level = levels[idx];
    if idx + 1 == levels.len() {
        seq!["All levels complete! Nice."@, "Can you improve your score on other levels?"@]
    } else {
        seq!["New level unlocked!"@] + (if level.unlock_upzones > 0 {
            seq!["Unlocked the ability to upzone "@ + decimal(level.unlock_upzones as nat) + " buildings"@]
        } else {
            Seq::empty()
        }) + level.unlock_vehicles.map_values(|v: Seq<char>| "Unlocked the "@ + v)
    }
}

/// Vehicles unlocked by every level, level by level.
pub open spec fn all_unlock_vehicles(levels: Seq<LevelView>) -> Seq<Seq<char>>
    decreases levels.len(),
{
    if levels.len() == 0 {
        Seq::empty()
    } else {
        all_unlock_vehicles(levels.drop_last()) + levels.last().unlock_vehicles
    }
}

/// `start` plus the upzones of every level, held at the largest `usize`.
pub open spec fn total_upzones(start: usize, levels: Seq<LevelView>) -> usize
    decreases levels.len(),
{
    if levels.len() == 0 {
        start
    } else {
        sat_add(total_upzones(start, levels.drop_last()), levels.last().unlock_upzones)
    }
}

/// `insert_desc` puts `x` at the first index whose element it is not below.
pub proof fn lemma_insert_at(s: Seq<usize>, x: usize, k: int)
    requires
        0 <= k <= s.len(),
        forall|j: int| 0 <= j < k ==> x < #[trigger] s[j],
        k == s.len() || x >= s[k],
    ensures
        insert_desc(s, x) == s.take(k).push(x) + s.skip(k),
    decreases s.len(),
{
    if k == 0 {
        assert(s.take(0).push(x) + s.skip(0) =~= seq![x] + s);
    } else {
        let t = s.drop_first();
        assert forall|j: int| 0 <= j < k - 1 implies x < #[trigger] t[j] by {
            assert(t[j] == s[j + 1]);
        }
        lemma_insert_at(t, x, k - 1);
        assert(seq![s[0]] + (t.take(k - 1).push(x) + t.skip(k - 1)) =~= s.take(k).push(x) + s.skip(k));
    }
}

/// Recording a score into a list of top scores gives a list of top scores,
/// which holds the new score exactly when it ranks among the top ones.
pub proof fn lemma_with_score_ranks(s: Seq<usize>, x: usize)
    requires
        top_list(s),
    ensures
        top_list(with_score(s, x)),
        with_score(s, x).contains(x) <==> (s.len() < TOP_SCORES || x >= s[TOP_SCORES - 1]),
{
    let k: int = if s.len() == 0 || x >= s[0] {
        0
    } else if s.len() == 1 || x >= s[1] {
        1
    } else if s.len() == 2 || x >= s[2] {
        2
    } else {
        3
    };
    lemma_insert_at(s, x, k);
    let t = s.take(k).push(x) + s.skip(k);
    assert(t[k] == x);
    assert forall|i: int, j: int| 0 <= i < j < t.len() implies t[i] >= t[j] by {
        if j < k {
        } else if j == k {
        } else if i < k {
            assert(t[j] == s[j - 1]);
        } else if i == k {
            assert(t[j] == s[j - 1]);
        } else {
            assert(t[j] == s[j - 1]);
            assert(t[i] == s[i - 1]);
        }
    }
    let w = with_score(s, x);
    if k < 3 {
        assert(w[k] == x);
    } else {
        assert(w =~= s.take(3));
        assert forall|i: int| 0 <= i < w.len() implies w[i] != x by {
            assert(w[i] == s[i]);
        }
    }
}

/// The top scores `s` with `x` recorded.
fn top_with(s: &Vec<usize>, x: usize) -> (r: Vec<usize>)
    requires
        top_list(s@),
    ensures
        r@ == with_score(s@, x),
{
    let mut k: usize = 0;
    while k < s.len() && x < s[k]
        invariant
            0 <= k <= s.len(),
            forall|j: int| 0 <= j < k ==> x < #[trigger] s@[j],
        decreases s.len() - k,
    {
        k = k + 1;
    }
    proof {
        lemma_insert_at(s@, x, k as int);
    }
    let ghost t = s@.take(k as int).push(x) + s@.skip(k as int);
    let mut r: Vec<usize> = Vec::new();
    let mut i: usize = 0;
    while i <= s.len() && i < TOP_SCORES
        invariant
            0 <= i <= s.len() + 1,
            k <= s.len(),
            t == s@.take(k as int).push(x) + s@.skip(k as int),
            i <= TOP_SCORES,
            t.len() == s.len() + 1,
            r@ == t.take(i as int),
        decreases TOP_SCORES - i,
    {
        let e = if i < k {
            s[i]
        } else if i == k {
            x
        } else {
            s[i - 1]
        };
        assert(t.take(i + 1) =~= t.take(i as int).push(e));
        r.push(e);
        i = i + 1;
    }
    assert(r@ =~= with_score(s@, x));
    r
}

/// Progress that lasts across runs.
pub struct Session {
    pub levels: Vec<Level>,
    /// The top scores of each level, highest first, in the order of `levels`.
    pub high_scores: Vec<Vec<usize>>,
    pub levels_unlocked: usize,
    pub current_vehicle: String,
    pub vehicles_unlocked: Vec<String>,
    pub upzones_unlocked: usize,
}

impl Session {
    pub open spec fn wf(&self) -> bool {
        &&& self.high_scores.len() == self.levels.len()
        &&& forall|i: int| 0 <= i < self.high_scores.len() ==> top_list(#[trigger] self.high_scores@[i]@)
    }

    /// The session every player starts with on these levels.
    pub open spec fn is_fresh(&self, levels: Seq<Level>) -> bool {
        &&& self.levels@ == levels
        &&& self.high_scores.len() == levels.len()
        &&& forall|i: int| 0 <= i < self.high_scores.len() ==> (#[trigger] self.high_scores@[i])@.len() == 0
        &&& self.levels_unlocked == 1
        &&& self.current_vehicle@ == "sleigh"@
        &&& texts(self.vehicles_unlocked@) == seq!["sleigh"@]
        &&& self.upzones_unlocked == 0
    }

    /// Whether the score lists fit the levels and each is a list of top scores.
    pub fn is_valid(&self) -> (r: bool)
        ensures
            r == self.wf(),
    {
        if self.high_scores.len() != self.levels.len() {
            return false;
        }
        let mut i: usize = 0;
        while i < self.high_scores.len()
            invariant
                0 <= i <= self.high_scores.len(),
                forall|k: int| 0 <= k < i ==> top_list(#[trigger] self.high_scores@[k]@),
            decreases self.high_scores.len() - i,
        {
            let s = &self.high_scores[i];
            if s.len() > TOP_SCORES {
                assert(!top_list(self.high_scores@[i as int]@));
                return false;
            }
            let mut j: usize = 1;
            while j < s.len()
                invariant
                    i < self.high_scores.len(),
                    s@ == self.high_scores@[i as int]@,
                    forall|k: int| 0 <= k < i ==> top_list(#[trigger] self.high_scores@[k]@),
                    1 <= j,
                    j <= s.len() || s.len() == 0,
                    s.len() <= TOP_SCORES,
                    forall|a: int, b: int| 0 <= a < b < j && b < s.len() ==> s@[a] >= s@[b],
                decreases s.len() - j,
            {
                if s[j - 1] < s[j] {
                    assert(!sorted_desc(self.high_scores@[i as int]@));
                    return false;
                }
                j = j + 1;
            }
            i = i + 1;
        }
        true
    }

    pub fn fresh(levels: Vec<Level>) -> (r: Session)
        ensures
            r.wf(),
            r.is_fresh(levels@),
    {
        let mut high_scores: Vec<Vec<usize>> = Vec::new();
        let mut i: usize = 0;
        while i < levels.len()
            invariant
                0 <= i <= levels.len(),
                high_scores.len() == i,
                forall|k: int| 0 <= k < i ==> (#[trigger] high_scores@[k])@.len() == 0,
            decreases levels.len() - i,
        {
            high_scores.push(Vec::new());
            i = i + 1;
        }
        let mut vehicles_unlocked: Vec<String> = Vec::new();
        vehicles_unlocked.push(String::from_str("sleigh"));
        assert(texts(vehicles_unlocked@) =~= seq!["sleigh"@]);
        Session {
            levels,
            high_scores,
            levels_unlocked: 1,
            current_vehicle: String::from_str("sleigh"),
            vehicles_unlocked,
            upzones_unlocked: 0,
        }
    }

    /// Records `score` for the level titled `level` and returns the messages
    /// of what it unlocked, if anything.
    ///
    /// The level's top scores get the new score sorted in. Beating the goal of
    /// the last level unlocked unlocks the next one, with its upzones and
    /// vehicles; on the very last level it only congratulates.
    pub fn record_score(&mut self, level: String, score: usize) -> (r: Option<Vec<String>>)
        requires
            old(self).wf(),
            exists|i: int| 0 <= i < old(self).levels.len() && (#[trigger] old(self).levels@[i]).title@ == level@,
        ensures
            final(self).wf(),
            final(self).levels == old(self).levels,
            final(self).current_vehicle == old(self).current_vehicle,
            final(self).high_scores.len() == old(self).high_scores.len(),
            forall|idx: int| #[trigger] first_titled(level_views(old(self).levels@), level@, idx) ==> {
                let old_top = old(self).high_scores@[idx]@;
                let views = level_views(old(self).levels@);
                let unlock = idx + 1 == old(self).levels_unlocked && score >= views[idx].goal;
                &&& final(self).high_scores@[idx]@ == with_score(old_top, score)
                &&& top_list(final(self).high_scores@[idx]@)
                &&& (final(self).high_scores@[idx]@.contains(score)
                    <==> (old_top.len() < TOP_SCORES || score >= old_top[TOP_SCORES - 1]))
                &&& forall|j: int| 0 <= j < old(self).high_scores.len() && j != idx
                    ==> #[trigger] final(self).high_scores@[j] == old(self).high_scores@[j]
                &&& (r is Some <==> unlock)
                &&& (unlock ==> texts(r.unwrap()@) == unlock_messages(views, idx))
                &&& if unlock && idx + 1 < views.len() {
                    &&& final(self).levels_unlocked == old(self).levels_unlocked + 1
                    &&& final(self).upzones_unlocked == sat_add(old(self).upzones_unlocked, views[idx].unlock_upzones)
                    &&& texts(final(self).vehicles_unlocked@) == texts(old(self).vehicles_unlocked@) + views[idx].unlock_vehicles
                } else {
                    &&& final(self).levels_unlocked == old(self).levels_unlocked
                    &&& final(self).upzones_unlocked == old(self).upzones_unlocked
                    &&& final(self).vehicles_unlocked == old(self).vehicles_unlocked
                }
            },
    {
        let ghost views = level_views(self.levels@);
        let mut idx: usize = 0;
        while !(self.levels[idx].title == level)
            invariant
                views == level_views(self.levels@),
                0 <= idx < self.levels.len(),
                forall|j: int| 0 <= j < idx ==> #[trigger] self.levels@[j].title@ != level@,
                exists|i: int| idx <= i < self.levels.len() && (#[trigger] self.levels@[i]).title@ == level@,
            decreases self.levels.len() - idx,
        {
            idx = idx + 1;
        }
        assert(first_titled(views, level@, idx as int));
        assert forall|i: int| #[trigger] first_titled(views, level@, i) implies i == idx by {
            if i < idx {
                assert(self.levels@[i].title@ != level@);
            }
            if i > idx {
                assert(views[idx as int].title == level@);
            }
        }
        proof {
            lemma_with_score_ranks(self.high_scores@[idx as int]@, score);
        }
        let new_top = top_with(&self.high_scores[idx], score);
        self.high_scores.set(idx, new_top);
        let unlock = idx + 1 == self.levels_unlocked && score >= self.levels[idx].goal;
        if !unlock {
            return None;
        }
        if idx + 1 == self.levels.len() {
            let messages = vec![
                String::from_str("All levels complete! Nice."),
                String::from_str("Can you improve your score on other levels?"),
            ];
            assert(texts(messages@) =~= unlock_messages(views, idx as int));
            return Some(messages);
        }
        self.levels_unlocked = self.levels_unlocked + 1;
        let mut messages: Vec<String> = Vec::new();
        messages.push(String::from_str("New level unlocked!"));
        let up = self.levels[idx].unlock_upzones;
        if up > 0 {
            self.upzones_unlocked = self.upzones_unlocked.saturating_add(up);
            let text = String::from_str("Unlocked the ability to upzone ").concat(usize_text(up).as_str()).concat(" buildings");
            messages.push(text);
        }
        let ghost head = texts(messages@);
        let ghost old_vehicles = texts(self.vehicles_unlocked@);
        let ghost unlocks = views[idx as int].unlock_vehicles;
        assert(head == seq!["New level unlocked!"@] + (if up > 0 {
            seq!["Unlocked the ability to upzone "@ + decimal(up as nat) + " buildings"@]
        } else {
            Seq::<Seq<char>>::empty()
        }));
        let ghost fixed = *self;
        let mut i: usize = 0;
        while i < self.levels[idx].unlock_vehicles.len()
            invariant
                self.levels == fixed.levels,
                self.high_scores == fixed.high_scores,
                self.current_vehicle == fixed.current_vehicle,
                self.levels_unlocked == fixed.levels_unlocked,
                self.upzones_unlocked == fixed.upzones_unlocked,
                views == level_views(self.levels@),
                idx < self.levels.len(),
                unlocks == views[idx as int].unlock_vehicles,
                0 <= i <= unlocks.len(),
                unlocks.len() == self.levels@[idx as int].unlock_vehicles.len(),
                texts(messages@) == head + unlocks.take(i as int).map_values(|v: Seq<char>| "Unlocked the "@ + v),
                texts(self.vehicles_unlocked@) == old_vehicles + unlocks.take(i as int),
            decreases unlocks.len() - i,
        {
            let x = &self.levels[idx].unlock_vehicles[i];
            assert(views[idx as int] == self.levels@[idx as int]@);
            assert(x@ == unlocks[i as int]);
            let ghost before_v = self.vehicles_unlocked@;
            let ghost before_m = messages@;
            self.vehicles_unlocked.push(x.clone());
            let line = String::from_str("Unlocked the ").concat(x.as_str());
            messages.push(line);
            assert(texts(self.vehicles_unlocked@) =~= texts(before_v).push(x@));
            assert(texts(messages@) =~= texts(before_m).push(line@));
            assert(unlocks.take(i + 1) =~= unlocks.take(i as int).push(x@));
            assert(texts(self.vehicles_unlocked@) =~= old_vehicles + unlocks.take(i + 1));
            assert(texts(messages@) =~= head + unlocks.take(i + 1).map_values(|v: Seq<char>| "Unlocked the "@ + v));
            i = i + 1;
        }
        assert(unlocks.take(i as int) =~= unlocks);
        assert(texts(messages@) =~= unlock_messages(views, idx as int));
        Some(messages)
    }

    /// Unlocks every level, with all their vehicles and upzones.
    pub fn unlock_all(&mut self)
        ensures
            old(self).wf() ==> final(self).wf(),
            final(self).levels == old(self).levels,
            final(self).high_scores == old(self).high_scores,
            final(self).current_vehicle == old(self).current_vehicle,
            texts(final(self).vehicles_unlocked@) == texts(old(self).vehicles_unlocked@)
                + all_unlock_vehicles(level_views(old(self).levels@)),
            final(self).upzones_unlocked == total_upzones(old(self).upzones_unlocked, level_views(old(self).levels@)),
            final(self).levels_unlocked == old(self).levels.len(),
    {
        let ghost fixed = *self;
        let ghost views = level_views(self.levels@);
        let mut i: usize = 0;
        while i < self.levels.len()
            invariant
                self.levels == fixed.levels,
                self.high_scores == fixed.high_scores,
                self.current_vehicle == fixed.current_vehicle,
                self.levels_unlocked == fixed.levels_unlocked,
                views == level_views(self.levels@),
                0 <= i <= self.levels.len(),
                texts(self.vehicles_unlocked@) == texts(fixed.vehicles_unlocked@)
                    + all_unlock_vehicles(views.take(i as int)),
                self.upzones_unlocked == total_upzones(fixed.upzones_unlocked, views.take(i as int)),
            decreases self.levels.len() - i,
        {
            assert(views.take(i + 1).drop_last() =~= views.take(i as int));
            assert(views[i as int] == self.levels@[i as int]@);
            let ghost start = texts(self.vehicles_unlocked@);
            let mut j: usize = 0;
            while j < self.levels[i].unlock_vehicles.len()
                invariant
                    self.levels == fixed.levels,
                    self.high_scores == fixed.high_scores,
                    self.current_vehicle == fixed.current_vehicle,
                    self.levels_unlocked == fixed.levels_unlocked,
                    self.upzones_unlocked == total_upzones(fixed.upzones_unlocked, views.take(i as int)),
                    views == level_views(self.levels@),
                    i < self.levels.len(),
                    views[i as int] == self.levels@[i as int]@,
                    0 <= j <= views[i as int].unlock_vehicles.len(),
                    texts(self.vehicles_unlocked@) == start + views[i as int].unlock_vehicles.take(j as int),
                decreases self.levels@[i as int].unlock_vehicles.len() - j,
            {
                let x = &self.levels[i].unlock_vehicles[j];
                let ghost before_v = self.vehicles_unlocked@;
                self.vehicles_unlocked.push(x.clone());
                assert(texts(self.vehicles_unlocked@) =~= texts(before_v).push(x@));
                assert(views[i as int].unlock_vehicles.take(j + 1) =~= views[i as int].unlock_vehicles.take(
                    j as int,
                ).push(x@));
                assert(texts(self.vehicles_unlocked@) =~= start + views[i as int].unlock_vehicles.take(j + 1));
                j = j + 1;
            }
            assert(views[i as int].unlock_vehicles.take(j as int) =~= views[i as int].unlock_vehicles);
            assert(texts(self.vehicles_unlocked@) =~= texts(fixed.vehicles_unlocked@) + all_unlock_vehicles(
                views.take(i + 1),
            ));
            self.upzones_unlocked = self.upzones_unlocked.saturating_add(self.levels[i].unlock_upzones);
            i = i + 1;
        }
        assert(views.take(i as int) =~= views);
        self.levels_unlocked = self.levels.len();
    }

    /// Picks up a saved session if it is well formed and was made for the same
    /// levels; otherwise starts afresh.
    pub fn load(saved: Option<Session>, levels: Vec<Level>) -> (r: Session)
        ensures
            r.wf(),
            match saved {
                Some(s) => if s.wf() && level_views(s.levels@) == level_views(levels@) {
                    r == s
                } else {
                    r.is_fresh(levels@)
                },
                None => r.is_fresh(levels@),
            },
    {
        match saved {
            Some(s) => {
                if s.is_valid() && same_levels(&s.levels, &levels) {
                    s
                } else {
                    Session::fresh(levels)
                }
            },
            None => Session::fresh(levels),
        }
    }
}

} // verus!
