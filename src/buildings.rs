use vstd::prelude::*;

verus! {

/// Where a building stands in the current run.
#[derive(Clone, Copy, Debug, PartialEq, Eq, Structural)]
pub enum BldgState {
    /// Still waiting for gifts, one per housing unit.
    Undelivered(usize),
    /// Refills the vehicle's energy.
    Store,
    /// Delivered to; nothing more happens here.
    Done,
}

/// Units still waiting in a building.
pub open spec fn units(b: BldgState) -> int {
    match b {
        BldgState::Undelivered(n) => n as int,
        _ => 0,
    }
}

/// Units still waiting over all buildings.
pub open spec fn pending(s: Seq<BldgState>) -> int
    decreases s.len(),
{
    if s.len() == 0 {
        0
    } else {
        pending(s.drop_last()) + units(s.last())
    }
}

pub proof fn lemma_pending_nonneg(s: Seq<BldgState>)
    ensures
        pending(s) >= 0,
    decreases s.len(),
{
    if s.len() > 0 {
        lemma_pending_nonneg(s.drop_last());
    }
}

/// Marking one building done takes its units out of what is pending.
pub proof fn lemma_pending_done(s: Seq<BldgState>, i: int)
    requires
        0 <= i < s.len(),
    ensures
        pending(s.update(i, BldgState::Done)) == pending(s) - units(s[i]),
    decreases s.len(),
{
    let t = s.update(i, BldgState::Done);
    if i == s.len() - 1 {
        assert(t.drop_last() =~= s.drop_last());
    } else {
        lemma_pending_done(s.drop_last(), i);
        assert(t.drop_last() =~= s.drop_last().update(i, BldgState::Done));
    }
}

/// How a list of building states may change during a run: a building only
/// ever moves from `Undelivered` to `Done`.
pub open spec fn progressed(before: Seq<BldgState>, after: Seq<BldgState>) -> bool {
    &&& after.len() == before.len()
    &&& forall|i: int|
        0 <= i < before.len() && #[trigger] after[i] != before[i] ==> before[i] is Undelivered
            && after[i] is Done
}

/// Changes that each follow the run's rules compose into one that does: in
/// particular a building once done stays done whatever comes after.
pub proof fn lemma_progressed_trans(a: Seq<BldgState>, b: Seq<BldgState>, c: Seq<BldgState>)
    requires
        progressed(a, b),
        progressed(b, c),
    ensures
        progressed(a, c),
        forall|i: int| 0 <= i < a.len() && a[i] is Done ==> #[trigger] c[i] is Done,
{
    assert forall|i: int| 0 <= i < a.len() && #[trigger] c[i] != a[i] implies a[i] is Undelivered
        && c[i] is Done by {
        if b[i] != a[i] {
        } else {
        }
    }
    assert forall|i: int| 0 <= i < a.len() && a[i] is Done implies #[trigger] c[i] is Done by {
        if b[i] != a[i] {
        }
        if c[i] != b[i] {
        }
    }
}

/// Total of units waiting over all buildings, or `None` where it does not fit
/// in a `usize`.
pub fn pending_units(bldgs: &Vec<BldgState>) -> (r: Option<usize>)
    ensures
        r is Some <==> pending(bldgs@) <= usize::MAX,
        r is Some ==> r.unwrap() == pending(bldgs@),
{
    let mut total: usize = 0;
    let mut i: usize = 0;
    while i < bldgs.len()
        invariant
            0 <= i <= bldgs.len(),
            total == pending(bldgs@.take(i as int)),
        decreases bldgs.len() - i,
    {
        assert(bldgs@.take(i + 1).drop_last() =~= bldgs@.take(i as int));
        let n: usize = match bldgs[i] {
            BldgState::Undelivered(n) => n,
            _ => 0,
        };
        if n > usize::MAX - total {
            proof {
                assert(bldgs@ =~= bldgs@.take(i + 1) + bldgs@.skip(i + 1));
                lemma_pending_append(bldgs@.take(i + 1), bldgs@.skip(i + 1));
                lemma_pending_nonneg(bldgs@.skip(i + 1));
            }
            return None;
        }
        total = total + n;
        i = i + 1;
    }
    assert(bldgs@.take(i as int) =~= bldgs@);
    Some(total)
}

pub proof fn lemma_pending_append(a: Seq<BldgState>, b: Seq<BldgState>)
    ensures
        pending(a + b) == pending(a) + pending(b),
    decreases b.len(),
{
    if b.len() > 0 {
        lemma_pending_append(a, b.drop_last());
        assert((a + b).drop_last() =~= a + b.drop_last());
    } else {
        assert(a + b =~= a);
    }
}

/// Whether a building is a store (`want_store`) or done (otherwise).
pub open spec fn is_kind(b: BldgState, want_store: bool) -> bool {
    if want_store { b is Store } else { b is Done }
}

/// The indices, in increasing order, of the buildings of one kind.
pub open spec fn lists_kind(s: Seq<BldgState>, want_store: bool, r: Seq<usize>) -> bool {
    &&& forall|j: int, k: int| 0 <= j < k < r.len() ==> r[j] < r[k]
    &&& forall|j: int| 0 <= j < r.len() ==> #[trigger] r[j] < s.len() && is_kind(s[r[j] as int], want_store)
    &&& forall|i: int| 0 <= i < s.len() && is_kind(#[trigger] s[i], want_store) ==> r.contains(i as usize)
}

pub fn indices_of_kind(bldgs: &Vec<BldgState>, want_store: bool) -> (r: Vec<usize>)
    ensures
        lists_kind(bldgs@, want_store, r@),
{
    let mut r: Vec<usize> = Vec::new();
    let mut i: usize = 0;
    while i < bldgs.len()
        invariant
            0 <= i <= bldgs.len(),
            forall|j: int, k: int| 0 <= j < k < r.len() ==> r[j] < r[k],
            forall|j: int| 0 <= j < r.len() ==> #[trigger] r[j] < i && is_kind(bldgs@[r[j] as int], want_store),
            forall|m: int| 0 <= m < i && is_kind(#[trigger] bldgs@[m], want_store) ==> r@.contains(m as usize),
        decreases bldgs.len() - i,
    {
        let hit = match bldgs[i] {
            BldgState::Store => want_store,
            BldgState::Done => !want_store,
            _ => false,
        };
        if hit {
            let ghost before = r@;
            r.push(i);
            proof {
                assert forall|m: int| 0 <= m <= i && is_kind(#[trigger] bldgs@[m], want_store) implies r@.contains(m as usize) by {
                    if m < i {
                        let k = choose|k: int| 0 <= k < before.len() && before[k] == m as usize;
                        assert(r@[k] == m as usize);
                    } else {
                        assert(r@[r.len() - 1] == m as usize);
                    }
                }
            }
        } else {
            proof {
                assert forall|m: int| 0 <= m <= i && is_kind(#[trigger] bldgs@[m], want_store) implies r@.contains(m as usize) by {
                    if m == i {
                        assert(false);
                    }
                }
            }
        }
        i = i + 1;
    }
    r
}

} // verus!
