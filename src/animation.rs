use vstd::prelude::*;

verus! {

/// What a scheduled effect shows; the renderer turns it into geometry.
#[derive(Clone, Copy, Debug, PartialEq, Eq, Structural)]
pub enum Effect {
    /// A line running from the road into a building that was delivered to.
    DeliveryPath { building: usize },
    /// A growing "+amount" label over a building that was delivered to.
    DeliveryLabel { building: usize, amount: usize },
    /// A line running from a store back to the road.
    RefillPath { building: usize },
    /// A growing "Refilled amount" label over a store.
    RefillLabel { building: usize, amount: usize },
}

/// An effect shown from `start` for `duration` microseconds.
#[derive(Clone, Copy, Debug, PartialEq, Eq, Structural)]
pub struct Scheduled {
    pub start: u64,
    pub duration: u64,
    pub effect: Effect,
}

/// Whether the window of an effect has fully passed at `now`.
pub open spec fn finished(e: Scheduled, now: u64) -> bool {
    e.start + e.duration <= now
}

/// The effects of a list that have not finished at `now`, in their order.
pub open spec fn live(s: Seq<Scheduled>, now: u64) -> Seq<Scheduled>
    decreases s.len(),
{
    if s.len() == 0 {
        s
    } else if finished(s.last(), now) {
        live(s.drop_last(), now)
    } else {
        live(s.drop_last(), now).push(s.last())
    }
}

impl Scheduled {
    /// How far into its window the effect is at `now`, between 0 and
    /// `duration`; the drawn progress is this divided by `duration`.
    pub fn elapsed(&self, now: u64) -> (r: u64)
        ensures
            r == (if now <= self.start {
                0
            } else if now - self.start >= self.duration {
                self.duration as int
            } else {
                now - self.start
            }),
    {
        if now <= self.start {
            0
        } else if now - self.start >= self.duration {
            self.duration
        } else {
            now - self.start
        }
    }
}

/// Fire-and-forget effects keyed by absolute start time. Effects never
/// interact; they are drawn in the order they were added.
pub struct Animator {
    effects: Vec<Scheduled>,
}

impl Animator {
    pub closed spec fn effects(&self) -> Seq<Scheduled> {
        self.effects@
    }

    pub fn new() -> (r: Animator)
        ensures
            r.effects() == Seq::<Scheduled>::empty(),
    {
        Animator { effects: Vec::new() }
    }

    /// Schedules an effect; nothing cancels it afterwards.
    pub fn add(&mut self, start: u64, duration: u64, effect: Effect)
        ensures
            final(self).effects() == old(self).effects().push(
                Scheduled { start, duration, effect },
            ),
    {
        self.effects.push(Scheduled { start, duration, effect });
    }

    /// Drops the effects whose window has fully passed at `now`.
    pub fn advance(&mut self, now: u64)
        ensures
            final(self).effects() == live(old(self).effects(), now),
    {
        let mut kept: Vec<Scheduled> = Vec::new();
        let mut i: usize = 0;
        while i < self.effects.len()
            invariant
                0 <= i <= self.effects.len(),
                kept@ == live(self.effects@.take(i as int), now),
            decreases self.effects.len() - i,
        {
            assert(self.effects@.take(i + 1).drop_last() =~= self.effects@.take(i as int));
            let e = self.effects[i];
            if !(e.start <= now && now - e.start >= e.duration) {
                kept.push(e);
            }
            i = i + 1;
        }
        assert(self.effects@.take(i as int) =~= self.effects@);
        self.effects = kept;
    }

    /// The effects still scheduled, in drawing order.
    pub fn scheduled(&self) -> (r: &Vec<Scheduled>)
        ensures
            r@ == self.effects(),
    {
        &self.effects
    }
}

} // verus!
