use vstd::prelude::*;

use crate::animation::{live, Animator, Effect, Scheduled};
use crate::buildings::{
    indices_of_kind, lemma_pending_done, lemma_pending_nonneg, lists_kind, pending, progressed,
    BldgState,
};
use crate::level::{Level, Vehicle, MAX_SPEED};
use crate::session::Session;

verus! {

/// Boost grows by the elapsed time divided by this while on a good road.
pub const BOOST_ACCRUAL_DIVISOR: u64 = 2;
/// Boosting multiplies the speed by this.
pub const BOOST_SPEED_MULTIPLIER: u64 = 2;
/// How long the path effect of a delivery or refill lasts, in microseconds.
pub const PATH_DURATION: u64 = 200_000;
/// How long the label effect of a delivery or refill lasts, in microseconds.
pub const LABEL_DURATION: u64 = 500_000;
/// Period of the guide arrow's pulsing, in microseconds.
pub const ARROW_PERIOD: u64 = 500_000;

/// `a + b`, or the largest `u64` where that does not fit.
pub open spec fn sat_add(a: u64, b: u64) -> u64 {
    if a + b > u64::MAX { u64::MAX } else { (a + b) as u64 }
}

pub open spec fn min(a: int, b: int) -> int {
    if a <= b { a } else { b }
}

/// Score, energy and boost of a run, with the level, vehicle and buildings.
pub struct GameState {
    pub level: Level,
    pub vehicle: Vehicle,
    pub bldgs: Vec<BldgState>,
    /// Number of deliveries.
    pub score: usize,
    /// Number of gifts currently being carried.
    pub energy: usize,
    /// Boost left, in microseconds.
    pub boost: u64,
}

impl GameState {
    /// Energy and boost stay within the vehicle's capacity.
    pub open spec fn within_bounds(&self) -> bool {
        &&& self.energy <= self.vehicle.max_energy
        &&& self.boost <= self.vehicle.max_boost
    }

    /// Besides the bounds: what remains to deliver can still be added to the
    /// score.
    pub open spec fn wf(&self) -> bool {
        &&& self.within_bounds()
        &&& self.vehicle.wf()
        &&& self.score + pending(self.bldgs@) <= usize::MAX
    }

    /// Units a delivery to building `id` would hand over now, if any.
    pub open spec fn delivery(&self, id: int) -> Option<usize> {
        match self.bldgs@[id] {
            BldgState::Undelivered(n) => if self.energy > 0 {
                Some(min(n as int, self.energy as int) as usize)
            } else {
                None
            },
            _ => None,
        }
    }

    /// Speed before any boost: normal with energy left, tired without.
    pub open spec fn base_speed(&self) -> u64 {
        if self.energy > 0 { self.vehicle.normal_speed } else { self.vehicle.tired_speed }
    }

    /// Starts a run with full energy, no score and no boost.
    pub fn new(level: Level, vehicle: Vehicle, bldgs: Vec<BldgState>) -> (r: GameState)
        requires
            vehicle.wf(),
            pending(bldgs@) <= usize::MAX,
        ensures
            r.wf(),
            r.level == level,
            r.vehicle == vehicle,
            r.bldgs == bldgs,
            r.score == 0,
            r.energy == vehicle.max_energy,
            r.boost == 0,
    {
        let energy = vehicle.max_energy;
        GameState { level, vehicle, bldgs, score: 0, energy, boost: 0 }
    }

    pub fn has_energy(&self) -> (r: bool)
        ensures
            r == (self.energy > 0),
    {
        self.energy > 0
    }

    /// Drops gifts at building `id`. With energy left and the building
    /// undelivered, `min(units, energy)` gifts move from energy to score and the
    /// building is done, whatever units were left over; that amount is
    /// returned. Otherwise nothing changes.
    pub fn present_dropped(&mut self, id: usize) -> (r: Option<usize>)
        requires
            old(self).wf(),
            id < old(self).bldgs.len(),
        ensures
            final(self).wf(),
            r == old(self).delivery(id as int),
            r is Some ==> ({
                let d = r.unwrap();
                &&& final(self).score == old(self).score + d
                &&& final(self).energy == old(self).energy - d
                &&& final(self).bldgs@ == old(self).bldgs@.update(id as int, BldgState::Done)
                &&& final(self).boost == old(self).boost
                &&& final(self).level == old(self).level
                &&& final(self).vehicle == old(self).vehicle
            }),
            r is None ==> *final(self) == *old(self),
            progressed(old(self).bldgs@, final(self).bldgs@),
    {
        if !self.has_energy() {
            return None;
        }
        match self.bldgs[id] {
            BldgState::Undelivered(num_housing_units) => {
                // No partial deliveries: the building is done even if units remain.
                let deliveries = if num_housing_units <= self.energy {
                    num_housing_units
                } else {
                    self.energy
                };
                proof {
                    lemma_pending_done(self.bldgs@, id as int);
                    lemma_pending_nonneg(self.bldgs@.update(id as int, BldgState::Done));
                }
                self.score = self.score + deliveries;
                self.bldgs.set(id, BldgState::Done);
                self.energy = self.energy - deliveries;
                Some(deliveries)
            },
            _ => None,
        }
    }

    /// Buildings delivered to so far, in increasing order; the renderer shades
    /// them.
    pub fn done_buildings(&self) -> (r: Vec<usize>)
        ensures
            lists_kind(self.bldgs@, false, r@),
    {
        indices_of_kind(&self.bldgs, false)
    }

    /// All stores, in increasing order.
    pub fn all_stores(&self) -> (r: Vec<usize>)
        ensures
            lists_kind(self.bldgs@, true, r@),
    {
        indices_of_kind(&self.bldgs, true)
    }
}

/// Where the guide arrow points this frame, and how far into its pulse it is.
#[derive(Clone, Copy, Debug, PartialEq, Eq, Structural)]
pub struct ArrowFrame {
    /// The nearest store.
    pub store: usize,
    /// Microseconds into the current pulse, below `ARROW_PERIOD`.
    pub pulse: u64,
}

/// The guide towards the nearest store, shown while the vehicle is out of
/// energy.
#[derive(Clone, Copy, Debug, PartialEq, Eq, Structural)]
pub struct EnergylessArrow {
    pub started: u64,
    pub last_update: u64,
}

/// Whether `k` indexes the first candidate at the smallest distance.
pub open spec fn is_nearest(stores: Seq<(usize, u64)>, k: int) -> bool {
    &&& 0 <= k < stores.len()
    &&& forall|j: int| 0 <= j < stores.len() ==> stores[k].1 <= #[trigger] stores[j].1
    &&& forall|j: int| 0 <= j < k ==> stores[k].1 < #[trigger] stores[j].1
}

/// One update of the guide arrow at `time`, from `before` to `after`, with
/// candidate stores and their distances, returning `r`.
pub open spec fn arrow_step(
    before: EnergylessArrow,
    time: u64,
    stores: Seq<(usize, u64)>,
    after: EnergylessArrow,
    r: Option<ArrowFrame>,
) -> bool {
    if before.last_update == time {
        after == before && r is None
    } else {
        &&& after == (EnergylessArrow { last_update: time, ..before })
        &&& (stores.len() == 0 ==> r is None)
        &&& (stores.len() > 0 ==> r is Some && exists|k: int| is_nearest(stores, k)
            && r.unwrap().store == stores[k].0)
        &&& (r is Some ==> r.unwrap().pulse == (time - before.started) % (ARROW_PERIOD as int))
    }
}

impl EnergylessArrow {
    pub fn new(started: u64) -> (r: EnergylessArrow)
        ensures
            r == (EnergylessArrow { started, last_update: 0 }),
    {
        EnergylessArrow { started, last_update: 0 }
    }

    /// Recomputes the arrow when the clock has moved since the last update:
    /// it points to the nearest of `stores`, given as building and distance.
    pub fn update(&mut self, time: u64, stores: &Vec<(usize, u64)>) -> (r: Option<ArrowFrame>)
        requires
            old(self).started <= time,
        ensures
            arrow_step(*old(self), time, stores@, *final(self), r),
    {
        if self.last_update == time {
            return None;
        }
        self.last_update = time;
        if stores.len() == 0 {
            return None;
        }
        let mut best: usize = 0;
        let mut i: usize = 1;
        while i < stores.len()
            invariant
                0 <= best < i <= stores.len(),
                forall|j: int| 0 <= j < i ==> stores@[best as int].1 <= #[trigger] stores@[j].1,
                forall|j: int| 0 <= j < best ==> stores@[best as int].1 < #[trigger] stores@[j].1,
            decreases stores.len() - i,
        {
            if stores[i].1 < stores[best].1 {
                best = i;
            }
            i = i + 1;
        }
        assert(is_nearest(stores@, best as int));
        Some(ArrowFrame { store: stores[best].0, pulse: (time - self.started) % ARROW_PERIOD })
    }
}

/// What a delivery or refill handed over.
#[derive(Clone, Copy, Debug, PartialEq, Eq, Structural)]
pub enum Arrival {
    Delivered(usize),
    Refilled(usize),
}

/// The first step of a frame: the run is over, or the player moves this fast.
#[derive(Clone, Copy, Debug, PartialEq, Eq, Structural)]
pub enum Phase {
    Ended { score: usize },
    Move { speed: u64 },
}

/// A whole run. Each frame the host calls `begin_tick`, moves the player at
/// the speed it returns, calls `visit` for each building reached, then
/// `end_tick`.
pub struct Game {
    /// Time since the run started, in microseconds.
    pub time: u64,
    pub state: GameState,
    pub animator: Animator,
    pub arrow: Option<EnergylessArrow>,
    pub ended: bool,
}

/// Boost after `dt` more on a good road, held at the capacity.
pub open spec fn accrued(boost: u64, dt: u64, max_boost: u64) -> u64 {
    min(boost + (dt / BOOST_ACCRUAL_DIVISOR) as int, max_boost as int) as u64
}

impl Game {
    pub open spec fn wf(&self) -> bool {
        &&& self.state.wf()
        &&& (self.arrow is Some ==> self.arrow.unwrap().started <= self.time)
    }

    /// Whether the boost is used this frame: the key is held and boost is left.
    pub open spec fn boosting(&self, boost_held: bool) -> bool {
        boost_held && self.state.boost > 0
    }

    pub open spec fn speed_for(&self, boost_held: bool) -> u64 {
        if self.boosting(boost_held) {
            (self.state.base_speed() * BOOST_SPEED_MULTIPLIER) as u64
        } else {
            self.state.base_speed()
        }
    }

    /// Starts a run with the chosen vehicle, which becomes the session's
    /// current vehicle.
    pub fn new(session: &mut Session, level: Level, vehicle: Vehicle, bldgs: Vec<BldgState>) -> (r: Game)
        requires
            vehicle.wf(),
            pending(bldgs@) <= usize::MAX,
        ensures
            final(session).current_vehicle@ == vehicle.name@,
            final(session).levels == old(session).levels,
            final(session).high_scores == old(session).high_scores,
            final(session).levels_unlocked == old(session).levels_unlocked,
            final(session).vehicles_unlocked == old(session).vehicles_unlocked,
            final(session).upzones_unlocked == old(session).upzones_unlocked,
            old(session).wf() ==> final(session).wf(),
            r.wf(),
            r.time == 0,
            r.state.level == level,
            r.state.vehicle == vehicle,
            r.state.bldgs == bldgs,
            r.state.score == 0,
            r.state.energy == vehicle.max_energy,
            r.state.boost == 0,
            r.animator.effects() == Seq::<Scheduled>::empty(),
            r.arrow is None,
            !r.ended,
    {
        session.current_vehicle = vehicle.name.clone();
        Game {
            time: 0,
            state: GameState::new(level, vehicle, bldgs),
            animator: Animator::new(),
            arrow: None,
            ended: false,
        }
    }

    /// Time left before the limit, in microseconds.
    pub fn time_remaining(&self) -> (r: u64)
        ensures
            r == (if self.time >= self.state.level.time_limit {
                0
            } else {
                self.state.level.time_limit - self.time
            }),
    {
        if self.time >= self.state.level.time_limit {
            0
        } else {
            self.state.level.time_limit - self.time
        }
    }

    /// The line shown beside the boost bar.
    pub fn boost_hint(&self) -> (r: String)
        ensures
            r@ == (if self.state.boost == 0 {
                "Find a bike or bus lane to get a boost"@
            } else {
                "Press space to boost"@
            }),
    {
        if self.state.boost == 0 {
            String::from_str("Find a bike or bus lane to get a boost")
        } else {
            String::from_str("Press space to boost")
        }
    }

    /// Opens a frame that carries `dt` elapsed microseconds, if a frame is due.
    /// The clock advances; reaching the time limit ends the run for good, with
    /// the score. Otherwise the speed is chosen and boosting spends boost.
    pub fn begin_tick(&mut self, dt: Option<u64>, boost_held: bool) -> (r: Phase)
        requires
            old(self).wf(),
        ensures
            final(self).wf(),
            final(self).state.within_bounds(),
            final(self).state.score == old(self).state.score,
            final(self).state.energy == old(self).state.energy,
            final(self).state.bldgs == old(self).state.bldgs,
            final(self).state.level == old(self).state.level,
            final(self).state.vehicle == old(self).state.vehicle,
            final(self).animator == old(self).animator,
            final(self).arrow == old(self).arrow,
            old(self).ended ==> *final(self) == *old(self) && r == (Phase::Ended {
                score: old(self).state.score,
            }),
            !old(self).ended && dt is Some && old(self).time + dt.unwrap()
                >= old(self).state.level.time_limit ==> {
                &&& r == (Phase::Ended { score: old(self).state.score })
                &&& final(self).ended
                &&& final(self).time == sat_add(old(self).time, dt.unwrap())
                &&& final(self).state.boost == old(self).state.boost
            },
            !old(self).ended && (dt is None || old(self).time + dt.unwrap()
                < old(self).state.level.time_limit) ==> {
                &&& r == (Phase::Move { speed: old(self).speed_for(boost_held) })
                &&& !final(self).ended
                &&& final(self).time == (if dt is Some {
                    (old(self).time + dt.unwrap()) as u64
                } else {
                    old(self).time
                })
                &&& final(self).state.boost == (if old(self).boosting(boost_held) && dt is Some {
                    (old(self).state.boost - min(
                        dt.unwrap() as int,
                        old(self).state.boost as int,
                    )) as u64
                } else {
                    old(self).state.boost
                })
            },
    {
        if self.ended {
            return Phase::Ended { score: self.state.score };
        }
        if let Some(dt) = dt {
            self.time = self.time.saturating_add(dt);
            if self.time >= self.state.level.time_limit {
                self.ended = true;
                return Phase::Ended { score: self.state.score };
            }
        }
        let base_speed = if self.state.has_energy() {
            self.state.vehicle.normal_speed
        } else {
            self.state.vehicle.tired_speed
        };
        let speed = if boost_held && self.state.boost > 0 {
            if let Some(dt) = dt {
                self.state.boost = if dt >= self.state.boost {
                    0
                } else {
                    self.state.boost - dt
                };
            }
            base_speed * BOOST_SPEED_MULTIPLIER
        } else {
            base_speed
        };
        Phase::Move { speed }
    }

    /// Handles the player reaching building `b`. An undelivered building takes
    /// what `present_dropped` hands over; a store refills the energy when it is
    /// not full; a done building does nothing. Each delivery or refill
    /// schedules a path effect now and a label effect right after it.
    pub fn visit(&mut self, b: usize) -> (r: Option<Arrival>)
        requires
            old(self).wf(),
            b < old(self).state.bldgs.len(),
        ensures
            final(self).wf(),
            final(self).state.within_bounds(),
            final(self).time == old(self).time,
            final(self).ended == old(self).ended,
            final(self).arrow == old(self).arrow,
            final(self).state.level == old(self).state.level,
            final(self).state.vehicle == old(self).state.vehicle,
            final(self).state.boost == old(self).state.boost,
            progressed(old(self).state.bldgs@, final(self).state.bldgs@),
            r is None ==> *final(self) == *old(self),
            old(self).state.bldgs@[b as int] is Done ==> r is None,
            old(self).state.bldgs@[b as int] is Undelivered ==> match old(self).state.delivery(b as int) {
                Some(d) => {
                    &&& r == Some(Arrival::Delivered(d))
                    &&& final(self).state.score == old(self).state.score + d
                    &&& final(self).state.energy == old(self).state.energy - d
                    &&& final(self).state.bldgs@ == old(self).state.bldgs@.update(b as int, BldgState::Done)
                    &&& final(self).animator.effects() == old(self).animator.effects().push(
                        Scheduled { start: old(self).time, duration: PATH_DURATION, effect: Effect::DeliveryPath { building: b } },
                    ).push(
                        Scheduled {
                            start: sat_add(old(self).time, PATH_DURATION),
                            duration: LABEL_DURATION,
                            effect: Effect::DeliveryLabel { building: b, amount: d },
                        },
                    )
                },
                None => r is None,
            },
            old(self).state.bldgs@[b as int] is Store ==> {
                let refill = old(self).state.vehicle.max_energy - old(self).state.energy;
                if refill > 0 {
                    &&& r == Some(Arrival::Refilled(refill as usize))
                    &&& final(self).state.energy == old(self).state.vehicle.max_energy
                    &&& final(self).state.score == old(self).state.score
                    &&& final(self).state.bldgs == old(self).state.bldgs
                    &&& final(self).animator.effects() == old(self).animator.effects().push(
                        Scheduled { start: old(self).time, duration: PATH_DURATION, effect: Effect::RefillPath { building: b } },
                    ).push(
                        Scheduled {
                            start: sat_add(old(self).time, PATH_DURATION),
                            duration: LABEL_DURATION,
                            effect: Effect::RefillLabel { building: b, amount: refill as usize },
                        },
                    )
                } else {
                    r is None
                }
            },
    {
        match self.state.bldgs[b] {
            BldgState::Undelivered(_) => {
                match self.state.present_dropped(b) {
                    Some(increase) => {
                        self.animator.add(self.time, PATH_DURATION, Effect::DeliveryPath { building: b });
                        self.animator.add(
                            self.time.saturating_add(PATH_DURATION),
                            LABEL_DURATION,
                            Effect::DeliveryLabel { building: b, amount: increase },
                        );
                        Some(Arrival::Delivered(increase))
                    },
                    None => None,
                }
            },
            BldgState::Store => {
                let refill = self.state.vehicle.max_energy - self.state.energy;
                if refill > 0 {
                    self.state.energy = self.state.energy + refill;
                    self.animator.add(self.time, PATH_DURATION, Effect::RefillPath { building: b });
                    self.animator.add(
                        self.time.saturating_add(PATH_DURATION),
                        LABEL_DURATION,
                        Effect::RefillLabel { building: b, amount: refill },
                    );
                    Some(Arrival::Refilled(refill))
                } else {
                    None
                }
            },
            BldgState::Done => None,
        }
    }

    /// Closes a frame: boost grows on a good road, finished effects are
    /// dropped, and the guide arrow is shown only while out of energy, pointing
    /// at the nearest of `stores` (building and distance). Returns the arrow's
    /// new frame when it was recomputed.
    pub fn end_tick(&mut self, dt: Option<u64>, on_good_road: bool, stores: &Vec<(usize, u64)>) -> (r: Option<ArrowFrame>)
        requires
            old(self).wf(),
        ensures
            final(self).wf(),
            final(self).state.within_bounds(),
            final(self).time == old(self).time,
            final(self).ended == old(self).ended,
            final(self).state.level == old(self).state.level,
            final(self).state.vehicle == old(self).state.vehicle,
            final(self).state.bldgs == old(self).state.bldgs,
            final(self).state.score == old(self).state.score,
            final(self).state.energy == old(self).state.energy,
            final(self).state.boost == (if dt is Some && on_good_road {
                accrued(old(self).state.boost, dt.unwrap(), old(self).state.vehicle.max_boost)
            } else {
                old(self).state.boost
            }),
            final(self).animator.effects() == live(old(self).animator.effects(), old(self).time),
            old(self).state.energy > 0 ==> final(self).arrow is None && r is None,
            old(self).state.energy == 0 ==> final(self).arrow is Some && arrow_step(
                match old(self).arrow {
                    Some(a) => a,
                    None => EnergylessArrow { started: old(self).time, last_update: 0 },
                },
                old(self).time,
                stores@,
                final(self).arrow.unwrap(),
                r,
            ),
    {
        if let Some(dt) = dt {
            if on_good_road {
                let gain = dt / BOOST_ACCRUAL_DIVISOR;
                let room = self.state.vehicle.max_boost - self.state.boost;
                self.state.boost = if gain >= room {
                    self.state.vehicle.max_boost
                } else {
                    self.state.boost + gain
                };
            }
        }
        self.animator.advance(self.time);
        if self.state.has_energy() {
            self.arrow = None;
            None
        } else {
            let mut arrow = match self.arrow {
                Some(a) => a,
                None => EnergylessArrow::new(self.time),
            };
            let frame = arrow.update(self.time, stores);
            self.arrow = Some(arrow);
            frame
        }
    }
}

} // verus!
