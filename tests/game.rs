use santa::animation::{Animator, Effect, Scheduled};
use santa::buildings::{indices_of_kind, pending_units, BldgState};
use santa::game::{
    Arrival, ArrowFrame, EnergylessArrow, Game, GameState, Phase, LABEL_DURATION, PATH_DURATION,
};
use santa::level::{Level, Vehicle};
use santa::session::Session;

const SECOND: u64 = 1_000_000;

fn session() -> Session {
    Session::load(None, vec![level("L", 60, 100)])
}

fn level(title: &str, time_limit_s: u64, goal: usize) -> Level {
    Level {
        title: title.to_string(),
        map_name: "montlake".to_string(),
        start: 42,
        minimap_zoom: 1,
        time_limit: time_limit_s * SECOND,
        goal,
        unlock_upzones: 0,
        unlock_vehicles: vec![],
    }
}

fn vehicle(max_energy: usize, max_boost_s: u64) -> Vehicle {
    Vehicle {
        name: "sleigh".to_string(),
        normal_speed: 10_000,
        tired_speed: 5_000,
        max_energy,
        max_boost: max_boost_s * SECOND,
    }
}

fn state(max_energy: usize, bldgs: Vec<BldgState>) -> GameState {
    GameState::new(level("L", 60, 100), vehicle(max_energy, 10), bldgs)
}

#[test]
fn delivery_takes_min_of_units_and_energy() {
    let mut s = state(30, vec![BldgState::Undelivered(12), BldgState::Undelivered(40)]);
    assert_eq!(s.present_dropped(0), Some(12));
    assert_eq!(s.score, 12);
    assert_eq!(s.energy, 18);
    assert_eq!(s.bldgs[0], BldgState::Done);
    assert_eq!(s.present_dropped(1), Some(18));
    assert_eq!(s.score, 30);
    assert_eq!(s.energy, 0);
    assert_eq!(s.bldgs[1], BldgState::Done);
}

#[test]
fn no_energy_means_no_delivery() {
    let mut s = state(0, vec![BldgState::Undelivered(5)]);
    assert!(!s.has_energy());
    assert_eq!(s.present_dropped(0), None);
    assert_eq!(s.bldgs[0], BldgState::Undelivered(5));
    assert_eq!(s.score, 0);
}

#[test]
fn delivery_over_capacity_then_nothing_more() {
    let mut g = Game::new(
        &mut session(),
        level("L", 60, 100), vehicle(50, 10), vec![BldgState::Undelivered(80)]);
    assert_eq!(g.visit(0), Some(Arrival::Delivered(50)));
    assert_eq!(g.state.score, 50);
    assert_eq!(g.state.energy, 0);
    assert_eq!(g.state.bldgs[0], BldgState::Done);
    assert_eq!(g.visit(0), None);
    assert_eq!(g.state.score, 50);
    assert_eq!(g.state.bldgs[0], BldgState::Done);
}

#[test]
fn done_building_never_changes() {
    let mut g = Game::new(
        &mut session(),
        level("L", 60, 100), vehicle(50, 10), vec![BldgState::Done, BldgState::Store]);
    for _ in 0..3 {
        assert_eq!(g.visit(0), None);
        assert_eq!(g.state.bldgs[0], BldgState::Done);
    }
    assert_eq!(g.animator.scheduled().len(), 0);
}

#[test]
fn store_refills_and_schedules_effects() {
    let mut g = Game::new(
        &mut session(),
        
        level("L", 60, 100),
        vehicle(10, 10),
        vec![BldgState::Undelivered(4), BldgState::Store],
    );
    assert_eq!(g.begin_tick(Some(SECOND), false), Phase::Move { speed: 10_000 });
    assert_eq!(g.visit(1), None);
    assert_eq!(g.visit(0), Some(Arrival::Delivered(4)));
    assert_eq!(g.visit(1), Some(Arrival::Refilled(4)));
    assert_eq!(g.state.energy, 10);
    assert_eq!(g.state.bldgs[1], BldgState::Store);
    let effects = g.animator.scheduled();
    assert_eq!(effects.len(), 4);
    assert_eq!(
        effects[0],
        Scheduled { start: SECOND, duration: PATH_DURATION, effect: Effect::DeliveryPath { building: 0 } }
    );
    assert_eq!(
        effects[1],
        Scheduled {
            start: SECOND + PATH_DURATION,
            duration: LABEL_DURATION,
            effect: Effect::DeliveryLabel { building: 0, amount: 4 }
        }
    );
    assert_eq!(effects[3].effect, Effect::RefillLabel { building: 1, amount: 4 });
}

#[test]
fn run_ends_at_time_limit() {
    let mut g = Game::new(
        &mut session(),
        level("L", 60, 100), vehicle(200, 10), vec![BldgState::Undelivered(120)]);
    assert_eq!(g.begin_tick(Some(30 * SECOND), false), Phase::Move { speed: 10_000 });
    assert_eq!(g.visit(0), Some(Arrival::Delivered(120)));
    g.end_tick(Some(30 * SECOND), false, &vec![]);
    assert_eq!(g.time_remaining(), 30 * SECOND);
    assert_eq!(g.begin_tick(Some(30 * SECOND), false), Phase::Ended { score: 120 });
    assert!(g.ended);
    assert_eq!(g.time_remaining(), 0);
    assert_eq!(g.begin_tick(Some(SECOND), true), Phase::Ended { score: 120 });
    assert_eq!(g.time, 60 * SECOND);
}

#[test]
fn no_tick_keeps_clock() {
    let mut g = Game::new(
        &mut session(),
        level("L", 60, 100), vehicle(5, 10), vec![]);
    assert_eq!(g.begin_tick(None, false), Phase::Move { speed: 10_000 });
    assert_eq!(g.time, 0);
}

#[test]
fn boost_accrues_clamps_and_drains() {
    let mut g = Game::new(
        &mut session(),
        level("L", 600, 100), vehicle(5, 2), vec![]);
    // Holding boost with none left does nothing.
    assert_eq!(g.begin_tick(Some(SECOND), true), Phase::Move { speed: 10_000 });
    g.end_tick(Some(SECOND), true, &vec![]);
    assert_eq!(g.state.boost, SECOND / 2);
    for _ in 0..10 {
        g.begin_tick(Some(SECOND), false);
        g.end_tick(Some(SECOND), true, &vec![]);
        assert!(g.state.boost <= 2 * SECOND);
    }
    assert_eq!(g.state.boost, 2 * SECOND);
    assert_eq!(g.begin_tick(Some(SECOND / 2), true), Phase::Move { speed: 20_000 });
    assert_eq!(g.state.boost, 3 * SECOND / 2);
    g.end_tick(Some(SECOND / 2), false, &vec![]);
    assert_eq!(g.begin_tick(Some(5 * SECOND), true), Phase::Move { speed: 20_000 });
    assert_eq!(g.state.boost, 0);
    g.end_tick(Some(5 * SECOND), false, &vec![]);
    assert_eq!(g.begin_tick(Some(SECOND), true), Phase::Move { speed: 10_000 });
}

#[test]
fn tired_speed_without_energy() {
    let mut g = Game::new(
        &mut session(),
        level("L", 60, 100), vehicle(3, 10), vec![BldgState::Undelivered(9)]);
    g.begin_tick(Some(SECOND), false);
    g.visit(0);
    assert_eq!(g.state.energy, 0);
    g.end_tick(Some(SECOND), false, &vec![]);
    assert_eq!(g.begin_tick(Some(SECOND), false), Phase::Move { speed: 5_000 });
}

#[test]
fn guide_arrow_follows_energy() {
    let mut g = Game::new(
        &mut session(),
        
        level("L", 60, 100),
        vehicle(3, 10),
        vec![BldgState::Undelivered(9), BldgState::Store, BldgState::Store],
    );
    g.begin_tick(Some(SECOND), false);
    let stores = vec![(1, 700), (2, 300)];
    assert_eq!(g.end_tick(Some(SECOND), false, &stores), None);
    assert!(g.arrow.is_none());
    g.begin_tick(Some(SECOND), false);
    g.visit(0);
    let frame = g.end_tick(Some(SECOND), false, &stores);
    assert_eq!(frame, Some(ArrowFrame { store: 2, pulse: 0 }));
    assert_eq!(g.arrow, Some(EnergylessArrow { started: 2 * SECOND, last_update: 2 * SECOND }));
    // No time passed: nothing is recomputed.
    g.begin_tick(None, false);
    assert_eq!(g.end_tick(None, false, &stores), None);
    g.begin_tick(Some(SECOND / 5), false);
    assert_eq!(
        g.end_tick(Some(SECOND / 5), false, &stores),
        Some(ArrowFrame { store: 2, pulse: SECOND / 5 })
    );
    g.visit(1);
    assert_eq!(g.state.energy, 3);
    g.begin_tick(Some(SECOND), false);
    assert_eq!(g.end_tick(Some(SECOND), false, &stores), None);
    assert!(g.arrow.is_none());
}

#[test]
fn arrow_picks_first_nearest_and_pulses() {
    let mut a = EnergylessArrow::new(1_000);
    assert_eq!(a, EnergylessArrow { started: 1_000, last_update: 0 });
    let stores = vec![(7, 50), (8, 20), (9, 20)];
    assert_eq!(a.update(1_000 + 700_000, &stores), Some(ArrowFrame { store: 8, pulse: 200_000 }));
    assert_eq!(a.update(1_000 + 700_000, &stores), None);
    assert_eq!(a.update(2_000_000, &vec![]), None);
    assert_eq!(a.last_update, 2_000_000);
}

#[test]
fn animator_retires_finished_effects() {
    let mut an = Animator::new();
    an.add(0, 100, Effect::DeliveryPath { building: 1 });
    an.add(100, 500, Effect::DeliveryLabel { building: 1, amount: 3 });
    an.add(50, 10, Effect::RefillPath { building: 2 });
    an.advance(99);
    assert_eq!(an.scheduled().len(), 2);
    an.advance(100);
    assert_eq!(an.scheduled().len(), 1);
    let e = an.scheduled()[0];
    assert_eq!(e.effect, Effect::DeliveryLabel { building: 1, amount: 3 });
    assert_eq!(e.elapsed(50), 0);
    assert_eq!(e.elapsed(350), 250);
    assert_eq!(e.elapsed(10_000), 500);
    an.advance(600);
    assert_eq!(an.scheduled().len(), 0);
}

#[test]
fn pending_units_and_kinds() {
    let b = vec![
        BldgState::Undelivered(3),
        BldgState::Store,
        BldgState::Done,
        BldgState::Undelivered(4),
        BldgState::Store,
    ];
    assert_eq!(pending_units(&b), Some(7));
    assert_eq!(pending_units(&vec![BldgState::Undelivered(usize::MAX), BldgState::Undelivered(1)]), None);
    assert_eq!(indices_of_kind(&b, true), vec![1, 4]);
    assert_eq!(indices_of_kind(&b, false), vec![2]);
    let s = state(1, b);
    assert_eq!(s.all_stores(), vec![1, 4]);
    assert_eq!(s.done_buildings(), vec![2]);
}

#[test]
fn boost_hint_follows_boost() {
    let mut g = Game::new(
        &mut session(),
        level("L", 60, 100), vehicle(5, 2), vec![]);
    assert_eq!(g.boost_hint(), "Find a bike or bus lane to get a boost");
    g.begin_tick(Some(SECOND), false);
    g.end_tick(Some(SECOND), true, &vec![]);
    assert_eq!(g.boost_hint(), "Press space to boost");
}

#[test]
fn new_game_sets_current_vehicle() {
    let mut s = session();
    s.vehicles_unlocked.push("bike".to_string());
    let mut v = vehicle(5, 2);
    v.name = "bike".to_string();
    let g = Game::new(&mut s, level("L", 60, 100), v, vec![BldgState::Store]);
    assert_eq!(s.current_vehicle, "bike");
    assert_eq!(s.vehicles_unlocked, vec!["sleigh", "bike"]);
    assert_eq!(s.levels_unlocked, 1);
    assert_eq!(g.time, 0);
    assert_eq!(g.state.score, 0);
    assert_eq!(g.state.energy, 5);
    assert_eq!(g.state.boost, 0);
    assert!(g.arrow.is_none());
    assert!(!g.ended);
}
