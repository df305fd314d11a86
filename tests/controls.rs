use santa::controls::{Heading, HeldKeys, InstantController, Step};

fn keys(left: bool, right: bool, up: bool, down: bool) -> HeldKeys {
    HeldKeys { left, right, up, down }
}

#[test]
fn starts_facing_zero() {
    let c = InstantController::new();
    assert_eq!(c.facing, Heading { x: 1, y: 0 });
}

#[test]
fn cancelling_keys_do_not_move_or_turn() {
    for l in [false, true] {
        for u in [false, true] {
            let mut c = InstantController::new();
            c.displacement(Some(10), keys(false, false, true, false), 3);
            let before = c.facing;
            assert_eq!(c.displacement(Some(1_000), keys(l, l, u, u), 7), None);
            assert_eq!(c.facing, before);
        }
    }
}

#[test]
fn no_tick_does_not_move() {
    let mut c = InstantController::new();
    assert_eq!(c.displacement(None, keys(false, true, false, false), 7), None);
    assert_eq!(c.facing, Heading { x: 1, y: 0 });
}

#[test]
fn keys_set_heading_and_length() {
    let mut c = InstantController::new();
    let r = c.displacement(Some(16_000), keys(false, true, true, false), 10_000);
    let h = Heading { x: -1, y: 1 };
    assert_eq!(r, Some(Step { heading: h, magnitude: 16_000 * 5 * 10_000 }));
    assert_eq!(c.facing, h);
    let r = c.displacement(Some(2), keys(true, false, true, true), 0);
    assert_eq!(r, Some(Step { heading: Heading { x: 1, y: 0 }, magnitude: 0 }));
}

#[test]
fn cancelling_keys_with_huge_tick_do_nothing() {
    let mut c = InstantController::new();
    assert_eq!(c.displacement(Some(u64::MAX), keys(true, true, true, true), u64::MAX), None);
    assert_eq!(c.facing, Heading { x: 1, y: 0 });
}
