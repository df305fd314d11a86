use vstd::prelude::*;

verus! {

/// Scale applied to every displacement, on top of elapsed time and speed. It
/// compensates an observed shortfall in distance covered per frame whose cause
/// is not yet understood; keep it until expected distances are checked again.
pub const HACK: u64 = 5;

/// Which of the four arrow keys are held down this frame.
#[derive(Clone, Copy, Debug, PartialEq, Eq, Structural)]
pub struct HeldKeys {
    pub left: bool,
    pub right: bool,
    pub up: bool,
    pub down: bool,
}

/// A net direction: each coordinate is -1, 0 or 1, and not both are 0.
///
/// Sprites face 180 degrees, so the left key points along +x; up points along
/// +y. The facing angle is `atan2(y, x)`, one of eight directions.
#[derive(Clone, Copy, Debug, PartialEq, Eq, Structural)]
pub struct Heading {
    pub x: i8,
    pub y: i8,
}

/// Movement for one frame: the player moves `magnitude` nanometres against the
/// heading, that is by `-magnitude * (cos a, sin a)` with `a = atan2(y, x)`.
#[derive(Clone, Copy, Debug, PartialEq, Eq, Structural)]
pub struct Step {
    pub heading: Heading,
    pub magnitude: u64,
}

pub open spec fn unit(held: bool) -> int {
    if held { 1 } else { 0 }
}

/// The net direction of a set of held keys, before the zero check.
pub open spec fn net_direction(keys: HeldKeys) -> (int, int) {
    (unit(keys.left) - unit(keys.right), unit(keys.up) - unit(keys.down))
}

impl Heading {
    pub open spec fn wf(self) -> bool {
        &&& -1 <= self.x <= 1
        &&& -1 <= self.y <= 1
        &&& !(self.x == 0 && self.y == 0)
    }
}

pub struct InstantController {
    /// Which of the 8 directions are we facing, based on the last set of keys pressed down?
    pub facing: Heading,
}

impl InstantController {
    pub open spec fn wf(&self) -> bool {
        self.facing.wf()
    }

    /// Starts facing angle zero, the +x direction.
    pub fn new() -> (r: InstantController)
        ensures
            r.wf(),
            r.facing == (Heading { x: 1, y: 0 }),
    {
        InstantController { facing: Heading { x: 1, y: 0 } }
    }

    /// Movement for this frame, given the elapsed time `dt` in microseconds if a
    /// frame is due, the held keys, and a speed in millimetres per second.
    ///
    /// No frame, or keys that cancel out, give `None` and leave the facing as it
    /// was. Otherwise the facing becomes the net direction and the step has
    /// length `dt * HACK * speed` nanometres.
    pub fn displacement(&mut self, dt: Option<u64>, keys: HeldKeys, speed: u64) -> (r: Option<Step>)
        requires
            dt is Some && net_direction(keys) != (0int, 0int) ==> dt.unwrap() * HACK * speed <= u64::MAX,
        ensures
            ({
                let (x, y) = net_direction(keys);
                if dt is None || (x == 0 && y == 0) {
                    r is None && final(self).facing == old(self).facing
                } else {
                    &&& final(self).facing.x == x
                    &&& final(self).facing.y == y
                    &&& r == Some(Step { heading: final(self).facing, magnitude: (dt.unwrap() * HACK * speed) as u64 })
                }
            }),
            old(self).wf() ==> final(self).wf(),
    {
        let dt = match dt {
            Some(dt) => dt,
            None => return None,
        };
        let mut x: i8 = 0;
        let mut y: i8 = 0;
        if keys.left {
            x = x + 1;
        }
        if keys.right {
            x = x - 1;
        }
        if keys.up {
            y = y + 1;
        }
        if keys.down {
            y = y - 1;
        }
        if x == 0 && y == 0 {
            return None;
        }
        self.facing = Heading { x, y };
        let magnitude: u64 = if speed == 0 {
            0
        } else {
            assert(dt * HACK <= dt * HACK * speed) by (nonlinear_arith)
                requires
                    speed >= 1,
            ;
            dt * HACK * speed
        };
        Some(Step { heading: self.facing, magnitude })
    }
}

} // verus!
