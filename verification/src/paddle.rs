//! One player's paddle: key bindings, world-space position, and the
//! held-key state that drives its vertical motion.

use vstd::prelude::*;

verus! {

use crate::FULL_TRAVEL_MS;
use crate::PADDLE_SPEED;
use crate::PADDLE_TRAVEL_MU;
use crate::PADDLE_WIDTH_MU;
use crate::WORLD_WIDTH_MU;

/// The direction a paddle is currently moving in. Screen-space y grows
/// downward, so `Up` decreases y and `Down` increases it.
#[derive(Clone, Copy, Debug, PartialEq, Eq, Structural)]
pub enum Direction {
    Up,
    Down,
}

/// One player's control surface: a pair of key bindings, a top-left
/// corner position in world milliunits, and the current held-key state.
pub struct Paddle {
    /// Logical key code that moves this paddle up.
    pub up: u32,
    /// Logical key code that moves this paddle down.
    pub down: u32,
    /// x of the top-left corner, in milliunits; fixed at creation.
    pub x_mu: u64,
    /// y of the top-left corner, in milliunits; clamped after every update.
    pub y_mu: u64,
    /// Current held-key state; the last key pressed wins until released.
    pub direction: Option<Direction>,
}

/// The vertical velocity, in milliunits per millisecond, that a held-key
/// state produces.
pub open spec fn velocity_of(d: Option<Direction>) -> int {
    match d {
        Some(Direction::Up) => -(PADDLE_SPEED as int),
        Some(Direction::Down) => PADDLE_SPEED as int,
        None => 0,
    }
}

/// The held-key state after a key press: the up binding wins over the
/// down binding, and an unrelated key changes nothing.
pub open spec fn direction_after_press(up: u32, down: u32, cur: Option<Direction>, key: u32) -> Option<Direction> {
    if key == up {
        Some(Direction::Up)
    } else if key == down {
        Some(Direction::Down)
    } else {
        cur
    }
}

/// The held-key state after a key release: only releasing the key that
/// set the current direction clears it.
pub open spec fn direction_after_release(up: u32, down: u32, cur: Option<Direction>, key: u32) -> Option<Direction> {
    if cur == Some(Direction::Up) && key == up {
        None
    } else if cur == Some(Direction::Down) && key == down {
        None
    } else {
        cur
    }
}

/// `v` forced into the interval `[lo, hi]`.
pub open spec fn clamped(v: int, lo: int, hi: int) -> int {
    if v < lo {
        lo
    } else if v > hi {
        hi
    } else {
        v
    }
}

/// The y coordinate after integrating the velocity of `d` over `dt_ms`
/// milliseconds and clamping to the paddle's travel range.
pub open spec fn y_after_update(y: int, d: Option<Direction>, dt_ms: int) -> int {
    clamped(y + velocity_of(d) * dt_ms, 0, PADDLE_TRAVEL_MU as int)
}

/// For every starting y within the travel range and every nonnegative
/// elapsed time, the updated y stays within the travel range, however
/// large the elapsed time is.
pub proof fn lemma_update_keeps_bounds(y: int, d: Option<Direction>, dt_ms: int)
    requires
        0 <= y <= PADDLE_TRAVEL_MU,
        0 <= dt_ms,
    ensures
        0 <= y_after_update(y, d, dt_ms) <= PADDLE_TRAVEL_MU,
{
}

/// With no direction held, a position update leaves y unchanged,
/// whatever the elapsed time.
pub proof fn lemma_no_direction_no_motion(y: int, dt_ms: int)
    requires
        0 <= y <= PADDLE_TRAVEL_MU,
    ensures
        y_after_update(y, None, dt_ms) == y,
{
    let v: int = velocity_of(None);
    assert(v * dt_ms == 0) by (nonlinear_arith)
        requires
            v == 0,
    ;
}

/// With distinct bindings, pressing the up key yields the upward
/// velocity, pressing the down key yields the downward velocity, and
/// pressing any other key leaves the velocity unchanged.
pub proof fn lemma_press_sets_velocity(up: u32, down: u32, cur: Option<Direction>, key: u32)
    requires
        up != down,
    ensures
        key == up ==> velocity_of(direction_after_press(up, down, cur, key)) == -(PADDLE_SPEED as int),
        key == down ==> velocity_of(direction_after_press(up, down, cur, key)) == PADDLE_SPEED as int,
        key != up && key != down ==> velocity_of(direction_after_press(up, down, cur, key)) == velocity_of(cur),
{
}

/// Releasing a key other than the one that is driving the current
/// direction leaves the direction unchanged.
pub proof fn lemma_release_other_key_keeps_direction(up: u32, down: u32, cur: Option<Direction>, key: u32)
    requires
        cur == Some(Direction::Up) ==> key != up,
        cur == Some(Direction::Down) ==> key != down,
    ensures
        direction_after_release(up, down, cur, key) == cur,
{
}

/// Pressing one of the paddle's own keys and then releasing that same
/// key returns the direction to idle and the velocity to zero.
pub proof fn lemma_press_then_release_round_trip(up: u32, down: u32, cur: Option<Direction>, key: u32)
    requires
        key == up || key == down,
    ensures
        direction_after_release(up, down, direction_after_press(up, down, cur, key), key) is None,
        velocity_of(direction_after_release(up, down, direction_after_press(up, down, cur, key), key)) == 0,
{
}

/// Bounds on the one product the update step forms: at the paddle's
/// speed of 150 milliunits per millisecond, a step of at least 1000
/// milliseconds covers the whole travel range of 150000 milliunits, and
/// a shorter step stays within it.
proof fn lemma_speed_step(dt: int)
    by (nonlinear_arith)
    requires
        0 <= dt,
    ensures
        0 <= 150 * dt,
        dt >= 1000 ==> 150 * dt >= 150000,
        dt <= 1000 ==> 150 * dt <= 150000,
{
}

impl Paddle {
    /// The paddle sits inside the world: its bottom edge never passes the
    /// world's lower boundary and its right edge never passes the right wall.
    pub open spec fn wf(&self) -> bool {
        &&& self.y_mu <= PADDLE_TRAVEL_MU
        &&& self.x_mu <= WORLD_WIDTH_MU - PADDLE_WIDTH_MU
    }

    /// A motionless paddle with the given bindings and position.
    pub fn new(up: u32, down: u32, x_mu: u64, y_mu: u64) -> (p: Paddle)
        requires
            x_mu <= WORLD_WIDTH_MU - PADDLE_WIDTH_MU,
            y_mu <= PADDLE_TRAVEL_MU,
        ensures
            p.up == up,
            p.down == down,
            p.x_mu == x_mu,
            p.y_mu == y_mu,
            p.direction is None,
            p.wf(),
    {
        Paddle { up, down, x_mu, y_mu, direction: None }
    }

    /// True exactly when the paddle sits inside the world; lets
    /// unverified callers test the update precondition at run time.
    pub fn in_bounds(&self) -> (b: bool)
        ensures
            b == self.wf(),
    {
        self.y_mu <= PADDLE_TRAVEL_MU && self.x_mu <= WORLD_WIDTH_MU - PADDLE_WIDTH_MU
    }

    /// The paddle's current vertical velocity, in milliunits per
    /// millisecond.
    pub fn y_velocity(&self) -> (v: i64)
        ensures
            v == velocity_of(self.direction),
    {
        match self.direction {
            Some(Direction::Up) => -(PADDLE_SPEED as i64),
            Some(Direction::Down) => PADDLE_SPEED as i64,
            None => 0,
        }
    }

    /// Record a key press: the paddle's own bindings set the direction,
    /// any other key is ignored.
    pub fn on_key_press(&mut self, key: u32)
        ensures
            final(self).direction == direction_after_press(old(self).up, old(self).down, old(self).direction, key),
            final(self).up == old(self).up,
            final(self).down == old(self).down,
            final(self).x_mu == old(self).x_mu,
            final(self).y_mu == old(self).y_mu,
    {
        if key == self.up {
            self.direction = Some(Direction::Up)
        } else if key == self.down {
            self.direction = Some(Direction::Down)
        }
    }

    /// Record a key release: only the key that set the current direction
    /// clears it, any other key is ignored.
    pub fn on_key_release(&mut self, key: u32)
        ensures
            final(self).direction == direction_after_release(old(self).up, old(self).down, old(self).direction, key),
            final(self).up == old(self).up,
            final(self).down == old(self).down,
            final(self).x_mu == old(self).x_mu,
            final(self).y_mu == old(self).y_mu,
    {
        match self.direction {
            Some(Direction::Up) => {
                if key == self.up {
                    self.direction = None;
                }
            },
            Some(Direction::Down) => {
                if key == self.down {
                    self.direction = None;
                }
            },
            None => {},
        }
    }

    /// Integrate the current velocity over `dt_ms` milliseconds and clamp
    /// the resulting y to the paddle's travel range.
    pub fn update_position(&mut self, dt_ms: u64)
        requires
            old(self).wf(),
        ensures
            final(self).y_mu == y_after_update(old(self).y_mu as int, old(self).direction, dt_ms as int),
            final(self).wf(),
            final(self).up == old(self).up,
            final(self).down == old(self).down,
            final(self).x_mu == old(self).x_mu,
            final(self).direction == old(self).direction,
    {
        // Past one full-travel time the clamp pins the paddle to the
        // boundary it is moving toward, so larger steps move it no further.
        let dt_capped_ms: u64 = if dt_ms > FULL_TRAVEL_MS {
            FULL_TRAVEL_MS
        } else {
            dt_ms
        };
        proof {
            lemma_speed_step(dt_ms as int);
            lemma_speed_step(dt_capped_ms as int);
        }
        match self.direction {
            None => {
                proof {
                    let v: int = velocity_of(old(self).direction);
                    assert(v * (dt_ms as int) == 0) by (nonlinear_arith)
                        requires
                            v == 0,
                    ;
                }
            },
            Some(Direction::Down) => {
                let moved_mu: u64 = self.y_mu + PADDLE_SPEED * dt_capped_ms;
                self.y_mu = if moved_mu > PADDLE_TRAVEL_MU {
                    PADDLE_TRAVEL_MU
                } else {
                    moved_mu
                };
            },
            Some(Direction::Up) => {
                let step_mu: u64 = PADDLE_SPEED * dt_capped_ms;
                self.y_mu = if step_mu > self.y_mu {
                    0
                } else {
                    self.y_mu - step_mu
                };
            },
        }
    }
}

} // verus!
