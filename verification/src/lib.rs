//! A minimal two-paddle game: a fixed-size virtual world, two
//! keyboard-controlled paddles that move vertically, and a per-frame
//! transform that scales world coordinates to the current viewport.
//!
//! All world lengths are stored in milliunits (one thousandth of a world
//! unit) and all durations in milliseconds, so every position update and
//! every viewport transform is exact integer arithmetic.

use vstd::prelude::*;

pub mod game;
pub mod paddle;

verus! {

/// World lengths are stored in milliunits: one thousandth of a world unit.
pub const MILLIUNITS_PER_UNIT: u64 = 1000;

/// Width of the virtual world, in world units.
pub const WORLD_WIDTH_UNITS: u64 = 200;

/// Height of the virtual world, in world units.
pub const WORLD_HEIGHT_UNITS: u64 = 200;

/// Width of the virtual world, in milliunits.
pub const WORLD_WIDTH_MU: u64 = WORLD_WIDTH_UNITS * MILLIUNITS_PER_UNIT;

/// Height of the virtual world, in milliunits.
pub const WORLD_HEIGHT_MU: u64 = WORLD_HEIGHT_UNITS * MILLIUNITS_PER_UNIT;

/// Width of a paddle (10 world units), in milliunits.
pub const PADDLE_WIDTH_MU: u64 = 10 * MILLIUNITS_PER_UNIT;

/// Height of a paddle (50 world units), in milliunits.
pub const PADDLE_HEIGHT_MU: u64 = 50 * MILLIUNITS_PER_UNIT;

/// Paddle speed in milliunits per millisecond, which equals 150 world
/// units per second.
pub const PADDLE_SPEED: u64 = 150;

/// Greatest y coordinate a paddle's top edge can take: the paddle's
/// bottom edge then rests on the world's lower boundary.
pub const PADDLE_TRAVEL_MU: u64 = WORLD_HEIGHT_MU - PADDLE_HEIGHT_MU;

/// Milliseconds a paddle needs to cross its whole travel range.
pub const FULL_TRAVEL_MS: u64 = PADDLE_TRAVEL_MU / PADDLE_SPEED;

/// Starting y of both paddles: vertically centered in the world.
pub const CENTER_Y_MU: u64 = WORLD_HEIGHT_MU / 2 - PADDLE_HEIGHT_MU / 2;

/// Logical key code of the left paddle's move-up key (the letter w).
pub const KEY_W: u32 = 119;

/// Logical key code of the left paddle's move-down key (the letter s).
pub const KEY_S: u32 = 115;

/// Logical key code of the right paddle's move-up key (the letter i).
pub const KEY_I: u32 = 105;

/// Logical key code of the right paddle's move-down key (the letter k).
pub const KEY_K: u32 = 107;

} // verus!
