//! The whole game state: the two paddles, the per-tick update, and the
//! transform from world coordinates to viewport pixels.

use vstd::prelude::*;

verus! {

use crate::paddle::direction_after_press;
use crate::paddle::direction_after_release;
use crate::paddle::y_after_update;
use crate::paddle::Paddle;
use crate::CENTER_Y_MU;
use crate::KEY_I;
use crate::KEY_K;
use crate::KEY_S;
use crate::KEY_W;
use crate::PADDLE_HEIGHT_MU;
use crate::PADDLE_WIDTH_MU;
use crate::WORLD_HEIGHT_MU;
use crate::WORLD_HEIGHT_UNITS;
use crate::WORLD_WIDTH_MU;
use crate::WORLD_WIDTH_UNITS;

/// An axis-aligned rectangle on the viewport, in millipixels: one
/// thousandth of a pixel, so that fractional pixel positions are exact.
pub struct PixelRect {
    /// x of the top-left corner, in millipixels.
    pub x_mpx: u64,
    /// y of the top-left corner, in millipixels.
    pub y_mpx: u64,
    /// Width, in millipixels.
    pub width_mpx: u64,
    /// Height, in millipixels.
    pub height_mpx: u64,
}

/// What one frame draws: the frame is cleared to black and each paddle
/// is a solid white rectangle at its scaled viewport position.
pub struct Frame {
    /// The left paddle's rectangle, in millipixels.
    pub left: PixelRect,
    /// The right paddle's rectangle, in millipixels.
    pub right: PixelRect,
}

/// A world length scaled to the viewport, in millipixels: the length in
/// milliunits times the viewport extent in pixels over the world extent
/// in whole units, rounded down. The factor of one thousand carried by
/// the milliunits turns pixels into millipixels.
pub open spec fn scaled_mpx(len_mu: int, view_px: int, world_units: int) -> int {
    len_mu * view_px / world_units
}

/// A world length scaled to the viewport along one axis.
fn scale_to_mpx(len_mu: u64, view_px: u32, world_units: u64) -> (r: u64)
    requires
        len_mu <= WORLD_WIDTH_MU,
        len_mu <= WORLD_HEIGHT_MU,
        1 <= world_units,
    ensures
        r == scaled_mpx(len_mu as int, view_px as int, world_units as int),
{
    proof {
        let l: int = len_mu as int;
        let v: int = view_px as int;
        assert(0 <= l * v <= 200000 * 4294967295) by (nonlinear_arith)
            requires
                0 <= l <= 200000,
                0 <= v <= 4294967295,
        ;
    }
    len_mu * (view_px as u64) / world_units
}

/// The scale factor from world units to viewport pixels along one axis,
/// in thousandths of a pixel per unit: the viewport extent in pixels
/// times one thousand over the world extent in units, rounded down.
pub fn scale_millis(view_px: u32, world_units: u64) -> (r: u64)
    requires
        1 <= world_units,
    ensures
        r == (view_px as int) * 1000 / (world_units as int),
{
    (view_px as u64) * 1000 / world_units
}

/// The viewport rectangle one paddle is drawn as: its world position and
/// the shared paddle size, each scaled to the viewport axis by axis.
pub fn paddle_rect(p: &Paddle, viewport_width_px: u32, viewport_height_px: u32) -> (r: PixelRect)
    requires
        p.wf(),
    ensures
        r.x_mpx == scaled_mpx(p.x_mu as int, viewport_width_px as int, WORLD_WIDTH_UNITS as int),
        r.y_mpx == scaled_mpx(p.y_mu as int, viewport_height_px as int, WORLD_HEIGHT_UNITS as int),
        r.width_mpx == scaled_mpx(PADDLE_WIDTH_MU as int, viewport_width_px as int, WORLD_WIDTH_UNITS as int),
        r.height_mpx == scaled_mpx(PADDLE_HEIGHT_MU as int, viewport_height_px as int, WORLD_HEIGHT_UNITS as int),
{
    PixelRect {
        x_mpx: scale_to_mpx(p.x_mu, viewport_width_px, WORLD_WIDTH_UNITS),
        y_mpx: scale_to_mpx(p.y_mu, viewport_height_px, WORLD_HEIGHT_UNITS),
        width_mpx: scale_to_mpx(PADDLE_WIDTH_MU, viewport_width_px, WORLD_WIDTH_UNITS),
        height_mpx: scale_to_mpx(PADDLE_HEIGHT_MU, viewport_height_px, WORLD_HEIGHT_UNITS),
    }
}

/// The game state: two paddles flush against opposite walls.
pub struct App {
    /// The paddle on the left wall, driven by the w and s keys.
    pub left: Paddle,
    /// The paddle on the right wall, driven by the i and k keys.
    pub right: Paddle,
}

impl App {
    /// Both paddles sit inside the world.
    pub open spec fn wf(&self) -> bool {
        &&& self.left.wf()
        &&& self.right.wf()
    }

    /// The starting state: both paddles motionless and vertically
    /// centered, flush against opposite walls, with mirrored bindings.
    pub fn new() -> (a: App)
        ensures
            a.wf(),
            a.left.up == KEY_W,
            a.left.down == KEY_S,
            a.left.x_mu == 0,
            a.left.y_mu == CENTER_Y_MU,
            a.left.direction is None,
            a.right.up == KEY_I,
            a.right.down == KEY_K,
            a.right.x_mu == WORLD_WIDTH_MU - PADDLE_WIDTH_MU,
            a.right.y_mu == CENTER_Y_MU,
            a.right.direction is None,
    {
        App {
            left: Paddle::new(KEY_W, KEY_S, 0, CENTER_Y_MU),
            right: Paddle::new(KEY_I, KEY_K, WORLD_WIDTH_MU - PADDLE_WIDTH_MU, CENTER_Y_MU),
        }
    }

    /// True exactly when both paddles sit inside the world; lets
    /// unverified callers test the update and render preconditions at
    /// run time.
    pub fn is_well_formed(&self) -> (b: bool)
        ensures
            b == self.wf(),
    {
        self.left.in_bounds() && self.right.in_bounds()
    }

    /// Hand a key press to both paddles: each reacts only to its own
    /// bindings.
    pub fn on_key_press(&mut self, key: u32)
        ensures
            final(self).left.direction == direction_after_press(old(self).left.up, old(self).left.down, old(self).left.direction, key),
            final(self).right.direction == direction_after_press(old(self).right.up, old(self).right.down, old(self).right.direction, key),
            final(self).left.up == old(self).left.up,
            final(self).left.down == old(self).left.down,
            final(self).left.x_mu == old(self).left.x_mu,
            final(self).left.y_mu == old(self).left.y_mu,
            final(self).right.up == old(self).right.up,
            final(self).right.down == old(self).right.down,
            final(self).right.x_mu == old(self).right.x_mu,
            final(self).right.y_mu == old(self).right.y_mu,
    {
        self.left.on_key_press(key);
        self.right.on_key_press(key);
    }

    /// Hand a key release to both paddles: each clears its direction only
    /// for the key that set it.
    pub fn on_key_release(&mut self, key: u32)
        ensures
            final(self).left.direction == direction_after_release(old(self).left.up, old(self).left.down, old(self).left.direction, key),
            final(self).right.direction == direction_after_release(old(self).right.up, old(self).right.down, old(self).right.direction, key),
            final(self).left.up == old(self).left.up,
            final(self).left.down == old(self).left.down,
            final(self).left.x_mu == old(self).left.x_mu,
            final(self).left.y_mu == old(self).left.y_mu,
            final(self).right.up == old(self).right.up,
            final(self).right.down == old(self).right.down,
            final(self).right.x_mu == old(self).right.x_mu,
            final(self).right.y_mu == old(self).right.y_mu,
    {
        self.left.on_key_release(key);
        self.right.on_key_release(key);
    }

    /// One timed update tick: integrate both paddles' positions over the
    /// elapsed milliseconds.
    pub fn update(&mut self, dt_ms: u64)
        requires
            old(self).wf(),
        ensures
            final(self).wf(),
            final(self).left.y_mu == y_after_update(old(self).left.y_mu as int, old(self).left.direction, dt_ms as int),
            final(self).right.y_mu == y_after_update(old(self).right.y_mu as int, old(self).right.direction, dt_ms as int),
            final(self).left.up == old(self).left.up,
            final(self).left.down == old(self).left.down,
            final(self).left.x_mu == old(self).left.x_mu,
            final(self).left.direction == old(self).left.direction,
            final(self).right.up == old(self).right.up,
            final(self).right.down == old(self).right.down,
            final(self).right.x_mu == old(self).right.x_mu,
            final(self).right.direction == old(self).right.direction,
    {
        self.left.update_position(dt_ms);
        self.right.update_position(dt_ms);
    }

    /// One render tick: the rectangles both paddles are drawn as, scaled
    /// to the current viewport.
    pub fn render(&self, viewport_width_px: u32, viewport_height_px: u32) -> (f: Frame)
        requires
            self.wf(),
        ensures
            f.left.x_mpx == scaled_mpx(self.left.x_mu as int, viewport_width_px as int, WORLD_WIDTH_UNITS as int),
            f.left.y_mpx == scaled_mpx(self.left.y_mu as int, viewport_height_px as int, WORLD_HEIGHT_UNITS as int),
            f.left.width_mpx == scaled_mpx(PADDLE_WIDTH_MU as int, viewport_width_px as int, WORLD_WIDTH_UNITS as int),
            f.left.height_mpx == scaled_mpx(PADDLE_HEIGHT_MU as int, viewport_height_px as int, WORLD_HEIGHT_UNITS as int),
            f.right.x_mpx == scaled_mpx(self.right.x_mu as int, viewport_width_px as int, WORLD_WIDTH_UNITS as int),
            f.right.y_mpx == scaled_mpx(self.right.y_mu as int, viewport_height_px as int, WORLD_HEIGHT_UNITS as int),
            f.right.width_mpx == scaled_mpx(PADDLE_WIDTH_MU as int, viewport_width_px as int, WORLD_WIDTH_UNITS as int),
            f.right.height_mpx == scaled_mpx(PADDLE_HEIGHT_MU as int, viewport_height_px as int, WORLD_HEIGHT_UNITS as int),
    {
        Frame {
            left: paddle_rect(&self.left, viewport_width_px, viewport_height_px),
            right: paddle_rect(&self.right, viewport_width_px, viewport_height_px),
        }
    }
}

} // verus!
