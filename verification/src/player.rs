//! The player entity: horizontal and vertical position plus a vertical
//! velocity, with gravity integration, forward motion and a flap impulse.
//!
//! Velocity is held in fixed point, in tenths of a cell per physics step:
//! gravity adds 0.2 cells per step (2 tenths) up to a terminal velocity of
//! 2.0 cells per step (20 tenths), and a flap sets the velocity to -2.0
//! cells per step (-20 tenths). Every velocity the game produces is an even
//! number of tenths, and the position moved per step is the velocity
//! truncated to whole cells.

use vstd::prelude::*;

verus! {

/// Velocity gained per physics step, in tenths of a cell.
pub const GRAVITY_TENTHS: i32 = 2;

/// Terminal (largest downward) velocity, in tenths of a cell per step.
pub const TERMINAL_VELOCITY_TENTHS: i32 = 20;

/// Velocity set by a flap, in tenths of a cell per step.
pub const FLAP_VELOCITY_TENTHS: i32 = -20;

pub struct Player {
    /// Horizontal position; never decreases.
    pub x: i32,
    /// Vertical position, growing downward; never negative.
    pub y: i32,
    /// Vertical velocity in tenths of a cell per physics step.
    pub velocity: i32,
}

impl Player {
    /// The velocities the game can produce: bounded by the terminal velocity
    /// on both sides and always a whole number of gravity increments.
    pub open spec fn wf(self) -> bool {
        &&& FLAP_VELOCITY_TENTHS <= self.velocity <= TERMINAL_VELOCITY_TENTHS
        &&& self.velocity % 2 == 0
        &&& self.y >= 0
    }

    pub fn new(x: i32, y: i32) -> (p: Player)
        ensures
            p.x == x,
            p.y == y,
            p.velocity == 0,
    {
        Player { x, y, velocity: 0 }
    }

    pub fn apply_gravity(&mut self)
        requires
            old(self).wf(),
            old(self).y + 2 <= i32::MAX,
        ensures
            *final(self) == gravity_applied(*old(self)),
            final(self).wf(),
            final(self).y >= 0,
            old(self).velocity < TERMINAL_VELOCITY_TENTHS
                ==> final(self).velocity == old(self).velocity + GRAVITY_TENTHS,
            final(self).velocity <= TERMINAL_VELOCITY_TENTHS,
    {
        if self.velocity < TERMINAL_VELOCITY_TENTHS {
            self.velocity = self.velocity + GRAVITY_TENTHS;
        }
        let step: i32 = if self.velocity >= 0 {
            self.velocity / 10
        } else {
            -((-self.velocity) / 10)
        };
        self.y = self.y + step;
        if self.y < 0 {
            self.y = 0;
        }
    }

    pub fn move_forward(&mut self)
        requires
            old(self).x < i32::MAX,
        ensures
            final(self).x == old(self).x + 1,
            final(self).y == old(self).y,
            final(self).velocity == old(self).velocity,
    {
        self.x = self.x + 1;
    }

    pub fn flap_wings(&mut self)
        ensures
            final(self).velocity == FLAP_VELOCITY_TENTHS,
            final(self).x == old(self).x,
            final(self).y == old(self).y,
    {
        self.velocity = FLAP_VELOCITY_TENTHS;
    }
}

/// Cells moved per step by a velocity in tenths: truncation toward zero.
pub open spec fn vel_step(v: int) -> int {
    if v >= 0 {
        v / 10
    } else {
        -((-v) / 10)
    }
}

/// One gravity step: the velocity grows by the gravity increment until it
/// reaches terminal velocity, the vertical position moves by the whole-cell
/// part of the new velocity, and the result is clamped to the top of the
/// screen (position zero).
pub open spec fn gravity_applied(p: Player) -> Player {
    let v2 = if p.velocity < TERMINAL_VELOCITY_TENTHS {
        p.velocity + GRAVITY_TENTHS
    } else {
        p.velocity as int
    };
    let y2 = p.y + vel_step(v2);
    Player {
        x: p.x,
        y: if y2 < 0 { 0 } else { y2 as i32 },
        velocity: v2 as i32,
    }
}

} // verus!
