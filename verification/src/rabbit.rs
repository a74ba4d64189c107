//! Vertical physics of the player character: a position/velocity
//! integrator with gravity and an inelastic ground clamp.
//!
//! Height and velocity are kept in fixed-point units of one hundredth
//! of a terminal cell, so one physics step is exact integer
//! arithmetic: the jump strength is one cell per tick and gravity
//! takes six hundredths of a cell per tick off the velocity.
use vstd::prelude::*;

verus! {

/// The rabbit's fixed horizontal column.
pub const RABBIT_X_POS: u16 = 5;

/// Width of the rabbit's bounding rectangle, in cells.
pub const RABBIT_WIDTH: u16 = 9;

/// Height of the rabbit's bounding rectangle, in cells.
pub const RABBIT_HEIGHT: u16 = 3;

/// Fixed-point scale: vertical units per terminal cell.
pub const UNITS_PER_CELL: u32 = 100;

/// Upward velocity granted by a jump, in vertical units per tick.
pub const JUMP_STRENGTH: i32 = 100;

/// Velocity lost to gravity on each tick, in vertical units per tick.
pub const GRAVITY: i32 = 6;

/// The player character: a fixed column `x`, a height `y` above the
/// ground and a signed vertical velocity, both in vertical units.
#[derive(Debug, Clone, Copy, PartialEq, Eq, Structural)]
pub struct Rabbit {
    pub x: u16,
    pub y: u32,
    pub velocity: i32,
}

/// The total height still to be gained from an upward velocity `v`:
/// the sum of the velocity series `v, v - GRAVITY, ...` while it stays
/// positive.  Zero for a velocity that is not upward.
pub open spec fn gain(v: int) -> int
    decreases (if v < 0 {
        0int
    } else {
        v
    }),
{
    if v <= 0 {
        0
    } else {
        v + gain(v - GRAVITY)
    }
}

/// The remaining gain is never negative, and at least the velocity itself.
pub proof fn lemma_gain_bounds(v: int)
    ensures
        gain(v) >= 0,
        gain(v) >= v,
    decreases (if v < 0 {
        0int
    } else {
        v
    }),
{
    if v > 0 {
        lemma_gain_bounds(v - GRAVITY);
    }
}

/// The gain of a full jump, evaluated: the arithmetic series
/// 100 + 94 + ... + 4.
pub proof fn lemma_gain_jump()
    ensures
        gain(JUMP_STRENGTH as int) == 884,
{
    reveal_with_fuel(gain, 19);
}

impl Rabbit {
    /// Reachable physics states: the velocity never exceeds the jump
    /// strength, never falls further than one gravity step below the
    /// fastest landing speed, and the height plus the gain still ahead
    /// never exceeds the height of a full jump arc.
    pub open spec fn wf(self) -> bool {
        &&& self.velocity <= JUMP_STRENGTH
        &&& self.velocity + gain(JUMP_STRENGTH as int) + GRAVITY >= 0
        &&& self.y + gain(self.velocity as int) <= gain(JUMP_STRENGTH as int)
    }
}

/// One physics step: the height moves by the current velocity and the
/// velocity loses one gravity step; a height at or below the ground
/// instead lands the rabbit, with height and velocity exactly zero.
pub open spec fn physics_step(r: Rabbit) -> Rabbit {
    if r.y + r.velocity <= 0 {
        Rabbit { y: 0, velocity: 0, ..r }
    } else {
        Rabbit { y: (r.y + r.velocity) as u32, velocity: (r.velocity - GRAVITY) as i32, ..r }
    }
}

/// A jump from the ground (height zero, not ascending) sets the
/// velocity to the jump strength; anything else is a no-op.
pub open spec fn jump_spec(r: Rabbit) -> Rabbit {
    if r.y == 0 && r.velocity <= 0 {
        Rabbit { velocity: JUMP_STRENGTH, ..r }
    } else {
        r
    }
}

/// The screen row of the rabbit's top edge when the ground line is at
/// row `ground_render_y`: the rabbit stands `RABBIT_HEIGHT` cells tall
/// on top of its height above the ground, clamped at the top of the
/// screen.
pub open spec fn top_y_spec(r: Rabbit, ground_render_y: u16) -> u16 {
    if r.y + RABBIT_HEIGHT * UNITS_PER_CELL >= ground_render_y * UNITS_PER_CELL {
        0u16
    } else {
        ((ground_render_y * UNITS_PER_CELL - RABBIT_HEIGHT * UNITS_PER_CELL - r.y) / (
        UNITS_PER_CELL as int)) as u16
    }
}

impl Rabbit {
    /// A grounded rabbit at the fixed start column.
    pub fn new() -> (r: Rabbit)
        ensures
            r == (Rabbit { x: RABBIT_X_POS, y: 0u32, velocity: 0i32 }),
            r.wf(),
    {
        proof {
            lemma_gain_bounds(JUMP_STRENGTH as int);
        }
        Rabbit { x: RABBIT_X_POS, y: 0, velocity: 0 }
    }

    /// Advances height by the current velocity, then applies gravity to
    /// the velocity; a descent to or below the ground lands the rabbit
    /// with height and velocity exactly zero.
    pub fn update_physics(&mut self)
        requires
            old(self).wf(),
        ensures
            *final(self) == physics_step(*old(self)),
            final(self).wf(),
    {
        proof {
            lemma_gain_jump();
            lemma_gain_bounds(old(self).velocity as int);
            lemma_gain_bounds(old(self).velocity - GRAVITY);
        }
        let ny: i64 = self.y as i64 + self.velocity as i64;
        if ny <= 0 {
            self.y = 0;
            self.velocity = 0;
        } else {
            self.y = ny as u32;
            self.velocity = self.velocity - GRAVITY;
        }
    }

    /// Sets the velocity to the jump strength, but only when grounded
    /// (height zero and not ascending); otherwise does nothing.
    pub fn jump(&mut self)
        requires
            old(self).wf(),
        ensures
            *final(self) == jump_spec(*old(self)),
            final(self).wf(),
    {
        if self.y == 0 && self.velocity <= 0 {
            self.velocity = JUMP_STRENGTH;
        }
    }

    /// The screen row of the rabbit's top edge, given the row of the
    /// ground line.
    pub fn get_top_y(&self, ground_render_y: u16) -> (top: u16)
        requires
            self.wf(),
        ensures
            top == top_y_spec(*self, ground_render_y),
    {
        proof {
            lemma_gain_jump();
            lemma_gain_bounds(self.velocity as int);
        }
        let total: u32 = (ground_render_y as u32) * UNITS_PER_CELL;
        let occupied: u32 = (RABBIT_HEIGHT as u32) * UNITS_PER_CELL + self.y;
        if occupied >= total {
            0
        } else {
            ((total - occupied) / UNITS_PER_CELL) as u16
        }
    }
}

/// Law: a physics step never yields a negative height, and the step
/// that would otherwise carry the rabbit below the ground instead
/// lands it with height and velocity both exactly zero.
pub proof fn lemma_ground_clamp(r: Rabbit)
    requires
        r.wf(),
    ensures
        physics_step(r).y >= 0,
        r.y + r.velocity <= 0 ==> physics_step(r).y == 0 && physics_step(r).velocity == 0,
        physics_step(r).y == 0 ==> physics_step(r).velocity == 0,
{
    lemma_gain_jump();
    lemma_gain_bounds(r.velocity as int);
}

/// Law: a jump is a no-op while airborne or still ascending; from a
/// grounded state it sets the velocity to exactly the jump strength.
pub proof fn lemma_jump_guard(r: Rabbit)
    ensures
        r.y > 0 || r.velocity > 0 ==> jump_spec(r) == r,
        r.y == 0 && r.velocity <= 0 ==> jump_spec(r) == (Rabbit {
            velocity: JUMP_STRENGTH,
            ..r
        }),
{
}

/// Law: landing and rebound.  The physics step that returns the rabbit
/// to the ground leaves height and velocity exactly zero, and an
/// immediate second jump succeeds: the velocity becomes the jump
/// strength again.
pub proof fn lemma_land_then_jump(r: Rabbit)
    requires
        r.wf(),
        r.y + r.velocity <= 0,
    ensures
        physics_step(r).y == 0,
        physics_step(r).velocity == 0,
        jump_spec(physics_step(r)).velocity == JUMP_STRENGTH,
{
}

} // verus!
