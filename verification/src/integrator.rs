//! The integrator: one fixed time step of motion, the ground rule, and
//! friction on the horizontal axes.

use crate::fixed::{quotient, sat_add, sat_sub, saturate};
use crate::vector::{Vec3, Vec3View};
use vstd::prelude::*;

verus! {

/// Steps in one second; a step lasts one sixtieth of a second.
pub const TICKS_PER_SECOND: i64 = 60;

/// Height at which an entity rests on the ground plane.
pub const GROUND_HEIGHT: i64 = 500_000;

/// What an airborne entity's vertical velocity loses in one step.
pub const GRAVITY: i64 = 100_000;

/// What friction takes from a horizontal velocity in one step.
pub const FRICTION: i64 = 500_000;

/// How friction treats a horizontal velocity.
#[derive(Clone, Copy, Debug, PartialEq, Eq, Structural)]
pub enum Damping {
    /// Always moves the velocity by `FRICTION` toward zero, and so may carry
    /// a small velocity past zero.
    Overshoot,
    /// Moves a velocity beyond `FRICTION` toward zero and brings any other to
    /// rest.
    Deadzone,
}

/// The distance covered in one step at velocity `v`.
pub open spec fn displacement(v: int) -> int {
    quotient(v, TICKS_PER_SECOND as int)
}

/// A horizontal velocity after one step of friction.
pub open spec fn damped(v: int, damping: Damping) -> int {
    match damping {
        Damping::Overshoot => if v > 0 {
            v - FRICTION
        } else if v < 0 {
            v + FRICTION
        } else {
            v
        },
        Damping::Deadzone => if v > FRICTION {
            v - FRICTION
        } else if v < -FRICTION {
            v + FRICTION
        } else {
            0
        },
    }
}

/// A horizontal velocity after `n` steps of friction.
pub open spec fn damped_times(v: int, damping: Damping, n: nat) -> int
    decreases n,
{
    if n == 0 {
        v
    } else {
        damped_times(damped(v, damping), damping, (n - 1) as nat)
    }
}

/// The mathematical value of a [`Body`].
pub struct BodyView {
    pub position: Vec3View,
    pub velocity: Vec3View,
}

impl BodyView {
    /// The position after moving for one step at the current velocity.
    pub open spec fn advanced(self) -> Vec3View {
        Vec3View {
            x: saturate(self.position.x + displacement(self.velocity.x)),
            y: saturate(self.position.y + displacement(self.velocity.y)),
            z: saturate(self.position.z + displacement(self.velocity.z)),
        }
    }

    /// Height after the step: an entity found below the ground is put on it.
    pub open spec fn landed_height(self) -> int {
        if self.advanced().y < GROUND_HEIGHT {
            GROUND_HEIGHT as int
        } else {
            self.advanced().y
        }
    }

    /// Vertical velocity after the step: gravity pulls on an entity above the
    /// ground, one found below it stops, one exactly on it is left alone.
    pub open spec fn landed_velocity(self) -> int {
        if self.advanced().y > GROUND_HEIGHT {
            saturate(self.velocity.y - GRAVITY)
        } else if self.advanced().y < GROUND_HEIGHT {
            0
        } else {
            self.velocity.y
        }
    }

    /// The body after one step.
    pub open spec fn stepped(self, damping: Damping) -> BodyView {
        BodyView {
            position: Vec3View {
                x: self.advanced().x,
                y: self.landed_height(),
                z: self.advanced().z,
            },
            velocity: Vec3View {
                x: damped(self.velocity.x, damping),
                y: self.landed_velocity(),
                z: damped(self.velocity.z, damping),
            },
        }
    }

    /// The body after `n` steps.
    pub open spec fn stepped_times(self, damping: Damping, n: nat) -> BodyView
        decreases n,
    {
        if n == 0 {
            self
        } else {
            self.stepped(damping).stepped_times(damping, (n - 1) as nat)
        }
    }
}

/// Where an entity is and how fast it moves.
#[derive(Clone, Copy, Debug, PartialEq, Eq, Structural)]
pub struct Body {
    pub position: Vec3,
    pub velocity: Vec3,
}

impl View for Body {
    type V = BodyView;

    open spec fn view(&self) -> BodyView {
        BodyView { position: self.position@, velocity: self.velocity@ }
    }
}

/// One step of friction on a horizontal velocity.
pub fn damp(v: i64, damping: Damping) -> (r: i64)
    ensures
        r as int == damped(v as int, damping),
{
    match damping {
        Damping::Overshoot => if v > 0 {
            v - FRICTION
        } else if v < 0 {
            v + FRICTION
        } else {
            v
        },
        Damping::Deadzone => if v > FRICTION {
            v - FRICTION
        } else if v < -FRICTION {
            v + FRICTION
        } else {
            0
        },
    }
}

/// Advances a body by one step: moves it by its velocity, applies the ground
/// rule to its height and vertical velocity, then friction to its horizontal
/// velocity.
pub fn integrate(body: Body, damping: Damping) -> (r: Body)
    ensures
        r@ == body@.stepped(damping),
{
    let x: i64 = sat_add(body.position.x, body.velocity.x / TICKS_PER_SECOND);
    let mut y: i64 = sat_add(body.position.y, body.velocity.y / TICKS_PER_SECOND);
    let z: i64 = sat_add(body.position.z, body.velocity.z / TICKS_PER_SECOND);
    let mut vy: i64 = body.velocity.y;
    if y > GROUND_HEIGHT {
        vy = sat_sub(vy, GRAVITY);
    } else if y < GROUND_HEIGHT {
        vy = 0;
        y = GROUND_HEIGHT;
    }
    Body {
        position: Vec3 { x, y, z },
        velocity: Vec3 {
            x: damp(body.velocity.x, damping),
            y: vy,
            z: damp(body.velocity.z, damping),
        },
    }
}

/// An entity at or below the ground that does not climb in this step rests on
/// the ground after it, with no vertical velocity.
///
/// The entity does not climb if the step leaves it below the ground, or if it
/// has no vertical velocity at all.
pub proof fn ground_clamp(body: Body, damping: Damping)
    requires
        body.position.y <= GROUND_HEIGHT,
        body.position.y + displacement(body.velocity.y as int) < GROUND_HEIGHT
            || body.velocity.y == 0,
    ensures
        body@.stepped(damping).position.y == GROUND_HEIGHT,
        body@.stepped(damping).velocity.y == 0,
{
}

/// An entity above the ground that stays above it gains height by its
/// velocity times the step, and loses `GRAVITY` from its vertical velocity,
/// as long as both results can be held.
pub proof fn gravity_accumulates(body: Body, damping: Damping)
    requires
        body.position.y > GROUND_HEIGHT,
        GROUND_HEIGHT < body.position.y + displacement(body.velocity.y as int) <= i64::MAX,
        body.velocity.y - GRAVITY >= i64::MIN,
    ensures
        body@.stepped(damping).velocity.y == body.velocity.y - GRAVITY,
        body@.stepped(damping).position.y == body.position.y + displacement(
            body.velocity.y as int,
        ),
{
}

/// With a dead zone, a horizontal velocity within `FRICTION` of zero is at
/// rest after one step, and a larger one is exactly `FRICTION` closer to zero.
pub proof fn deadzone_step(body: Body)
    ensures
        -FRICTION <= body.velocity.x <= FRICTION ==> body@.stepped(
            Damping::Deadzone,
        ).velocity.x == 0,
        body.velocity.x > FRICTION ==> body@.stepped(Damping::Deadzone).velocity.x
            == body.velocity.x - FRICTION,
        body.velocity.x < -FRICTION ==> body@.stepped(Damping::Deadzone).velocity.x
            == body.velocity.x + FRICTION,
        -FRICTION <= body.velocity.z <= FRICTION ==> body@.stepped(
            Damping::Deadzone,
        ).velocity.z == 0,
        body.velocity.z > FRICTION ==> body@.stepped(Damping::Deadzone).velocity.z
            == body.velocity.z - FRICTION,
        body.velocity.z < -FRICTION ==> body@.stepped(Damping::Deadzone).velocity.z
            == body.velocity.z + FRICTION,
{
}

/// With a dead zone, `n` steps of friction take `n * FRICTION` from the size
/// of a velocity and stop at zero: the velocity never changes sign, and once
/// at rest it stays at rest.
pub proof fn deadzone_converges(v: int, n: nat)
    ensures
        v >= 0 ==> damped_times(v, Damping::Deadzone, n) == (if v > n * FRICTION {
            v - n * FRICTION
        } else {
            0
        }),
        v <= 0 ==> damped_times(v, Damping::Deadzone, n) == (if v < -(n * FRICTION) {
            v + n * FRICTION
        } else {
            0
        }),
    decreases n,
{
    if n > 0 {
        deadzone_converges(damped(v, Damping::Deadzone), (n - 1) as nat);
    }
}

/// With a dead zone, friction never turns a velocity around and never makes
/// it larger, and a velocity at rest stays at rest.
pub proof fn deadzone_keeps_sign(v: int, n: nat)
    ensures
        v >= 0 ==> 0 <= damped_times(v, Damping::Deadzone, n) <= v,
        v <= 0 ==> v <= damped_times(v, Damping::Deadzone, n) <= 0,
        n * FRICTION >= v && n * FRICTION >= -v ==> damped_times(v, Damping::Deadzone, n) == 0,
{
    deadzone_converges(v, n);
}

/// Without a dead zone, a velocity that lies strictly between zero and
/// `FRICTION` never comes to rest: every second step gives it back.
pub proof fn overshoot_oscillates(v: int)
    requires
        0 < v < FRICTION || -FRICTION < v < 0,
    ensures
        damped(v, Damping::Overshoot) != 0,
        damped(damped(v, Damping::Overshoot), Damping::Overshoot) == v,
{
}

/// The horizontal velocities of a body after `n` steps are its first ones
/// after `n` steps of friction: nothing else in a step touches them.
pub proof fn steps_damp_horizontally(body: BodyView, damping: Damping, n: nat)
    ensures
        body.stepped_times(damping, n).velocity.x == damped_times(body.velocity.x, damping, n),
        body.stepped_times(damping, n).velocity.z == damped_times(body.velocity.z, damping, n),
    decreases n,
{
    if n > 0 {
        steps_damp_horizontally(body.stepped(damping), damping, (n - 1) as nat);
    }
}

} // verus!
