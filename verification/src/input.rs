//! The input mapper: pressed keys become additions to the velocity of the
//! controlled entity.

use crate::fixed::{sat_add, saturate, SCALE};
use crate::vector::{Axes, AxesView, Vec3, Vec3View};
use vstd::prelude::*;

verus! {

/// What the jump key adds to the vertical velocity.
pub const JUMP_IMPULSE: i64 = 500_000;

/// The keys that are down in one frame.
#[derive(Clone, Copy, Debug, PartialEq, Eq, Structural)]
pub struct Keys {
    pub left: bool,
    pub right: bool,
    pub back: bool,
    pub forward: bool,
    pub jump: bool,
}

impl Keys {
    /// Whether any key is down.
    pub open spec fn any(self) -> bool {
        self.left || self.right || self.back || self.forward || self.jump
    }

    /// No key down.
    pub fn none() -> (r: Keys)
        ensures
            !r.any(),
    {
        Keys { left: false, right: false, back: false, forward: false, jump: false }
    }
}

/// The directions in which the movement keys push.
#[derive(Clone, Copy, Debug, PartialEq, Eq, Structural)]
pub enum ControlScheme {
    /// Along the world's axes, whichever way the entity faces.
    WorldAxis,
    /// Along the entity's own axes.
    OrientationRelative,
}

/// The axes along which the keys push under `scheme`, for an entity with the
/// local axes `axes`.
pub open spec fn steering_axes(scheme: ControlScheme, axes: AxesView) -> AxesView {
    match scheme {
        ControlScheme::WorldAxis => AxesView::identity(),
        ControlScheme::OrientationRelative => axes,
    }
}

/// `v` with `direction` added if the key is down.
pub open spec fn pushed(v: Vec3View, pressed: bool, direction: Vec3View) -> Vec3View {
    if pressed {
        v.plus(direction)
    } else {
        v
    }
}

/// `v` with the jump impulse added if the key is down.
pub open spec fn jumped(v: Vec3View, pressed: bool) -> Vec3View {
    if pressed {
        Vec3View { x: v.x, y: saturate(v.y + JUMP_IMPULSE), z: v.z }
    } else {
        v
    }
}

/// The velocity `v` after the keys have acted on it: left, right, back and
/// forward each add their direction, in this order, then the jump key adds
/// its impulse.
pub open spec fn accelerated(v: Vec3View, keys: Keys, axes: AxesView) -> Vec3View {
    jumped(
        pushed(
            pushed(
                pushed(pushed(v, keys.left, axes.left()), keys.right, axes.right()),
                keys.back,
                axes.back(),
            ),
            keys.forward,
            axes.forward(),
        ),
        keys.jump,
    )
}

/// Lets the movement keys push a velocity along the given axes, and the jump
/// key push it upward.
pub fn accelerate(velocity: Vec3, keys: Keys, axes: &Axes) -> (r: Vec3)
    ensures
        r@ == accelerated(velocity@, keys, axes@),
{
    let mut v: Vec3 = velocity;
    if keys.left {
        v = v.plus(axes.left());
    }
    if keys.right {
        v = v.plus(axes.right());
    }
    if keys.back {
        v = v.plus(axes.back());
    }
    if keys.forward {
        v = v.plus(axes.forward());
    }
    if keys.jump {
        v = Vec3 { x: v.x, y: sat_add(v.y, JUMP_IMPULSE), z: v.z };
    }
    v
}

/// Applies one frame of key presses to the velocity of the controlled entity.
///
/// `axes` are the entity's local axes; the world-axis scheme does not read
/// them. The velocity is not limited here: a key held down adds to it in
/// every frame.
pub fn move_cube(velocity: &mut Vec3, keys: Keys, scheme: ControlScheme, axes: &Axes)
    ensures
        final(velocity)@ == accelerated(old(velocity)@, keys, steering_axes(scheme, axes@)),
        !keys.any() ==> *final(velocity) == *old(velocity),
{
    match scheme {
        ControlScheme::WorldAxis => {
            let world: Axes = Axes::identity();
            *velocity = accelerate(*velocity, keys, &world);
        },
        ControlScheme::OrientationRelative => {
            *velocity = accelerate(*velocity, keys, axes);
        },
    }
}

/// With no key down the velocity stays as it is.
pub proof fn no_keys_no_change(velocity: Vec3, keys: Keys, axes: Axes)
    requires
        !keys.any(),
    ensures
        accelerated(velocity@, keys, axes@) == velocity@,
{
}

/// Under the world-axis scheme left and right move the X velocity by one unit
/// down and up, back and forward move the Z velocity by one unit up and down,
/// and jump adds its impulse to the Y velocity.
pub proof fn world_axis_scheme(velocity: Vec3, keys: Keys, axes: Axes)
    ensures
        accelerated(velocity@, keys, steering_axes(ControlScheme::WorldAxis, axes@)) == (Vec3View {
            x: world_axis_x(velocity.x as int, keys),
            y: world_axis_y(velocity.y as int, keys),
            z: world_axis_z(velocity.z as int, keys),
        }),
{
}

/// The X velocity after the left and right keys, under the world-axis scheme.
pub open spec fn world_axis_x(x: int, keys: Keys) -> int {
    let after_left = if keys.left {
        saturate(x - SCALE)
    } else {
        x
    };
    if keys.right {
        saturate(after_left + SCALE)
    } else {
        after_left
    }
}

/// The Y velocity after the jump key.
pub open spec fn world_axis_y(y: int, keys: Keys) -> int {
    if keys.jump {
        saturate(y + JUMP_IMPULSE)
    } else {
        y
    }
}

/// The Z velocity after the back and forward keys, under the world-axis
/// scheme.
pub open spec fn world_axis_z(z: int, keys: Keys) -> int {
    let after_back = if keys.back {
        saturate(z + SCALE)
    } else {
        z
    };
    if keys.forward {
        saturate(after_back - SCALE)
    } else {
        after_back
    }
}

} // verus!
