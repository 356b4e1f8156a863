//! The follow controller: the camera sits at a fixed offset from the
//! controlled entity and moves with its velocity.

use crate::fixed::SCALE;
use crate::integrator::{Body, BodyView};
use crate::vector::{Axes, AxesView, Vec3, Vec3View};
use vstd::prelude::*;

verus! {

/// Where the camera sits relative to the controlled entity.
#[derive(Clone, Copy, Debug, PartialEq, Eq, Structural)]
pub enum FollowMode {
    /// At `offset` from the entity, along the world's axes.
    World { offset: Vec3 },
    /// At `weights.x`, `weights.y` and `weights.z` times the entity's local
    /// X, Y and Z directions: an offset that turns with the entity.
    Local { weights: Vec3 },
}

impl FollowMode {
    /// One unit above the entity.
    pub open spec fn above_spec() -> FollowMode {
        FollowMode::World { offset: Vec3 { x: 0, y: SCALE, z: 0 } }
    }

    /// One unit above the entity.
    #[verifier::when_used_as_spec(above_spec)]
    pub fn above() -> (r: FollowMode)
        ensures
            r == Self::above_spec(),
    {
        FollowMode::World { offset: Vec3 { x: 0, y: SCALE, z: 0 } }
    }

    /// One unit to the entity's right, one above it and three behind it.
    pub open spec fn chase_spec() -> FollowMode {
        FollowMode::Local { weights: Vec3 { x: SCALE, y: SCALE, z: 3_000_000 } }
    }

    /// One unit to the entity's right, one above it and three behind it.
    #[verifier::when_used_as_spec(chase_spec)]
    pub fn chase() -> (r: FollowMode)
        ensures
            r == Self::chase_spec(),
    {
        FollowMode::Local { weights: Vec3 { x: SCALE, y: SCALE, z: 3_000_000 } }
    }

    /// The offset of the camera from an entity with the local axes `axes`.
    pub open spec fn offset(self, axes: AxesView) -> Vec3View {
        match self {
            FollowMode::World { offset } => offset@,
            FollowMode::Local { weights } => axes.x.scaled(weights.x as int).plus(
                axes.y.scaled(weights.y as int),
            ).plus(axes.z.scaled(weights.z as int)),
        }
    }

    /// The offset of the camera from an entity with the local axes `axes`.
    pub fn camera_offset(&self, axes: &Axes) -> (r: Vec3)
        ensures
            r@ == self.offset(axes@),
    {
        match self {
            FollowMode::World { offset } => *offset,
            FollowMode::Local { weights } => axes.x.scaled(weights.x).plus(
                axes.y.scaled(weights.y),
            ).plus(axes.z.scaled(weights.z)),
        }
    }
}

/// Where the camera belongs and how fast it moves, given the controlled
/// entity.
pub open spec fn followed(cube: BodyView, mode: FollowMode, axes: AxesView) -> BodyView {
    BodyView { position: cube.position.plus(mode.offset(axes)), velocity: cube.velocity }
}

/// Puts the camera at its offset from the controlled entity, with no lag, and
/// gives it that entity's velocity.
///
/// `axes` are the controlled entity's local axes; a world offset does not
/// read them.
pub fn move_camera(camera: &mut Body, cube: &Body, mode: FollowMode, axes: &Axes)
    ensures
        final(camera)@ == followed(cube@, mode, axes@),
{
    camera.position = cube.position.plus(mode.camera_offset(axes));
    camera.velocity = cube.velocity;
}

/// A world offset puts the camera at the entity's position plus that offset,
/// whichever way the entity faces.
pub proof fn world_offset_ignores_axes(cube: Body, offset: Vec3, axes: Axes)
    ensures
        followed(cube@, FollowMode::World { offset }, axes@) == (BodyView {
            position: cube@.position.plus(offset@),
            velocity: cube@.velocity,
        }),
{
}

} // verus!
