//! Three-component vectors and local axes, in fixed-point.

use crate::fixed::{product, sat_add, sat_mul, sat_sub, saturate, SCALE};
use vstd::prelude::*;

verus! {

/// The mathematical value of a [`Vec3`]: three raw fixed-point numbers.
pub struct Vec3View {
    pub x: int,
    pub y: int,
    pub z: int,
}

impl Vec3View {
    /// The vector whose components are all zero.
    pub open spec fn zero() -> Vec3View {
        Vec3View { x: 0, y: 0, z: 0 }
    }

    /// Component-wise saturating sum.
    pub open spec fn plus(self, other: Vec3View) -> Vec3View {
        Vec3View {
            x: saturate(self.x + other.x),
            y: saturate(self.y + other.y),
            z: saturate(self.z + other.z),
        }
    }

    /// The vector pointing the other way.
    pub open spec fn negated(self) -> Vec3View {
        Vec3View { x: saturate(-self.x), y: saturate(-self.y), z: saturate(-self.z) }
    }

    /// Every component multiplied by the fixed-point factor `k`.
    pub open spec fn scaled(self, k: int) -> Vec3View {
        Vec3View { x: product(k, self.x), y: product(k, self.y), z: product(k, self.z) }
    }
}

/// A vector of three fixed-point numbers.
#[derive(Clone, Copy, Debug, PartialEq, Eq, Structural)]
pub struct Vec3 {
    pub x: i64,
    pub y: i64,
    pub z: i64,
}

impl View for Vec3 {
    type V = Vec3View;

    open spec fn view(&self) -> Vec3View {
        Vec3View { x: self.x as int, y: self.y as int, z: self.z as int }
    }
}

impl Vec3 {
    pub fn new(x: i64, y: i64, z: i64) -> (r: Vec3)
        ensures
            r == (Vec3 { x, y, z }),
    {
        Vec3 { x, y, z }
    }

    pub fn zero() -> (r: Vec3)
        ensures
            r@ == Vec3View::zero(),
    {
        Vec3 { x: 0, y: 0, z: 0 }
    }

    /// Component-wise saturating sum.
    pub fn plus(self, other: Vec3) -> (r: Vec3)
        ensures
            r@ == self@.plus(other@),
    {
        Vec3 {
            x: sat_add(self.x, other.x),
            y: sat_add(self.y, other.y),
            z: sat_add(self.z, other.z),
        }
    }

    /// The vector pointing the other way.
    pub fn negated(self) -> (r: Vec3)
        ensures
            r@ == self@.negated(),
    {
        Vec3 { x: sat_sub(0, self.x), y: sat_sub(0, self.y), z: sat_sub(0, self.z) }
    }

    /// Every component multiplied by the fixed-point factor `k`.
    pub fn scaled(self, k: i64) -> (r: Vec3)
        ensures
            r@ == self@.scaled(k as int),
    {
        Vec3 { x: sat_mul(k, self.x), y: sat_mul(k, self.y), z: sat_mul(k, self.z) }
    }
}

/// The mathematical value of an [`Axes`].
pub struct AxesView {
    pub x: Vec3View,
    pub y: Vec3View,
    pub z: Vec3View,
}

impl AxesView {
    /// The axes of an entity that has not been turned.
    pub open spec fn identity() -> AxesView {
        AxesView {
            x: Vec3View { x: SCALE as int, y: 0, z: 0 },
            y: Vec3View { x: 0, y: SCALE as int, z: 0 },
            z: Vec3View { x: 0, y: 0, z: SCALE as int },
        }
    }

    pub open spec fn left(self) -> Vec3View {
        self.x.negated()
    }

    pub open spec fn right(self) -> Vec3View {
        self.x
    }

    pub open spec fn forward(self) -> Vec3View {
        self.z.negated()
    }

    pub open spec fn back(self) -> Vec3View {
        self.z
    }
}

/// The local X, Y and Z directions of an entity, in world coordinates.
///
/// Forward is the negative local Z direction and left the negative local X
/// direction.
#[derive(Clone, Copy, Debug, PartialEq, Eq, Structural)]
pub struct Axes {
    pub x: Vec3,
    pub y: Vec3,
    pub z: Vec3,
}

impl View for Axes {
    type V = AxesView;

    open spec fn view(&self) -> AxesView {
        AxesView { x: self.x@, y: self.y@, z: self.z@ }
    }
}

impl Axes {
    /// The axes of an entity that has not been turned.
    pub fn identity() -> (r: Axes)
        ensures
            r@ == AxesView::identity(),
    {
        Axes {
            x: Vec3 { x: SCALE, y: 0, z: 0 },
            y: Vec3 { x: 0, y: SCALE, z: 0 },
            z: Vec3 { x: 0, y: 0, z: SCALE },
        }
    }

    pub fn left(&self) -> (r: Vec3)
        ensures
            r@ == self@.left(),
    {
        self.x.negated()
    }

    pub fn right(&self) -> (r: Vec3)
        ensures
            r@ == self@.right(),
    {
        self.x
    }

    pub fn forward(&self) -> (r: Vec3)
        ensures
            r@ == self@.forward(),
    {
        self.z.negated()
    }

    pub fn back(&self) -> (r: Vec3)
        ensures
            r@ == self@.back(),
    {
        self.z
    }
}

} // verus!
