//! Three-dimensional linear-algebra primitives.

use vstd::prelude::*;
use crate::scalar::Real;
use crate::math2d;

verus! {

/// A unit quaternion `xi + yj + zk + w` describing a three-dimensional orientation.
#[derive(Clone, Copy, Debug, PartialEq, Eq, Structural)]
pub struct Rotation {
    pub x: Real,
    pub y: Real,
    pub z: Real,
    pub w: Real,
}

impl Rotation {
    /// The identity quaternion `0i + 0j + 0k + 1`, the rotation that moves nothing.
    pub open spec fn spec_identity() -> Rotation {
        Rotation { x: Real::spec_zero(), y: Real::spec_zero(), z: Real::spec_zero(), w: Real::spec_one() }
    }

    /// The identity quaternion.
    pub fn identity() -> (r: Rotation)
        ensures
            r == Rotation::spec_identity(),
    {
        Rotation { x: Real::zero(), y: Real::zero(), z: Real::zero(), w: Real::one() }
    }

    /// The `x` component of this quaternion.
    pub fn x(&self) -> (r: Real)
        ensures
            r == self.x,
    {
        self.x
    }

    /// The `y` component of this quaternion.
    pub fn y(&self) -> (r: Real)
        ensures
            r == self.y,
    {
        self.y
    }

    /// The `z` component of this quaternion.
    pub fn z(&self) -> (r: Real)
        ensures
            r == self.z,
    {
        self.z
    }

    /// The `w` component of this quaternion.
    pub fn w(&self) -> (r: Real)
        ensures
            r == self.w,
    {
        self.w
    }
}

/// A rigid displacement: a rotation followed by a translation.
#[derive(Clone, Copy, Debug, PartialEq, Eq, Structural)]
pub struct Isometry {
    pub translation: Vector,
    pub rotation: Rotation,
}

impl Isometry {
    /// The displacement that moves nothing.
    pub open spec fn spec_identity() -> Isometry {
        Isometry { translation: Vector::spec_zero(), rotation: Rotation::spec_identity() }
    }

    /// The displacement that moves nothing.
    pub fn identity() -> (r: Isometry)
        ensures
            r == Isometry::spec_identity(),
    {
        Isometry { translation: Vector::zero(), rotation: Rotation::identity() }
    }
}

/// A three-dimensional vector.
#[derive(Clone, Copy, Debug, PartialEq, Eq, Structural)]
pub struct Vector {
    pub x: Real,
    pub y: Real,
    pub z: Real,
}

impl Vector {
    /// The vector with all components `+0.0`.
    pub open spec fn spec_zero() -> Vector {
        Vector { x: Real::spec_zero(), y: Real::spec_zero(), z: Real::spec_zero() }
    }

    pub open spec fn spec_zy(&self) -> math2d::Vector {
        math2d::Vector { x: self.z, y: self.y }
    }

    pub open spec fn spec_xyz(&self) -> Vector {
        Vector { x: self.x, y: self.y, z: self.z }
    }

    pub open spec fn spec_yxz(&self) -> Vector {
        Vector { x: self.y, y: self.x, z: self.z }
    }

    pub open spec fn spec_zxy(&self) -> Vector {
        Vector { x: self.z, y: self.x, z: self.y }
    }

    pub open spec fn spec_xzy(&self) -> Vector {
        Vector { x: self.x, y: self.z, z: self.y }
    }

    pub open spec fn spec_yzx(&self) -> Vector {
        Vector { x: self.y, y: self.z, z: self.x }
    }

    pub open spec fn spec_zyx(&self) -> Vector {
        Vector { x: self.z, y: self.y, z: self.x }
    }

    /// Creates a new vector filled with zeros.
    pub fn zero() -> (r: Vector)
        ensures
            r == Vector::spec_zero(),
    {
        Vector { x: Real::zero(), y: Real::zero(), z: Real::zero() }
    }

    /// Creates a new vector from its three components.
    pub fn new(x: Real, y: Real, z: Real) -> (r: Vector)
        ensures
            r.x == x,
            r.y == y,
            r.z == z,
    {
        Vector { x, y, z }
    }

    /// The `x` component of this vector.
    pub fn x(&self) -> (r: Real)
        ensures
            r == self.x,
    {
        self.x
    }

    /// Sets the `x` component of this vector.
    pub fn set_x(&mut self, x: Real)
        ensures
            *final(self) == (Vector { x, y: old(self).y, z: old(self).z }),
    {
        self.x = x;
    }

    /// The `y` component of this vector.
    pub fn y(&self) -> (r: Real)
        ensures
            r == self.y,
    {
        self.y
    }

    /// Sets the `y` component of this vector.
    pub fn set_y(&mut self, y: Real)
        ensures
            *final(self) == (Vector { x: old(self).x, y, z: old(self).z }),
    {
        self.y = y;
    }

    /// The `z` component of this vector.
    pub fn z(&self) -> (r: Real)
        ensures
            r == self.z,
    {
        self.z
    }

    /// Sets the `z` component of this vector.
    pub fn set_z(&mut self, z: Real)
        ensures
            *final(self) == (Vector { x: old(self).x, y: old(self).y, z }),
    {
        self.z = z;
    }

    /// A new two-dimensional vector made of the `z` and `y` components of this one.
    #[verifier::when_used_as_spec(spec_zy)]
    pub fn zy(&self) -> (r: math2d::Vector)
        ensures
            r == self.spec_zy(),
    {
        math2d::Vector { x: self.z, y: self.y }
    }

    /// A new vector with the components of this one arranged as `{x, y, z}`: a copy.
    #[verifier::when_used_as_spec(spec_xyz)]
    pub fn xyz(&self) -> (r: Vector)
        ensures
            r == self.spec_xyz(),
    {
        Vector { x: self.x, y: self.y, z: self.z }
    }

    /// A new vector with the components of this one arranged as `{y, x, z}`.
    #[verifier::when_used_as_spec(spec_yxz)]
    pub fn yxz(&self) -> (r: Vector)
        ensures
            r == self.spec_yxz(),
    {
        Vector { x: self.y, y: self.x, z: self.z }
    }

    /// A new vector with the components of this one arranged as `{z, x, y}`.
    #[verifier::when_used_as_spec(spec_zxy)]
    pub fn zxy(&self) -> (r: Vector)
        ensures
            r == self.spec_zxy(),
    {
        Vector { x: self.z, y: self.x, z: self.y }
    }

    /// A new vector with the components of this one arranged as `{x, z, y}`.
    #[verifier::when_used_as_spec(spec_xzy)]
    pub fn xzy(&self) -> (r: Vector)
        ensures
            r == self.spec_xzy(),
    {
        Vector { x: self.x, y: self.z, z: self.y }
    }

    /// A new vector with the components of this one arranged as `{y, z, x}`.
    #[verifier::when_used_as_spec(spec_yzx)]
    pub fn yzx(&self) -> (r: Vector)
        ensures
            r == self.spec_yzx(),
    {
        Vector { x: self.y, y: self.z, z: self.x }
    }

    /// A new vector with the components of this one arranged as `{z, y, x}`.
    #[verifier::when_used_as_spec(spec_zyx)]
    pub fn zyx(&self) -> (r: Vector)
        ensures
            r == self.spec_zyx(),
    {
        Vector { x: self.z, y: self.y, z: self.x }
    }
}

/// Swizzles are permutations of the components: `xyz` is the identity, the
/// transpositions `yxz`, `xzy` and `zyx` undo themselves, the two cyclic
/// shifts `zxy` and `yzx` undo each other, and every swizzle keeps the
/// multiset of components.
pub proof fn lemma_swizzles_permute(v: Vector)
    ensures
        v.xyz() == v,
        v.yxz().yxz() == v,
        v.xzy().xzy() == v,
        v.zyx().zyx() == v,
        v.zxy().yzx() == v,
        v.yzx().zxy() == v,
        v.zxy().zxy() == v.yzx(),
        v.zy() == (math2d::Vector { x: v.z, y: v.y }),
{
}

} // verus!
