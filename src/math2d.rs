//! Two-dimensional linear-algebra primitives.

use vstd::prelude::*;
use crate::scalar::Real;

verus! {

/// A unit complex number describing a two-dimensional orientation.
#[derive(Clone, Copy, Debug, PartialEq, Eq, Structural)]
pub struct Rotation {
    pub re: Real,
    pub im: Real,
}

impl Rotation {
    /// The identity rotation: the complex number `1 + 0i`.
    pub open spec fn spec_identity() -> Rotation {
        Rotation { re: Real::spec_one(), im: Real::spec_zero() }
    }

    /// The identity rotation.
    pub fn identity() -> (r: Rotation)
        ensures
            r == Rotation::spec_identity(),
    {
        Rotation { re: Real::one(), im: Real::zero() }
    }

    /// The imaginary part of this complex number.
    pub fn im(&self) -> (r: Real)
        ensures
            r == self.im,
    {
        self.im
    }

    /// The real part of this complex number.
    pub fn re(&self) -> (r: Real)
        ensures
            r == self.re,
    {
        self.re
    }
}

/// A two-dimensional vector.
#[derive(Clone, Copy, Debug, PartialEq, Eq, Structural)]
pub struct Vector {
    pub x: Real,
    pub y: Real,
}

impl Vector {
    /// The vector `{y, x}`.
    pub open spec fn spec_yx(&self) -> Vector {
        Vector { x: self.y, y: self.x }
    }

    /// Creates a new vector filled with zeros.
    pub fn zero() -> (r: Vector)
        ensures
            r.x == Real::spec_zero(),
            r.y == Real::spec_zero(),
    {
        Vector { x: Real::zero(), y: Real::zero() }
    }

    /// Creates a new vector from its two components.
    pub fn new(x: Real, y: Real) -> (r: Vector)
        ensures
            r.x == x,
            r.y == y,
    {
        Vector { x, y }
    }

    /// The `x` component of this vector.
    pub fn x(&self) -> (r: Real)
        ensures
            r == self.x,
    {
        self.x
    }

    /// Sets the `x` component of this vector.
    pub fn set_x(&mut self, x: Real)
        ensures
            *final(self) == (Vector { x, y: old(self).y }),
    {
        self.x = x;
    }

    /// The `y` component of this vector.
    pub fn y(&self) -> (r: Real)
        ensures
            r == self.y,
    {
        self.y
    }

    /// Sets the `y` component of this vector.
    pub fn set_y(&mut self, y: Real)
        ensures
            *final(self) == (Vector { x: old(self).x, y }),
    {
        self.y = y;
    }

    /// A new vector with the components of this one arranged as `{x, y}`: a copy.
    pub fn xy(&self) -> (r: Vector)
        ensures
            r == *self,
    {
        Vector { x: self.x, y: self.y }
    }

    /// A new vector with the components of this one arranged as `{y, x}`.
    #[verifier::when_used_as_spec(spec_yx)]
    pub fn yx(&self) -> (r: Vector)
        ensures
            r == self.spec_yx(),
    {
        Vector { x: self.y, y: self.x }
    }
}

/// Swapping the two components twice gives the vector back.
pub proof fn lemma_yx_involutive(v: Vector)
    ensures
        v.yx().yx() == v,
{
}

} // verus!
