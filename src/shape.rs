//! The closed set of collision shapes and their classification.

use vstd::prelude::*;
use crate::scalar::Real;
use crate::math::Vector;

verus! {

/// Which geometric representation a collider holds.
#[derive(Clone, Copy, Debug, PartialEq, Eq, Structural)]
pub enum ShapeType {
    Ball,
    Polygon,
    Cuboid,
    Capsule,
    Triangle,
    Trimesh,
    HeightField,
}

/// A collision shape and its geometric parameters.
#[derive(Clone, Debug)]
pub enum Shape {
    /// A ball centred at the origin.
    Ball { radius: Real },
    /// A convex polygon given by its vertices.
    Polygon { vertices: Vec<Vector> },
    /// A box centred at the origin, given by its half-widths along each axis.
    Cuboid { half_extents: Vector },
    /// A segment along the `y` axis, inflated by `radius`.
    Capsule { half_height: Real, radius: Real },
    /// A triangle given by its three vertices.
    Triangle { a: Vector, b: Vector, c: Vector },
    /// A triangle mesh: vertices, and three vertex indices per triangle.
    Trimesh { vertices: Vec<Vector>, indices: Vec<[u32; 3]> },
    /// A grid of `nrows` by `ncols` heights, in the kernel's grid order,
    /// scaled along each axis.
    HeightField { nrows: u32, ncols: u32, heights: Vec<Real>, scale: Vector },
}

impl Shape {
    /// The kind of this shape: a pure function of which variant it is.
    pub open spec fn spec_shape_type(&self) -> ShapeType {
        match self {
            Shape::Ball { .. } => ShapeType::Ball,
            Shape::Polygon { .. } => ShapeType::Polygon,
            Shape::Cuboid { .. } => ShapeType::Cuboid,
            Shape::Capsule { .. } => ShapeType::Capsule,
            Shape::Triangle { .. } => ShapeType::Triangle,
            Shape::Trimesh { .. } => ShapeType::Trimesh,
            Shape::HeightField { .. } => ShapeType::HeightField,
        }
    }

    /// The half-extents of a cuboid; nothing for any other shape.
    pub open spec fn spec_half_extents(&self) -> Option<Vector> {
        match self {
            Shape::Cuboid { half_extents } => Some(*half_extents),
            _ => None,
        }
    }

    /// The radius of a ball; nothing for any other shape.
    pub open spec fn spec_radius(&self) -> Option<Real> {
        match self {
            Shape::Ball { radius } => Some(*radius),
            _ => None,
        }
    }

    /// The kind of this shape.
    #[verifier::when_used_as_spec(spec_shape_type)]
    pub fn shape_type(&self) -> (r: ShapeType)
        ensures
            r == self.spec_shape_type(),
    {
        match self {
            Shape::Ball { .. } => ShapeType::Ball,
            Shape::Polygon { .. } => ShapeType::Polygon,
            Shape::Cuboid { .. } => ShapeType::Cuboid,
            Shape::Capsule { .. } => ShapeType::Capsule,
            Shape::Triangle { .. } => ShapeType::Triangle,
            Shape::Trimesh { .. } => ShapeType::Trimesh,
            Shape::HeightField { .. } => ShapeType::HeightField,
        }
    }

    /// The half-extents of this shape if it is a cuboid.
    #[verifier::when_used_as_spec(spec_half_extents)]
    pub fn half_extents(&self) -> (r: Option<Vector>)
        ensures
            r == self.spec_half_extents(),
    {
        match self {
            Shape::Cuboid { half_extents } => Some(*half_extents),
            _ => None,
        }
    }

    /// The radius of this shape if it is a ball.
    #[verifier::when_used_as_spec(spec_radius)]
    pub fn radius(&self) -> (r: Option<Real>)
        ensures
            r == self.spec_radius(),
    {
        match self {
            Shape::Ball { radius } => Some(*radius),
            _ => None,
        }
    }
}

/// A shape has half-extents exactly when it is classified as a cuboid, and a
/// radius exactly when it is classified as a ball.
pub proof fn lemma_queries_follow_kind(s: Shape)
    ensures
        s.half_extents().is_some() <==> s.shape_type() == ShapeType::Cuboid,
        s.radius().is_some() <==> s.shape_type() == ShapeType::Ball,
{
}

} // verus!
