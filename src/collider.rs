//! Collider descriptors and the handle wrappers through which colliders and
//! their parent bodies are read and changed.
//!
//! A wrapper holds nothing but a handle. Every operation is handed the store it
//! reads or writes, looks the handle up there, and fails with `DanglingHandle`
//! when the row is gone: no value is ever cached in a wrapper, so any number of
//! wrappers on one handle observe the same row.

use vstd::prelude::*;
use crate::scalar::Real;
use crate::math::{Isometry, Rotation, Vector};
use crate::shape::{Shape, ShapeType};
use crate::store::{
    BodyRow, ColliderHandle, ColliderRow, ColliderSet, DanglingHandle, RigidBodyHandle,
    RigidBodySet,
};

verus! {

/// The bit pattern of `0.5`, the kernel's default friction coefficient.
pub const DEFAULT_FRICTION_BITS: u32 = 0x3f00_0000;

/// The bit pattern of `1.0`, the kernel's default density.
pub const DEFAULT_DENSITY_BITS: u32 = 0x3f80_0000;

/// Relies on `rapier3d::geometry::ColliderBuilder::default_friction`, which returns `0.5`.
#[verifier::external_body]
fn kernel_default_friction() -> (r: Real)
    ensures
        r.bits == DEFAULT_FRICTION_BITS,
{
    Real { bits: rapier3d::geometry::ColliderBuilder::default_friction().to_bits() }
}

/// Relies on `rapier3d::geometry::ColliderBuilder::default_density`, which returns `1.0`.
#[verifier::external_body]
fn kernel_default_density() -> (r: Real)
    ensures
        r.bits == DEFAULT_DENSITY_BITS,
{
    Real { bits: rapier3d::geometry::ColliderBuilder::default_density().to_bits() }
}

/// Relies on `rapier3d::geometry::ColliderBuilder::default`, which goes through
/// `ColliderBuilder::new`: restitution `0.0`, position `Pose::IDENTITY` (zero
/// translation, quaternion `0i + 0j + 0k + 1`), not a sensor.
#[verifier::external_body]
fn kernel_default_placement() -> (r: (Real, Isometry, bool))
    ensures
        r.0 == Real::spec_zero(),
        r.1 == Isometry::spec_identity(),
        !r.2,
{
    let b = rapier3d::geometry::ColliderBuilder::default();
    let (t, q) = (b.position.translation, b.position.rotation);
    let translation = Vector {
        x: Real { bits: t.x.to_bits() },
        y: Real { bits: t.y.to_bits() },
        z: Real { bits: t.z.to_bits() },
    };
    let rotation = Rotation {
        x: Real { bits: q.x.to_bits() },
        y: Real { bits: q.y.to_bits() },
        z: Real { bits: q.z.to_bits() },
        w: Real { bits: q.w.to_bits() },
    };
    (Real { bits: b.restitution.to_bits() }, Isometry { translation, rotation }, b.is_sensor)
}

/// Why a collider descriptor could not be built.
#[derive(Clone, Copy, Debug, PartialEq, Eq, Structural)]
pub enum DescError {
    /// A ball radius that is not greater than zero.
    NonPositiveRadius,
    /// A cuboid half-extent that is not greater than or equal to zero.
    NegativeHalfExtent,
}

/// The description of a collider to be constructed.
#[derive(Clone, Debug)]
pub struct ColliderDesc {
    pub shape: Shape,
    /// The density of the collider to be constructed.
    pub density: Real,
    /// The friction coefficient of the collider to be constructed.
    pub friction: Real,
    /// The restitution coefficient of the collider to be constructed.
    pub restitution: Real,
    /// The position of the collider relative to its parent body.
    pub delta: Isometry,
    /// Whether the collider only detects overlaps.
    pub is_sensor: bool,
}

/// The kernel-side form of a collider description, field for field.
#[derive(Clone, Debug)]
pub struct ColliderBuilder {
    pub shape: Shape,
    pub density: Real,
    pub friction: Real,
    pub restitution: Real,
    pub delta: Isometry,
    pub is_sensor: bool,
}

/// The builder with the fields of a descriptor.
pub open spec fn builder_of(d: ColliderDesc) -> ColliderBuilder {
    ColliderBuilder {
        shape: d.shape,
        density: d.density,
        friction: d.friction,
        restitution: d.restitution,
        delta: d.delta,
        is_sensor: d.is_sensor,
    }
}

/// The descriptor with the fields of a builder.
pub open spec fn desc_of(b: ColliderBuilder) -> ColliderDesc {
    ColliderDesc {
        shape: b.shape,
        density: b.density,
        friction: b.friction,
        restitution: b.restitution,
        delta: b.delta,
        is_sensor: b.is_sensor,
    }
}

impl From<ColliderDesc> for ColliderBuilder {
    fn from(desc: ColliderDesc) -> (r: ColliderBuilder) {
        ColliderBuilder {
            shape: desc.shape,
            density: desc.density,
            friction: desc.friction,
            restitution: desc.restitution,
            delta: desc.delta,
            is_sensor: desc.is_sensor,
        }
    }
}

impl vstd::std_specs::convert::FromSpecImpl<ColliderDesc> for ColliderBuilder {
    open spec fn obeys_from_spec() -> bool {
        true
    }

    open spec fn from_spec(desc: ColliderDesc) -> ColliderBuilder {
        builder_of(desc)
    }
}

impl From<ColliderBuilder> for ColliderDesc {
    fn from(bldr: ColliderBuilder) -> (r: ColliderDesc) {
        ColliderDesc {
            shape: bldr.shape,
            density: bldr.density,
            friction: bldr.friction,
            restitution: bldr.restitution,
            delta: bldr.delta,
            is_sensor: bldr.is_sensor,
        }
    }
}

impl vstd::std_specs::convert::FromSpecImpl<ColliderBuilder> for ColliderDesc {
    open spec fn obeys_from_spec() -> bool {
        true
    }

    open spec fn from_spec(bldr: ColliderBuilder) -> ColliderDesc {
        desc_of(bldr)
    }
}

/// Converting a descriptor to the kernel's builder and back gives every field
/// back unchanged, and so does the round trip that starts from a builder.
pub proof fn lemma_desc_builder_round_trip(d: ColliderDesc, b: ColliderBuilder)
    ensures
        desc_of(builder_of(d)) == d,
        builder_of(desc_of(b)) == b,
{
}

impl ColliderDesc {
    /// A descriptor for `shape` with the kernel's default coefficients, no
    /// offset from the parent body, and not a sensor.
    pub open spec fn spec_with_defaults(shape: Shape) -> ColliderDesc {
        ColliderDesc {
            shape,
            density: Real { bits: DEFAULT_DENSITY_BITS },
            friction: Real { bits: DEFAULT_FRICTION_BITS },
            restitution: Real::spec_zero(),
            delta: Isometry::spec_identity(),
            is_sensor: false,
        }
    }

    fn with_defaults(shape: Shape) -> (r: ColliderDesc)
        ensures
            r == ColliderDesc::spec_with_defaults(shape),
    {
        let (restitution, delta, is_sensor) = kernel_default_placement();
        ColliderDesc {
            shape,
            density: kernel_default_density(),
            friction: kernel_default_friction(),
            restitution,
            delta,
            is_sensor,
        }
    }

    /// A descriptor of a ball of the given radius, which must be greater than zero.
    pub fn ball(radius: Real) -> (r: Result<ColliderDesc, DescError>)
        ensures
            radius.spec_is_positive() ==> r == Ok::<ColliderDesc, DescError>(
                ColliderDesc::spec_with_defaults(Shape::Ball { radius }),
            ),
            !radius.spec_is_positive() ==> r == Err::<ColliderDesc, DescError>(
                DescError::NonPositiveRadius,
            ),
    {
        if radius.is_positive() {
            Ok(ColliderDesc::with_defaults(Shape::Ball { radius }))
        } else {
            Err(DescError::NonPositiveRadius)
        }
    }

    /// A descriptor of a cuboid with the given half-widths along the local
    /// `x`, `y` and `z` axes, each of which must be at least zero.
    pub fn cuboid(hx: Real, hy: Real, hz: Real) -> (r: Result<ColliderDesc, DescError>)
        ensures
            hx.spec_is_non_negative() && hy.spec_is_non_negative() && hz.spec_is_non_negative()
                ==> r == Ok::<ColliderDesc, DescError>(ColliderDesc::spec_with_defaults(
                Shape::Cuboid { half_extents: Vector { x: hx, y: hy, z: hz } },
            )),
            !(hx.spec_is_non_negative() && hy.spec_is_non_negative() && hz.spec_is_non_negative())
                ==> r == Err::<ColliderDesc, DescError>(DescError::NegativeHalfExtent),
    {
        if hx.is_non_negative() && hy.is_non_negative() && hz.is_non_negative() {
            Ok(ColliderDesc::with_defaults(Shape::Cuboid { half_extents: Vector::new(hx, hy, hz) }))
        } else {
            Err(DescError::NegativeHalfExtent)
        }
    }
}

/// The row that a descriptor becomes once inserted under `parent`.
pub open spec fn row_of(d: ColliderDesc, parent: RigidBodyHandle) -> ColliderRow {
    ColliderRow {
        shape: d.shape,
        density: d.density,
        friction: d.friction,
        restitution: d.restitution,
        position: d.delta,
        parent,
        is_sensor: d.is_sensor,
    }
}

/// A reference to a rigid body of a body store.
#[derive(Clone, Copy, Debug)]
pub struct RigidBody {
    pub handle: RigidBodyHandle,
}

impl RigidBodySet {
    /// Inserts a body at the given position.
    pub fn insert(&mut self, position: Isometry) -> (r: RigidBody)
        requires
            old(self).wf(),
        ensures
            final(self).wf(),
            r.handle.generation == old(self).next_generation(),
            final(self).next_generation() == old(self).next_generation(),
            forall|k: RigidBodyHandle| old(self).retired(k) ==> #[trigger] final(self).retired(k),
            !old(self)@.contains_key(r.handle),
            final(self)@ == old(self)@.insert(r.handle, BodyRow { position }),
    {
        let handle = self.insert_row(BodyRow { position });
        RigidBody { handle }
    }
}

impl RigidBody {
    pub open spec fn spec_handle(&self, rows: Map<RigidBodyHandle, BodyRow>) -> Result<
        usize,
        DanglingHandle,
    > {
        if rows.contains_key(self.handle) {
            Ok(self.handle.index as usize)
        } else {
            Err(DanglingHandle::spec_body(self.handle))
        }
    }

    /// The unique integer identifier of this rigid body: its slot index.
    pub fn handle(&self, bodies: &RigidBodySet) -> (r: Result<usize, DanglingHandle>)
        ensures
            r == self.spec_handle(bodies@),
    {
        match bodies.get(self.handle) {
            Some(_) => Ok(self.handle.index as usize),
            None => Err(DanglingHandle::body(self.handle)),
        }
    }

    /// The world-space position of this rigid body.
    pub fn position(&self, bodies: &RigidBodySet) -> (r: Result<Isometry, DanglingHandle>)
        ensures
            bodies@.contains_key(self.handle) ==> r == Ok::<Isometry, DanglingHandle>(
                bodies@[self.handle].position,
            ),
            !bodies@.contains_key(self.handle) ==> r == Err::<Isometry, DanglingHandle>(
                DanglingHandle::spec_body(self.handle),
            ),
    {
        match bodies.get(self.handle) {
            Some(row) => Ok(row.position),
            None => Err(DanglingHandle::body(self.handle)),
        }
    }
}

/// A reference to a collider of a collider store.
#[derive(Clone, Copy, Debug)]
pub struct Collider {
    pub handle: ColliderHandle,
}

impl ColliderSet {
    /// Turns a descriptor into a collider attached to `parent`, which must be
    /// live in `bodies`; the descriptor's offset becomes the collider's position.
    pub fn insert(&mut self, desc: ColliderDesc, parent: &RigidBody, bodies: &RigidBodySet) -> (r:
        Result<Collider, DanglingHandle>)
        requires
            old(self).wf(),
        ensures
            final(self).wf(),
            final(self).next_generation() == old(self).next_generation(),
            forall|k: ColliderHandle| old(self).retired(k) ==> #[trigger] final(self).retired(k),
            r.is_ok() ==> r.unwrap().handle.generation == old(self).next_generation(),
            bodies@.contains_key(parent.handle) ==> r.is_ok() && !old(self)@.contains_key(
                r.unwrap().handle,
            ) && final(self)@ == old(self)@.insert(r.unwrap().handle, row_of(desc, parent.handle)),
            !bodies@.contains_key(parent.handle) ==> r == Err::<Collider, DanglingHandle>(
                DanglingHandle::spec_body(parent.handle),
            ) && final(self)@ == old(self)@,
    {
        if bodies.get(parent.handle).is_none() {
            return Err(DanglingHandle::body(parent.handle));
        }
        let row = ColliderRow {
            shape: desc.shape,
            density: desc.density,
            friction: desc.friction,
            restitution: desc.restitution,
            position: desc.delta,
            parent: parent.handle,
            is_sensor: desc.is_sensor,
        };
        let handle = self.insert_row(row);
        Ok(Collider { handle })
    }
}

impl Collider {
    /// The row of this collider in `rows`, or the dangling-handle error.
    pub open spec fn spec_row(&self, rows: Map<ColliderHandle, ColliderRow>) -> Result<
        ColliderRow,
        DanglingHandle,
    > {
        if rows.contains_key(self.handle) {
            Ok(rows[self.handle])
        } else {
            Err(DanglingHandle::spec_collider(self.handle))
        }
    }

    pub open spec fn spec_translation(&self, rows: Map<ColliderHandle, ColliderRow>) -> Result<
        Vector,
        DanglingHandle,
    > {
        match self.spec_row(rows) {
            Ok(row) => Ok(row.position.translation),
            Err(e) => Err(e),
        }
    }

    pub open spec fn spec_rotation(&self, rows: Map<ColliderHandle, ColliderRow>) -> Result<
        Rotation,
        DanglingHandle,
    > {
        match self.spec_row(rows) {
            Ok(row) => Ok(row.position.rotation),
            Err(e) => Err(e),
        }
    }

    pub open spec fn spec_shape_type(&self, rows: Map<ColliderHandle, ColliderRow>) -> Result<
        ShapeType,
        DanglingHandle,
    > {
        match self.spec_row(rows) {
            Ok(row) => Ok(row.shape.spec_shape_type()),
            Err(e) => Err(e),
        }
    }

    pub open spec fn spec_half_extents(&self, rows: Map<ColliderHandle, ColliderRow>) -> Result<
        Option<Vector>,
        DanglingHandle,
    > {
        match self.spec_row(rows) {
            Ok(row) => Ok(row.shape.spec_half_extents()),
            Err(e) => Err(e),
        }
    }

    pub open spec fn spec_radius(&self, rows: Map<ColliderHandle, ColliderRow>) -> Result<
        Option<Real>,
        DanglingHandle,
    > {
        match self.spec_row(rows) {
            Ok(row) => Ok(row.shape.spec_radius()),
            Err(e) => Err(e),
        }
    }

    pub open spec fn spec_parent(&self, rows: Map<ColliderHandle, ColliderRow>) -> Result<
        RigidBody,
        DanglingHandle,
    > {
        match self.spec_row(rows) {
            Ok(row) => Ok(RigidBody { handle: row.parent }),
            Err(e) => Err(e),
        }
    }

    pub open spec fn spec_handle(&self, rows: Map<ColliderHandle, ColliderRow>) -> Result<
        usize,
        DanglingHandle,
    > {
        match self.spec_row(rows) {
            Ok(row) => Ok(self.handle.index as usize),
            Err(e) => Err(e),
        }
    }

    pub open spec fn spec_parent_handle(&self, rows: Map<ColliderHandle, ColliderRow>) -> Result<
        usize,
        DanglingHandle,
    > {
        match self.spec_row(rows) {
            Ok(row) => Ok(row.parent.index as usize),
            Err(e) => Err(e),
        }
    }

    pub open spec fn spec_friction(&self, rows: Map<ColliderHandle, ColliderRow>) -> Result<
        Real,
        DanglingHandle,
    > {
        match self.spec_row(rows) {
            Ok(row) => Ok(row.friction),
            Err(e) => Err(e),
        }
    }

    pub open spec fn spec_density(&self, rows: Map<ColliderHandle, ColliderRow>) -> Result<
        Real,
        DanglingHandle,
    > {
        match self.spec_row(rows) {
            Ok(row) => Ok(row.density),
            Err(e) => Err(e),
        }
    }

    /// The rows after the position of this collider's row is set to `position`;
    /// unchanged if the handle dangles.
    pub open spec fn spec_with_position(
        &self,
        rows: Map<ColliderHandle, ColliderRow>,
        position: Isometry,
    ) -> Map<ColliderHandle, ColliderRow> {
        if rows.contains_key(self.handle) {
            rows.insert(self.handle, ColliderRow { position, ..rows[self.handle] })
        } else {
            rows
        }
    }

    /// Shared access to this collider's row.
    pub fn map<'a>(&self, colliders: &'a ColliderSet) -> (r: Result<&'a ColliderRow, DanglingHandle>)
        ensures
            r.is_ok() == colliders@.contains_key(self.handle),
            r.is_ok() ==> *r.unwrap() == colliders@[self.handle],
            r.is_err() ==> r.unwrap_err() == DanglingHandle::spec_collider(self.handle),
    {
        match colliders.get(self.handle) {
            Some(row) => Ok(row),
            None => Err(DanglingHandle::collider(self.handle)),
        }
    }

    /// Replaces this collider's row.
    pub fn apply(&self, colliders: &mut ColliderSet, row: ColliderRow) -> (r: Result<(), DanglingHandle>)
        requires
            old(colliders).wf(),
        ensures
            final(colliders).wf(),
            final(colliders).next_generation() == old(colliders).next_generation(),
            r.is_ok() == old(colliders)@.contains_key(self.handle),
            r.is_ok() ==> final(colliders)@ == old(colliders)@.insert(self.handle, row),
            r.is_err() ==> r == Err::<(), DanglingHandle>(DanglingHandle::spec_collider(self.handle))
                && final(colliders)@ == old(colliders)@,
    {
        match colliders.get_mut(self.handle) {
            Some(slot) => {
                *slot = row;
                Ok(())
            },
            None => Err(DanglingHandle::collider(self.handle)),
        }
    }

    /// The world-space position of this collider.
    pub fn translation(&self, colliders: &ColliderSet) -> (r: Result<Vector, DanglingHandle>)
        ensures
            r == self.spec_translation(colliders@),
    {
        match self.map(colliders) {
            Ok(row) => Ok(row.position.translation),
            Err(e) => Err(e),
        }
    }

    /// The world-space orientation of this collider.
    pub fn rotation(&self, colliders: &ColliderSet) -> (r: Result<Rotation, DanglingHandle>)
        ensures
            r == self.spec_rotation(colliders@),
    {
        match self.map(colliders) {
            Ok(row) => Ok(row.position.rotation),
            Err(e) => Err(e),
        }
    }

    /// The type of the shape of this collider.
    #[allow(non_snake_case)]
    pub fn shapeType(&self, colliders: &ColliderSet) -> (r: Result<ShapeType, DanglingHandle>)
        ensures
            r == self.spec_shape_type(colliders@),
    {
        match self.map(colliders) {
            Ok(row) => Ok(row.shape.shape_type()),
            Err(e) => Err(e),
        }
    }

    /// The half-extents of this collider if it has a cuboid shape.
    #[allow(non_snake_case)]
    pub fn halfExtents(&self, colliders: &ColliderSet) -> (r: Result<Option<Vector>, DanglingHandle>)
        ensures
            r == self.spec_half_extents(colliders@),
    {
        match self.map(colliders) {
            Ok(row) => Ok(row.shape.half_extents()),
            Err(e) => Err(e),
        }
    }

    /// The radius of this collider if it has a ball shape.
    pub fn radius(&self, colliders: &ColliderSet) -> (r: Result<Option<Real>, DanglingHandle>)
        ensures
            r == self.spec_radius(colliders@),
    {
        match self.map(colliders) {
            Ok(row) => Ok(row.shape.radius()),
            Err(e) => Err(e),
        }
    }

    /// The rigid body this collider is attached to. Whether that body is still
    /// live is checked by the operations on the returned wrapper.
    pub fn parent(&self, colliders: &ColliderSet) -> (r: Result<RigidBody, DanglingHandle>)
        ensures
            r == self.spec_parent(colliders@),
    {
        match self.map(colliders) {
            Ok(row) => Ok(RigidBody { handle: row.parent }),
            Err(e) => Err(e),
        }
    }

    /// The unique integer identifier of this collider: its slot index.
    pub fn handle(&self, colliders: &ColliderSet) -> (r: Result<usize, DanglingHandle>)
        ensures
            r == self.spec_handle(colliders@),
    {
        match self.map(colliders) {
            Ok(_) => Ok(self.handle.index as usize),
            Err(e) => Err(e),
        }
    }

    /// The unique integer identifier of the rigid body this collider is attached to.
    #[allow(non_snake_case)]
    pub fn parentHandle(&self, colliders: &ColliderSet) -> (r: Result<usize, DanglingHandle>)
        ensures
            r == self.spec_parent_handle(colliders@),
    {
        match self.map(colliders) {
            Ok(row) => Ok(row.parent.index as usize),
            Err(e) => Err(e),
        }
    }

    /// The friction coefficient of this collider.
    pub fn friction(&self, colliders: &ColliderSet) -> (r: Result<Real, DanglingHandle>)
        ensures
            r == self.spec_friction(colliders@),
    {
        match self.map(colliders) {
            Ok(row) => Ok(row.friction),
            Err(e) => Err(e),
        }
    }

    /// The density of this collider.
    pub fn density(&self, colliders: &ColliderSet) -> (r: Result<Real, DanglingHandle>)
        ensures
            r == self.spec_density(colliders@),
    {
        match self.map(colliders) {
            Ok(row) => Ok(row.density),
            Err(e) => Err(e),
        }
    }

    /// Moves this collider to the translation `(x, y, z)` and the orientation
    /// given by the quaternion whose components are read in the order
    /// `(w, i, j, k)`: `rj i + rk j + rw k + ri`, taken as it is.
    #[allow(non_snake_case)]
    pub fn setPositionDebug(
        &self,
        colliders: &mut ColliderSet,
        x: Real,
        y: Real,
        z: Real,
        ri: Real,
        rj: Real,
        rk: Real,
        rw: Real,
    ) -> (r: Result<(), DanglingHandle>)
        requires
            old(colliders).wf(),
        ensures
            final(colliders).wf(),
            final(colliders).next_generation() == old(colliders).next_generation(),
            r.is_ok() == old(colliders)@.contains_key(self.handle),
            r.is_err() ==> r == Err::<(), DanglingHandle>(DanglingHandle::spec_collider(self.handle)),
            final(colliders)@ == self.spec_with_position(
                old(colliders)@,
                (Isometry {
                    translation: Vector { x, y, z },
                    rotation: Rotation { x: rj, y: rk, z: rw, w: ri },
                }),
            ),
    {
        let position = Isometry {
            translation: Vector::new(x, y, z),
            rotation: Rotation { x: rj, y: rk, z: rw, w: ri },
        };
        match colliders.get_mut(self.handle) {
            Some(slot) => {
                slot.position = position;
                Ok(())
            },
            None => Err(DanglingHandle::collider(self.handle)),
        }
    }
}

/// The shape type that a live collider reports is the kind of the shape in its
/// row, and after its row is replaced it is the kind of the new row's shape.
pub proof fn lemma_shape_type_tracks_shape(
    c: Collider,
    rows: Map<ColliderHandle, ColliderRow>,
    row: ColliderRow,
)
    requires
        rows.contains_key(c.handle),
    ensures
        c.spec_shape_type(rows) == Ok::<ShapeType, DanglingHandle>(
            rows[c.handle].shape.spec_shape_type(),
        ),
        c.spec_shape_type(rows.insert(c.handle, row)) == Ok::<ShapeType, DanglingHandle>(
            row.shape.spec_shape_type(),
        ),
{
}

/// A collider reports half-extents exactly when its shape type is `Cuboid`, and
/// a radius exactly when its shape type is `Ball`; on every other shape the
/// answer is empty.
pub proof fn lemma_shape_queries_match_type(c: Collider, rows: Map<ColliderHandle, ColliderRow>)
    requires
        rows.contains_key(c.handle),
    ensures
        c.spec_half_extents(rows) is Ok,
        c.spec_radius(rows) is Ok,
        c.spec_half_extents(rows).unwrap().is_some() <==> c.spec_shape_type(rows)
            == Ok::<ShapeType, DanglingHandle>(ShapeType::Cuboid),
        c.spec_radius(rows).unwrap().is_some() <==> c.spec_shape_type(rows)
            == Ok::<ShapeType, DanglingHandle>(ShapeType::Ball),
{
}

/// Once a collider's row has been removed, every read through a wrapper on its
/// handle fails with the dangling-handle error, and the mutations fail with it
/// and change nothing.
pub proof fn lemma_removed_collider_dangles(c: Collider, rows: Map<ColliderHandle, ColliderRow>)
    ensures
        ({
            let gone = rows.remove(c.handle);
            let e = DanglingHandle::spec_collider(c.handle);
            &&& c.spec_row(gone) == Err::<ColliderRow, DanglingHandle>(e)
            &&& c.spec_translation(gone) == Err::<Vector, DanglingHandle>(e)
            &&& c.spec_rotation(gone) == Err::<Rotation, DanglingHandle>(e)
            &&& c.spec_shape_type(gone) == Err::<ShapeType, DanglingHandle>(e)
            &&& c.spec_half_extents(gone) == Err::<Option<Vector>, DanglingHandle>(e)
            &&& c.spec_radius(gone) == Err::<Option<Real>, DanglingHandle>(e)
            &&& c.spec_parent(gone) == Err::<RigidBody, DanglingHandle>(e)
            &&& c.spec_handle(gone) == Err::<usize, DanglingHandle>(e)
            &&& c.spec_parent_handle(gone) == Err::<usize, DanglingHandle>(e)
            &&& c.spec_friction(gone) == Err::<Real, DanglingHandle>(e)
            &&& c.spec_density(gone) == Err::<Real, DanglingHandle>(e)
            &&& forall|p: Isometry| c.spec_with_position(gone, p) == gone
        }),
{
}

/// The wrapper that `parent` returns carries exactly the parent handle stored
/// in the collider's row: its `handle` is the collider's `parentHandle` while
/// that body is live, and the dangling-handle error once it is gone.
pub proof fn lemma_parent_handle_round_trip(
    c: Collider,
    rows: Map<ColliderHandle, ColliderRow>,
    bodies: Map<RigidBodyHandle, BodyRow>,
)
    requires
        rows.contains_key(c.handle),
    ensures
        c.spec_parent(rows) is Ok,
        c.spec_parent(rows).unwrap().handle == rows[c.handle].parent,
        bodies.contains_key(rows[c.handle].parent) ==> c.spec_parent(rows).unwrap().spec_handle(
            bodies,
        ) == c.spec_parent_handle(rows),
        !bodies.contains_key(rows[c.handle].parent) ==> c.spec_parent(rows).unwrap().spec_handle(
            bodies,
        ) == Err::<usize, DanglingHandle>(DanglingHandle::spec_body(rows[c.handle].parent)),
{
}

/// Two wrappers on one handle share the row: what is written through one is
/// what the other reads next.
pub proof fn lemma_wrappers_share_row(
    a: Collider,
    b: Collider,
    rows: Map<ColliderHandle, ColliderRow>,
    row: ColliderRow,
    p: Isometry,
)
    requires
        a.handle == b.handle,
        rows.contains_key(a.handle),
    ensures
        b.spec_row(rows.insert(a.handle, row)) == Ok::<ColliderRow, DanglingHandle>(row),
        b.spec_translation(a.spec_with_position(rows, p)) == Ok::<Vector, DanglingHandle>(
            p.translation,
        ),
        b.spec_rotation(a.spec_with_position(rows, p)) == Ok::<Rotation, DanglingHandle>(
            p.rotation,
        ),
{
}

/// A handle whose row was removed stays dangling for good: insertions, row
/// replacements and further removals keep it retired (see the contracts of
/// `ColliderSet::insert`, `Collider::apply`, `Collider::setPositionDebug` and
/// `ColliderSet::remove`), and in a store where it is retired every read
/// through a wrapper on it fails with the dangling-handle error.
pub proof fn lemma_retired_collider_dangles(c: Collider, colliders: ColliderSet)
    requires
        colliders.retired(c.handle),
    ensures
        ({
            let rows = colliders@;
            let e = DanglingHandle::spec_collider(c.handle);
            &&& c.spec_row(rows) == Err::<ColliderRow, DanglingHandle>(e)
            &&& c.spec_translation(rows) == Err::<Vector, DanglingHandle>(e)
            &&& c.spec_rotation(rows) == Err::<Rotation, DanglingHandle>(e)
            &&& c.spec_shape_type(rows) == Err::<ShapeType, DanglingHandle>(e)
            &&& c.spec_half_extents(rows) == Err::<Option<Vector>, DanglingHandle>(e)
            &&& c.spec_radius(rows) == Err::<Option<Real>, DanglingHandle>(e)
            &&& c.spec_parent(rows) == Err::<RigidBody, DanglingHandle>(e)
            &&& c.spec_handle(rows) == Err::<usize, DanglingHandle>(e)
            &&& c.spec_parent_handle(rows) == Err::<usize, DanglingHandle>(e)
            &&& c.spec_friction(rows) == Err::<Real, DanglingHandle>(e)
            &&& c.spec_density(rows) == Err::<Real, DanglingHandle>(e)
        }),
{
}

} // verus!
