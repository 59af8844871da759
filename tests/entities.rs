use rapier_wasm::collider::{ColliderBuilder, ColliderDesc, DescError, RigidBody};
use rapier_wasm::math::{Isometry, Rotation, Vector};
use rapier_wasm::math2d;
use rapier_wasm::scalar::Real;
use rapier_wasm::shape::{Shape, ShapeType};
use rapier_wasm::store::{ColliderSet, DanglingHandle, RigidBodySet, StoreKind};

fn r(f: f32) -> Real {
    Real::from_bits(f.to_bits())
}

fn f(x: Real) -> f32 {
    f32::from_bits(x.to_bits())
}

fn v(x: f32, y: f32, z: f32) -> Vector {
    Vector::new(r(x), r(y), r(z))
}

fn world() -> (RigidBodySet, ColliderSet, RigidBody) {
    let mut bodies = RigidBodySet::new();
    let body = bodies.insert(Isometry::identity());
    (bodies, ColliderSet::new(), body)
}

#[test]
fn ball_collider_reads_back_radius() {
    let (bodies, mut colliders, body) = world();
    let desc = ColliderDesc::ball(r(2.0)).unwrap();
    let c = colliders.insert(desc, &body, &bodies).unwrap();
    assert_eq!(c.radius(&colliders).unwrap().map(f), Some(2.0));
    assert!(c.halfExtents(&colliders).unwrap().is_none());
    assert_eq!(c.shapeType(&colliders).unwrap(), ShapeType::Ball);
}

#[test]
fn cuboid_collider_reads_back_half_extents() {
    let (bodies, mut colliders, body) = world();
    let desc = ColliderDesc::cuboid(r(1.0), r(2.0), r(0.5)).unwrap();
    let c = colliders.insert(desc, &body, &bodies).unwrap();
    assert_eq!(c.halfExtents(&colliders).unwrap(), Some(v(1.0, 2.0, 0.5)));
    assert_eq!(c.radius(&colliders).unwrap(), None);
    assert_eq!(c.shapeType(&colliders).unwrap(), ShapeType::Cuboid);
}

#[test]
fn two_wrappers_share_one_row() {
    let (bodies, mut colliders, body) = world();
    let c1 = colliders.insert(ColliderDesc::ball(r(1.0)).unwrap(), &body, &bodies).unwrap();
    let c2 = rapier_wasm::collider::Collider { handle: c1.handle };
    assert_eq!(c2.translation(&colliders).unwrap(), Vector::zero());
    c1.setPositionDebug(&mut colliders, r(1.0), r(2.0), r(3.0), r(0.0), r(0.0), r(1.0), r(0.0))
        .unwrap();
    assert_eq!(c2.translation(&colliders).unwrap(), v(1.0, 2.0, 3.0));
    let rot = c2.rotation(&colliders).unwrap();
    assert_eq!((f(rot.x()), f(rot.y()), f(rot.z()), f(rot.w())), (0.0, 1.0, 0.0, 0.0));
}

#[test]
fn removed_collider_dangles() {
    let (bodies, mut colliders, body) = world();
    let c = colliders.insert(ColliderDesc::ball(r(1.0)).unwrap(), &body, &bodies).unwrap();
    let copy = c;
    assert!(colliders.remove(c.handle).unwrap().is_some());
    let e = DanglingHandle { store: StoreKind::Colliders, index: c.handle.index, generation: c.handle.generation };
    assert_eq!(copy.radius(&colliders).unwrap_err(), e);
    assert_eq!(copy.translation(&colliders).unwrap_err(), e);
    assert_eq!(copy.shapeType(&colliders).unwrap_err(), e);
    assert_eq!(copy.friction(&colliders).unwrap_err(), e);
    assert_eq!(copy.density(&colliders).unwrap_err(), e);
    assert_eq!(copy.handle(&colliders).unwrap_err(), e);
    assert_eq!(copy.parentHandle(&colliders).unwrap_err(), e);
    assert!(copy.parent(&colliders).is_err());
    assert!(copy.map(&colliders).is_err());
    assert_eq!(
        copy.setPositionDebug(&mut colliders, r(1.0), r(1.0), r(1.0), r(0.0), r(0.0), r(0.0), r(1.0)),
        Err(e)
    );
    assert!(colliders.remove(c.handle).unwrap().is_none());
}

#[test]
fn reinserted_slot_does_not_revive_old_handle() {
    let (bodies, mut colliders, body) = world();
    let old = colliders.insert(ColliderDesc::ball(r(1.0)).unwrap(), &body, &bodies).unwrap();
    colliders.remove(old.handle).unwrap();
    let new = colliders.insert(ColliderDesc::ball(r(3.0)).unwrap(), &body, &bodies).unwrap();
    assert_ne!(old.handle, new.handle);
    assert!(old.radius(&colliders).is_err());
    assert_eq!(new.radius(&colliders).unwrap().map(f), Some(3.0));
}

#[test]
fn parent_then_handle_gives_parent_handle() {
    let mut bodies = RigidBodySet::new();
    let _first = bodies.insert(Isometry::identity());
    let body = bodies.insert(Isometry::identity());
    let mut colliders = ColliderSet::new();
    let c = colliders.insert(ColliderDesc::ball(r(1.0)).unwrap(), &body, &bodies).unwrap();
    let parent = c.parent(&colliders).unwrap();
    assert_eq!(parent.handle, body.handle);
    assert_eq!(parent.handle(&bodies), c.parentHandle(&colliders));
    assert_eq!(parent.handle(&bodies).unwrap(), body.handle.index as usize);
    bodies.remove(body.handle).unwrap();
    assert_eq!(
        parent.handle(&bodies),
        Err(DanglingHandle { store: StoreKind::Bodies, index: body.handle.index, generation: body.handle.generation })
    );
    // The collider itself is still there.
    assert!(c.parent(&colliders).is_ok());
}

#[test]
fn insert_under_missing_body_fails() {
    let (mut bodies, mut colliders, body) = world();
    bodies.remove(body.handle).unwrap();
    let e = colliders.insert(ColliderDesc::ball(r(1.0)).unwrap(), &body, &bodies).unwrap_err();
    assert_eq!(e.store, StoreKind::Bodies);
}

#[test]
fn collider_handle_is_slot_index() {
    let (bodies, mut colliders, body) = world();
    let a = colliders.insert(ColliderDesc::ball(r(1.0)).unwrap(), &body, &bodies).unwrap();
    let b = colliders.insert(ColliderDesc::ball(r(1.0)).unwrap(), &body, &bodies).unwrap();
    assert_eq!(a.handle(&colliders).unwrap(), a.handle.index as usize);
    assert_eq!(b.handle(&colliders).unwrap(), b.handle.index as usize);
    assert_ne!(a.handle(&colliders).unwrap(), b.handle(&colliders).unwrap());
}

#[test]
fn descriptor_defaults_come_from_kernel() {
    let d = ColliderDesc::ball(r(1.5)).unwrap();
    assert_eq!(f(d.density), 1.0);
    assert_eq!(f(d.friction), 0.5);
    assert_eq!(f(d.restitution), 0.0);
    assert!(!d.is_sensor);
    assert_eq!(d.delta, Isometry::identity());
    let (bodies, mut colliders, body) = world();
    let c = colliders.insert(d, &body, &bodies).unwrap();
    assert_eq!(f(c.friction(&colliders).unwrap()), 0.5);
    assert_eq!(f(c.density(&colliders).unwrap()), 1.0);
}

#[test]
fn ball_rejects_non_positive_radius() {
    assert_eq!(ColliderDesc::ball(r(0.0)).unwrap_err(), DescError::NonPositiveRadius);
    assert_eq!(ColliderDesc::ball(r(-0.0)).unwrap_err(), DescError::NonPositiveRadius);
    assert_eq!(ColliderDesc::ball(r(-1.0)).unwrap_err(), DescError::NonPositiveRadius);
    assert_eq!(ColliderDesc::ball(r(f32::NAN)).unwrap_err(), DescError::NonPositiveRadius);
    assert!(ColliderDesc::ball(r(f32::MIN_POSITIVE)).is_ok());
    assert!(ColliderDesc::ball(r(f32::INFINITY)).is_ok());
}

#[test]
fn cuboid_rejects_negative_half_extent() {
    assert_eq!(ColliderDesc::cuboid(r(1.0), r(-1.0), r(1.0)).unwrap_err(), DescError::NegativeHalfExtent);
    assert_eq!(ColliderDesc::cuboid(r(f32::NAN), r(1.0), r(1.0)).unwrap_err(), DescError::NegativeHalfExtent);
    assert!(ColliderDesc::cuboid(r(0.0), r(-0.0), r(1.0)).is_ok());
}

#[test]
fn descriptor_builder_round_trip() {
    let mut d = ColliderDesc::cuboid(r(1.0), r(2.0), r(3.0)).unwrap();
    d.density = r(2.5);
    d.friction = r(0.25);
    d.restitution = r(0.75);
    d.is_sensor = true;
    d.delta = Isometry { translation: v(4.0, 5.0, 6.0), rotation: Rotation::identity() };
    let b: ColliderBuilder = d.clone().into();
    assert_eq!(f(b.density), 2.5);
    assert_eq!(f(b.friction), 0.25);
    let back: ColliderDesc = b.into();
    assert_eq!(back.density, d.density);
    assert_eq!(back.friction, d.friction);
    assert_eq!(back.restitution, d.restitution);
    assert_eq!(back.delta, d.delta);
    assert_eq!(back.is_sensor, d.is_sensor);
    assert_eq!(back.shape.half_extents(), Some(v(1.0, 2.0, 3.0)));
}

#[test]
fn replacing_shape_changes_shape_type() {
    let (bodies, mut colliders, body) = world();
    let c = colliders.insert(ColliderDesc::ball(r(1.0)).unwrap(), &body, &bodies).unwrap();
    let mut row = c.map(&colliders).unwrap().clone();
    row.shape = Shape::Capsule { half_height: r(1.0), radius: r(0.5) };
    c.apply(&mut colliders, row).unwrap();
    assert_eq!(c.shapeType(&colliders).unwrap(), ShapeType::Capsule);
    assert_eq!(c.radius(&colliders).unwrap(), None);
    assert_eq!(c.halfExtents(&colliders).unwrap(), None);
}

#[test]
fn every_shape_is_classified() {
    let shapes = vec![
        (Shape::Ball { radius: r(1.0) }, ShapeType::Ball),
        (Shape::Polygon { vertices: vec![v(0.0, 0.0, 0.0)] }, ShapeType::Polygon),
        (Shape::Cuboid { half_extents: v(1.0, 1.0, 1.0) }, ShapeType::Cuboid),
        (Shape::Capsule { half_height: r(1.0), radius: r(1.0) }, ShapeType::Capsule),
        (Shape::Triangle { a: v(0.0, 0.0, 0.0), b: v(1.0, 0.0, 0.0), c: v(0.0, 1.0, 0.0) }, ShapeType::Triangle),
        (Shape::Trimesh { vertices: vec![], indices: vec![[0, 1, 2]] }, ShapeType::Trimesh),
        (Shape::HeightField { nrows: 1, ncols: 1, heights: vec![r(0.0)], scale: v(1.0, 1.0, 1.0) }, ShapeType::HeightField),
    ];
    for (s, t) in shapes {
        assert_eq!(s.shape_type(), t);
        assert_eq!(s.half_extents().is_some(), t == ShapeType::Cuboid);
        assert_eq!(s.radius().is_some(), t == ShapeType::Ball);
    }
}

#[test]
fn swizzles_permute_components() {
    let a = v(1.0, 2.0, 3.0);
    assert_eq!(a.xyz(), a);
    assert_eq!(a.yxz(), v(2.0, 1.0, 3.0));
    assert_eq!(a.zxy(), v(3.0, 1.0, 2.0));
    assert_eq!(a.xzy(), v(1.0, 3.0, 2.0));
    assert_eq!(a.yzx(), v(2.0, 3.0, 1.0));
    assert_eq!(a.zyx(), v(3.0, 2.0, 1.0));
    assert_eq!(a.zy(), math2d::Vector::new(r(3.0), r(2.0)));
    let b = math2d::Vector::new(r(1.0), r(2.0));
    assert_eq!(b.xy(), b);
    assert_eq!(b.yx(), math2d::Vector::new(r(2.0), r(1.0)));
}

#[test]
fn vector_accessors_and_setters() {
    let mut a = Vector::zero();
    assert_eq!((f(a.x()), f(a.y()), f(a.z())), (0.0, 0.0, 0.0));
    a.set_x(r(1.0));
    a.set_y(r(-2.0));
    a.set_z(r(3.5));
    assert_eq!(a, v(1.0, -2.0, 3.5));
    let mut b = math2d::Vector::zero();
    b.set_y(r(4.0));
    b.set_x(r(5.0));
    assert_eq!((f(b.x()), f(b.y())), (5.0, 4.0));
}

#[test]
fn identity_rotations() {
    let q = Rotation::identity();
    assert_eq!((f(q.x()), f(q.y()), f(q.z()), f(q.w())), (0.0, 0.0, 0.0, 1.0));
    let c = math2d::Rotation::identity();
    assert_eq!((f(c.re()), f(c.im())), (1.0, 0.0));
    assert_eq!(f(c.im()).atan2(f(c.re())), 0.0);
}

#[test]
fn scalar_sign_tests() {
    assert!(r(1.0).is_positive());
    assert!(!r(0.0).is_positive());
    assert!(r(0.0).is_non_negative());
    assert!(r(-0.0).is_non_negative());
    assert!(!r(-0.5).is_non_negative());
    assert!(!r(f32::NAN).is_non_negative());
    assert_eq!(f(Real::one()), 1.0);
    assert_eq!(f(Real::zero()), 0.0);
}

#[test]
fn body_position_reads_store() {
    let mut bodies = RigidBodySet::new();
    let p = Isometry { translation: v(1.0, 2.0, 3.0), rotation: Rotation::identity() };
    let b = bodies.insert(p);
    assert_eq!(b.position(&bodies).unwrap(), p);
    bodies.remove(b.handle).unwrap();
    assert!(b.position(&bodies).is_err());
}

#[test]
fn handles_carry_the_store_generation() {
    let (bodies, mut colliders, body) = world();
    let a = colliders.insert(ColliderDesc::ball(r(1.0)).unwrap(), &body, &bodies).unwrap();
    assert_eq!(a.handle.generation, 0);
    colliders.remove(a.handle).unwrap();
    let b = colliders.insert(ColliderDesc::ball(r(1.0)).unwrap(), &body, &bodies).unwrap();
    assert_eq!(b.handle.generation, 1);
    assert_eq!(b.handle.index, a.handle.index);
    assert!(a.radius(&colliders).is_err());
    // Removing a handle that is not live changes nothing.
    assert!(colliders.remove(a.handle).unwrap().is_none());
    let c = colliders.insert(ColliderDesc::ball(r(1.0)).unwrap(), &body, &bodies).unwrap();
    assert_eq!(c.handle.generation, 1);
}

#[test]
fn position_debug_reads_quaternion_w_first() {
    let (bodies, mut colliders, body) = world();
    let c = colliders.insert(ColliderDesc::ball(r(1.0)).unwrap(), &body, &bodies).unwrap();
    c.setPositionDebug(&mut colliders, r(0.0), r(0.0), r(0.0), r(1.0), r(2.0), r(3.0), r(4.0))
        .unwrap();
    let rot = c.rotation(&colliders).unwrap();
    assert_eq!((f(rot.w()), f(rot.x()), f(rot.y()), f(rot.z())), (1.0, 2.0, 3.0, 4.0));
}
