//! Entity layer of a rigid-body physics engine: geometric value types, shape
//! descriptors, collider descriptors and handle-based access to the body and
//! collider stores of the kernel.

pub mod scalar;
pub mod math;
pub mod math2d;
pub mod shape;
pub mod store;
pub mod collider;
