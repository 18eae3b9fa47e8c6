//! Plain-value records describing particles and shape poses.
//!
//! The solver works in 32-bit floating point; verified code never computes
//! with those scalars, it only stores and moves them. Each scalar is held
//! here as its IEEE-754 bit pattern (a `u32`), and the embedding application
//! converts at the boundary.

use vstd::prelude::*;

verus! {

/// A three-component vector (velocity); each field is a scalar bit pattern.
#[derive(Clone, Copy, Debug, PartialEq, Eq, Structural)]
pub struct Vector3(pub u32, pub u32, pub u32);

/// A four-component vector: x, y, z and inverse mass, as scalar bit patterns.
#[derive(Clone, Copy, Debug, PartialEq, Eq, Structural)]
pub struct Vector4(pub u32, pub u32, pub u32, pub u32);

/// A rotation, x, y, z, w, as scalar bit patterns.
#[derive(Clone, Copy, Debug, PartialEq, Eq, Structural)]
pub struct Quat(pub u32, pub u32, pub u32, pub u32);

/// Opaque descriptor of one collision shape as the solver understands it
/// (for a box: the three half-extents and a padding word).
#[derive(Clone, Copy, Debug, PartialEq, Eq, Structural)]
pub struct CollisionGeometry(pub Vector4);

/// One particle as reported by a snapshot: position + inverse mass,
/// velocity, and the opaque phase bitfield.
#[derive(Clone, Copy, Debug, PartialEq, Eq, Structural)]
pub struct Particle {
    pub pdata: Vector4,
    pub velocity: Vector3,
    pub phase: i32,
}

} // verus!
