//! Pure bit-packing helpers for the solver's phase and shape-flag encodings.
//!
//! A particle's phase packs a collision-group id into the low bits, behaviour
//! flags (self-collision, fluid participation) into the middle bits, and the
//! shape-collision channels into the high bits. A shape's flag word packs the
//! shape type into the low bits and a dynamic bit above them. These layouts
//! follow the solver's fixed contract.

use vstd::prelude::*;

verus! {

/// Low 20 bits of a phase: the collision-group id.
pub const PHASE_GROUP_MASK: i32 = 0x000fffff;

/// Middle bits of a phase: behaviour flags.
pub const PHASE_FLAGS_MASK: i32 = 0x00f00000;

/// High bits of a phase: the seven shape-collision channels.
pub const PHASE_SHAPE_CHANNEL_MASK: i32 = 0x7f000000;

/// Behaviour flag: the particle collides with particles of its own group.
pub const PHASE_SELF_COLLIDE: i32 = 0x00100000;

/// Behaviour flag: the particle takes part in fluid simulation.
pub const PHASE_FLUID: i32 = 0x00400000;

/// Low 3 bits of a shape flag word: the shape type.
pub const SHAPE_FLAG_TYPE_MASK: i32 = 0x7;

/// Shape flag bit: the shape moves between ticks.
pub const SHAPE_FLAG_DYNAMIC: i32 = 0x8;

/// What `NvFlexMakePhase` packs: group id in the low bits, behaviour flags in
/// the middle bits, and every shape-collision channel enabled.
pub open spec fn make_phase(group: i32, particle_flags: i32) -> i32 {
    (group & PHASE_GROUP_MASK) | (particle_flags & PHASE_FLAGS_MASK) | PHASE_SHAPE_CHANNEL_MASK
}

/// Packs a collision-group id and behaviour flags into a phase word, with all
/// shape-collision channels enabled.
#[allow(non_snake_case)]
pub fn NvFlexMakePhase(group: i32, particle_flags: i32) -> (r: i32)
    ensures
        r == make_phase(group, particle_flags),
{
    (group & PHASE_GROUP_MASK) | (particle_flags & PHASE_FLAGS_MASK) | PHASE_SHAPE_CHANNEL_MASK
}

/// What `NvFlexMakeShapeFlags` packs: the shape type, a dynamic bit if the
/// shape moves, and every shape-collision channel enabled.
pub open spec fn make_shape_flags(ty: i32, dynamic: bool) -> i32 {
    ty | (if dynamic { SHAPE_FLAG_DYNAMIC } else { 0 }) | PHASE_SHAPE_CHANNEL_MASK
}

/// Packs a shape type and a dynamic bit into a shape flag word, with all
/// shape-collision channels enabled.
#[allow(non_snake_case)]
pub fn NvFlexMakeShapeFlags(ty: i32, dynamic: bool) -> (r: i32)
    ensures
        r == make_shape_flags(ty, dynamic),
{
    ty | (if dynamic { SHAPE_FLAG_DYNAMIC } else { 0 }) | PHASE_SHAPE_CHANNEL_MASK
}

} // verus!
