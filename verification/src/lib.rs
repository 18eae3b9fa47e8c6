//! Host-side mirror of a particle-based physics simulation's state.
//!
//! The GPU solver itself is an opaque external collaborator; this crate owns
//! the host-visible buffers that describe particles and collision shapes,
//! enforces the map/unmap protocol those buffers require, batches particle
//! creation, tracks dirty state, and plans the solver commands that the
//! embedding application performs.

use vstd::prelude::*;

mod buffer;
mod config;
mod factory;
mod geometry;
mod helper;
mod particle;
mod session;
mod types;

pub use buffer::AllocError;
pub use buffer::BufferError;
pub use buffer::BufferState;
pub use buffer::HostBuffer;
pub use config::MAX_PARTICLES;
pub use config::MAX_SHAPES;
pub use factory::FactoryView;
pub use geometry::GeometryState;
pub use geometry::GeometryStateView;
pub use factory::ParticleFactory;
pub use factory::ParticleRow;
pub use helper::NvFlexMakePhase;
pub use helper::NvFlexMakeShapeFlags;
pub use helper::PHASE_FLUID;
pub use helper::PHASE_SELF_COLLIDE;
pub use particle::ParticleState;
pub use particle::ParticleStateView;
pub use session::BufferId;
pub use session::FlexState;
pub use session::InitError;
pub use session::SessionPhase;
pub use session::SessionView;
pub use session::ShutdownError;
pub use session::SolverStep;
pub use session::TeardownAction;
pub use types::CollisionGeometry;
pub use types::Particle;
pub use types::Quat;
pub use types::Vector3;
pub use types::Vector4;

verus! {

} // verus!
