//! Fixed sizing of the host-visible state.

use vstd::prelude::*;

verus! {

/// Maximum number of particles the host buffers are sized for.
pub const MAX_PARTICLES: usize = 10;

/// Maximum number of collision shapes the host buffers are sized for.
pub const MAX_SHAPES: usize = 50;

} // verus!
