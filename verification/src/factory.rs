//! Scoped batch-creation context for particles.
//!
//! Creating particles one at a time costs one map/unmap round-trip over all
//! four particle buffers per particle. A factory instead accumulates a batch
//! of new particles; committing the batch back to the owning particle state
//! writes every accumulated row inside a single mapped scope. A factory is
//! begun at the particle state's current count and must be committed to the
//! same state before any other mutation.

use vstd::prelude::*;

use crate::types::Vector3;
use crate::types::Vector4;

verus! {

/// One accumulated particle: position + inverse mass, velocity, phase.
pub type ParticleRow = (Vector4, Vector3, i32);

/// Mathematical content of a factory: where the batch starts, how many
/// entries the owning buffers can hold, and the accumulated rows.
#[verifier::ext_equal]
pub ghost struct FactoryView {
    pub base: nat,
    pub capacity: nat,
    pub rows: Seq<ParticleRow>,
}

/// Shape constraints every reachable factory satisfies: the batch fits in
/// the owning buffers.
pub open spec fn fview_wf(v: FactoryView) -> bool {
    &&& v.base + v.rows.len() <= v.capacity
    &&& v.capacity <= 0x7fff_ffff
}

/// A batch-creation context over the particle buffers, starting at a fixed
/// base offset (normally the owning state's current particle count).
pub struct ParticleFactory {
    base: usize,
    capacity: usize,
    positions: Vec<Vector4>,
    velocities: Vec<Vector3>,
    phases: Vec<i32>,
}

impl View for ParticleFactory {
    type V = FactoryView;

    closed spec fn view(&self) -> FactoryView {
        FactoryView {
            base: self.base as nat,
            capacity: self.capacity as nat,
            rows: Seq::new(
                self.positions@.len(),
                |i: int| (self.positions@[i], self.velocities@[i], self.phases@[i]),
            ),
        }
    }
}

impl ParticleFactory {
    pub closed spec fn inv(&self) -> bool {
        &&& self.velocities@.len() == self.positions@.len()
        &&& self.phases@.len() == self.positions@.len()
        &&& self.base + self.positions@.len() <= self.capacity
        &&& self.capacity <= 0x7fff_ffff
    }

    /// Every reachable factory has a well-formed view.
    pub proof fn lemma_inv_wf(&self)
        requires
            self.inv(),
        ensures
            fview_wf(self@),
    {
    }

    /// The accumulated row at batch offset `j`.
    pub fn row(&self, j: usize) -> (r: ParticleRow)
        requires
            self.inv(),
            j < self@.rows.len(),
        ensures
            r == self@.rows[j as int],
    {
        (self.positions[j], self.velocities[j], self.phases[j])
    }

    /// Begins an empty batch at `base`, bound to buffers of `capacity` entries.
    pub fn new(base: usize, capacity: usize) -> (f: Self)
        requires
            base <= capacity,
            capacity <= 0x7fff_ffff,
        ensures
            f.inv(),
            f@.base == base,
            f@.capacity == capacity,
            f@.rows =~= Seq::<ParticleRow>::empty(),
    {
        ParticleFactory {
            base,
            capacity,
            positions: Vec::new(),
            velocities: Vec::new(),
            phases: Vec::new(),
        }
    }

    /// How many particles this batch has accumulated so far.
    pub fn nparticles(&self) -> (n: usize)
        ensures
            n == self@.rows.len(),
    {
        self.positions.len()
    }

    /// Appends one particle to the batch at the next free offset. Every
    /// created particle is implicitly active, so the flag is accepted and
    /// ignored.
    pub fn create(&mut self, pos: Vector4, velocity: Vector3, phase: i32, _active: bool)
        requires
            old(self).inv(),
            old(self)@.base + old(self)@.rows.len() < old(self)@.capacity,
        ensures
            final(self).inv(),
            final(self)@.base == old(self)@.base,
            final(self)@.capacity == old(self)@.capacity,
            final(self)@.rows =~= old(self)@.rows.push((pos, velocity, phase)),
    {
        self.positions.push(pos);
        self.velocities.push(velocity);
        self.phases.push(phase);
    }
}

} // verus!
