//! Host-side particle state: four parallel buffers (position + inverse mass,
//! velocity, phase, active index), a count, and a dirty flag.
//!
//! Index `i` refers to the same logical particle in all four buffers. Every
//! mutator performs its own map/write/unmap cycle, so the buffers are
//! unmapped at every boundary between public calls; the one exception is a
//! snapshot (`get` and the piecemeal getters), which leaves buffers mapped
//! until the caller releases them with `unmap`.

use vstd::prelude::*;

use crate::buffer::AllocError;
use crate::buffer::BufferError;
use crate::buffer::HostBuffer;
use crate::factory::ParticleFactory;
use crate::factory::ParticleRow;
use crate::types::Particle;
use crate::types::Vector3;
use crate::types::Vector4;

verus! {

/// Mathematical content of a particle state: the four parallel sequences,
/// the logical count, the dirty flag, and the buffer lifecycle flags.
#[verifier::ext_equal]
pub ghost struct ParticleStateView {
    pub allocated: bool,
    pub has_changes: bool,
    pub count: nat,
    pub capacity: nat,
    pub positions: Seq<Vector4>,
    pub velocities: Seq<Vector3>,
    pub phases: Seq<i32>,
    pub active: Seq<i32>,
    pub positions_mapped: bool,
    pub velocities_mapped: bool,
    pub phases_mapped: bool,
    pub released: bool,
}

/// Shape constraints every reachable particle state satisfies.
pub open spec fn pview_wf(v: ParticleStateView) -> bool {
    &&& v.positions.len() == v.capacity
    &&& v.velocities.len() == v.capacity
    &&& v.phases.len() == v.capacity
    &&& v.active.len() == v.capacity
    &&& v.count <= v.capacity
    &&& v.capacity <= 0x7fff_ffff
    &&& (!v.allocated ==> v.capacity == 0 && v.count == 0 && !v.has_changes)
}

/// Whether any of the three snapshot buffers is mapped for host access.
pub open spec fn any_mapped(v: ParticleStateView) -> bool {
    v.positions_mapped || v.velocities_mapped || v.phases_mapped
}

/// Whether a full snapshot window is open (all three snapshot buffers mapped).
pub open spec fn snapshot_open(v: ParticleStateView) -> bool {
    v.positions_mapped && v.velocities_mapped && v.phases_mapped
}

/// The state of a fresh allocation: everything zeroed, nothing mapped.
pub open spec fn fresh_pview(capacity: nat) -> ParticleStateView {
    ParticleStateView {
        allocated: true,
        has_changes: false,
        count: 0,
        capacity,
        positions: Seq::new(capacity, |i: int| Vector4(0, 0, 0, 0)),
        velocities: Seq::new(capacity, |i: int| Vector3(0, 0, 0)),
        phases: Seq::new(capacity, |i: int| 0i32),
        active: Seq::new(capacity, |i: int| 0i32),
        positions_mapped: false,
        velocities_mapped: false,
        phases_mapped: false,
        released: false,
    }
}

/// The state before allocation: zero-capacity buffers, nothing to push.
pub open spec fn empty_pview() -> ParticleStateView {
    ParticleStateView {
        allocated: false,
        has_changes: false,
        count: 0,
        capacity: 0,
        positions: Seq::empty(),
        velocities: Seq::empty(),
        phases: Seq::empty(),
        active: Seq::empty(),
        positions_mapped: false,
        velocities_mapped: false,
        phases_mapped: false,
        released: false,
    }
}

/// The given view with the three snapshot-buffer map flags replaced.
pub open spec fn with_mapped(v: ParticleStateView, pm: bool, vm: bool, phm: bool) -> ParticleStateView {
    ParticleStateView {
        positions_mapped: pm,
        velocities_mapped: vm,
        phases_mapped: phm,
        ..v
    }
}

/// The given view after a successful push: clean, nothing else changed.
pub open spec fn flushed_pview(v: ParticleStateView) -> ParticleStateView {
    ParticleStateView { has_changes: false, ..v }
}

/// The given view after one particle is added at index `count`: the new
/// record written in all four parallel sequences (the active index equals
/// the insertion index — every created particle is active), the count
/// advanced, and the state marked dirty.
pub open spec fn add_row_pview(v: ParticleStateView, row: ParticleRow) -> ParticleStateView {
    ParticleStateView {
        has_changes: true,
        count: v.count + 1,
        positions: v.positions.update(v.count as int, row.0),
        velocities: v.velocities.update(v.count as int, row.1),
        phases: v.phases.update(v.count as int, row.2),
        active: v.active.update(v.count as int, v.count as i32),
        ..v
    }
}

/// The given view after the rows are added one at a time, first to last.
pub open spec fn add_rows_pview(v: ParticleStateView, rows: Seq<ParticleRow>) -> ParticleStateView
    decreases rows.len(),
{
    if rows.len() == 0 {
        v
    } else {
        add_row_pview(add_rows_pview(v, rows.drop_last()), rows.last())
    }
}

/// The given view after a batch of rows is committed in one mapped scope:
/// the rows land at indices `count .. count + rows.len()`, their active
/// indices equal their insertion indices, the count advances by the batch
/// size, and the state is dirty exactly if it was dirty or the batch is
/// non-empty.
pub open spec fn commit_pview(v: ParticleStateView, rows: Seq<ParticleRow>) -> ParticleStateView {
    ParticleStateView {
        has_changes: v.has_changes || rows.len() > 0,
        count: v.count + rows.len(),
        positions: Seq::new(
            v.positions.len(),
            |i: int| if v.count <= i < v.count + rows.len() { rows[i - v.count].0 } else { v.positions[i] },
        ),
        velocities: Seq::new(
            v.velocities.len(),
            |i: int| if v.count <= i < v.count + rows.len() { rows[i - v.count].1 } else { v.velocities[i] },
        ),
        phases: Seq::new(
            v.phases.len(),
            |i: int| if v.count <= i < v.count + rows.len() { rows[i - v.count].2 } else { v.phases[i] },
        ),
        active: Seq::new(
            v.active.len(),
            |i: int| if v.count <= i < v.count + rows.len() { i as i32 } else { v.active[i] },
        ),
        ..v
    }
}

/// After any sequence of particle additions that fits in the capacity, the
/// count equals the prior count plus the number of additions; every added
/// record sits at its insertion index in all four parallel sequences, with
/// its active index equal to that insertion index; records added earlier are
/// untouched; and the state is dirty exactly if it was dirty or at least one
/// particle was added.
pub proof fn lemma_add_rows_effect(v: ParticleStateView, rows: Seq<ParticleRow>)
    requires
        pview_wf(v),
        v.count + rows.len() <= v.capacity,
    ensures
        pview_wf(add_rows_pview(v, rows)),
        add_rows_pview(v, rows).count == v.count + rows.len(),
        add_rows_pview(v, rows).capacity == v.capacity,
        add_rows_pview(v, rows).allocated == v.allocated,
        add_rows_pview(v, rows).released == v.released,
        add_rows_pview(v, rows).positions_mapped == v.positions_mapped,
        add_rows_pview(v, rows).velocities_mapped == v.velocities_mapped,
        add_rows_pview(v, rows).phases_mapped == v.phases_mapped,
        add_rows_pview(v, rows).has_changes == (v.has_changes || rows.len() > 0),
        forall|i: int| 0 <= i < rows.len() ==> add_rows_pview(v, rows).positions[v.count + i] == rows[i].0,
        forall|i: int| 0 <= i < rows.len() ==> add_rows_pview(v, rows).velocities[v.count + i] == rows[i].1,
        forall|i: int| 0 <= i < rows.len() ==> add_rows_pview(v, rows).phases[v.count + i] == rows[i].2,
        forall|i: int| 0 <= i < rows.len() ==> #[trigger] add_rows_pview(v, rows).active[v.count + i] == (v.count + i) as i32,
        forall|i: int| 0 <= i < v.count ==> add_rows_pview(v, rows).positions[i] == v.positions[i],
        forall|i: int| 0 <= i < v.count ==> add_rows_pview(v, rows).velocities[i] == v.velocities[i],
        forall|i: int| 0 <= i < v.count ==> add_rows_pview(v, rows).phases[i] == v.phases[i],
        forall|i: int| 0 <= i < v.count ==> add_rows_pview(v, rows).active[i] == v.active[i],
    decreases rows.len(),
{
    if rows.len() > 0 {
        lemma_add_rows_effect(v, rows.drop_last());
        assert forall|i: int| 0 <= i < rows.len() implies add_rows_pview(v, rows).positions[v.count + i] == rows[i].0
            && add_rows_pview(v, rows).velocities[v.count + i] == rows[i].1
            && add_rows_pview(v, rows).phases[v.count + i] == rows[i].2 by {
            if i < rows.len() - 1 {
                assert(rows.drop_last()[i] == rows[i]);
            }
        }
    }
}

/// A push clears the dirty flag and changes nothing else, so a second push
/// with no intervening mutation finds a clean state — it reports a no-op and
/// leaves the state exactly as the first push left it.
pub proof fn lemma_push_then_push_is_noop(v: ParticleStateView)
    ensures
        !flushed_pview(v).has_changes,
        flushed_pview(flushed_pview(v)) == flushed_pview(v),
{
}

/// Committing a factory batch of rows yields exactly the state of the same
/// rows added one at a time with `add_particle`, so one push after the batch
/// yields identical final buffer contents to one push after the sequential
/// additions — for any batch that fits in the capacity.
pub proof fn lemma_batch_matches_sequential(v: ParticleStateView, rows: Seq<ParticleRow>)
    requires
        pview_wf(v),
        v.count + rows.len() <= v.capacity,
    ensures
        commit_pview(v, rows) =~= add_rows_pview(v, rows),
        flushed_pview(commit_pview(v, rows)) =~= flushed_pview(add_rows_pview(v, rows)),
    decreases rows.len(),
{
    if rows.len() == 0 {
        assert(commit_pview(v, rows) =~= v);
    } else {
        lemma_batch_matches_sequential(v, rows.drop_last());
        lemma_add_rows_effect(v, rows.drop_last());
        assert(commit_pview(v, rows) =~= add_row_pview(commit_pview(v, rows.drop_last()), rows.last()));
    }
}

/// Owns the four parallel particle buffers and their change tracking.
pub struct ParticleState {
    allocated: bool,
    has_changes: bool,
    count: usize,
    buffer: HostBuffer<Vector4>,
    velocities: HostBuffer<Vector3>,
    phases: HostBuffer<i32>,
    active_indices: HostBuffer<i32>,
}

impl View for ParticleState {
    type V = ParticleStateView;

    closed spec fn view(&self) -> ParticleStateView {
        ParticleStateView {
            allocated: self.allocated,
            has_changes: self.has_changes,
            count: self.count as nat,
            capacity: self.buffer.capacity(),
            positions: self.buffer@,
            velocities: self.velocities@,
            phases: self.phases@,
            active: self.active_indices@,
            positions_mapped: self.buffer.is_mapped(),
            velocities_mapped: self.velocities.is_mapped(),
            phases_mapped: self.phases.is_mapped(),
            released: self.buffer.is_freed(),
        }
    }
}

impl Default for ParticleState {
    /// An unallocated particle state: zero capacity, clean, nothing mapped.
    fn default() -> (s: Self)
        ensures
            s.inv(),
            s@ =~= empty_pview(),
    {
        ParticleState {
            allocated: false,
            has_changes: false,
            count: 0,
            buffer: HostBuffer::allocate(0, Vector4(0, 0, 0, 0)),
            velocities: HostBuffer::allocate(0, Vector3(0, 0, 0)),
            phases: HostBuffer::allocate(0, 0i32),
            active_indices: HostBuffer::allocate(0, 0i32),
        }
    }
}

impl ParticleState {
    /// Internal consistency: the four buffers are allocated together, have
    /// identical capacity, and live and die together; the active-index
    /// buffer is only ever mapped transiently inside a mutator.
    pub closed spec fn inv(&self) -> bool {
        &&& self.velocities.capacity() == self.buffer.capacity()
        &&& self.phases.capacity() == self.buffer.capacity()
        &&& self.active_indices.capacity() == self.buffer.capacity()
        &&& self.count <= self.buffer.capacity()
        &&& self.buffer.capacity() <= 0x7fff_ffff
        &&& (!self.allocated ==> self.buffer.capacity() == 0 && self.count == 0
            && !self.has_changes)
        &&& (self.buffer.is_freed() <==> self.velocities.is_freed())
        &&& (self.buffer.is_freed() <==> self.phases.is_freed())
        &&& (self.buffer.is_freed() <==> self.active_indices.is_freed())
        &&& (!self.buffer.is_freed() ==> !self.active_indices.is_mapped())
    }

    /// Every reachable particle state has a well-formed view.
    pub proof fn lemma_inv_wf(&self)
        requires
            self.inv(),
        ensures
            pview_wf(self@),
    {
    }

    /// Number of particles currently created.
    pub fn get_count(&self) -> (n: usize)
        ensures
            n == self@.count,
    {
        self.count
    }

    /// Allocates the four parallel buffers for `capacity` particles.
    /// Single-shot: a second allocation is refused, so the first is never
    /// leaked.
    pub fn allocate(&mut self, capacity: usize) -> (r: Result<(), AllocError>)
        requires
            old(self).inv(),
            capacity <= 0x7fff_ffff,
        ensures
            final(self).inv(),
            r is Ok <==> !old(self)@.allocated,
            !old(self)@.allocated ==> final(self)@ =~= fresh_pview(capacity as nat),
            old(self)@.allocated ==> final(self)@ == old(self)@
                && r == Err::<(), AllocError>(AllocError::AlreadyAllocated),
    {
        if self.allocated {
            return Err(AllocError::AlreadyAllocated);
        }
        self.buffer = HostBuffer::allocate(capacity, Vector4(0, 0, 0, 0));
        self.velocities = HostBuffer::allocate(capacity, Vector3(0, 0, 0));
        self.phases = HostBuffer::allocate(capacity, 0i32);
        self.active_indices = HostBuffer::allocate(capacity, 0i32);
        self.count = 0;
        self.has_changes = false;
        self.allocated = true;
        Ok(())
    }

    /// Adds one particle at index `count`: maps all four buffers, writes the
    /// record (the particle is implicitly active, so its active index is its
    /// insertion index; the flag is accepted and ignored), unmaps, advances
    /// the count and marks the state dirty. One map/unmap round-trip per
    /// call — bulk insertion should go through a factory batch instead.
    pub fn add_particle(&mut self, pos: Vector4, vel: Vector3, phase: i32, _active: bool)
        requires
            old(self).inv(),
            old(self)@.allocated,
            !any_mapped(old(self)@),
            !old(self)@.released,
            old(self)@.count < old(self)@.capacity,
        ensures
            final(self).inv(),
            final(self)@ =~= add_row_pview(old(self)@, (pos, vel, phase)),
    {
        let i = self.count;
        let _r = self.buffer.map();
        let _r = self.velocities.map();
        let _r = self.phases.map();
        let _r = self.active_indices.map();
        self.buffer.write(i, pos);
        self.velocities.write(i, vel);
        self.phases.write(i, phase);
        self.active_indices.write(i, i as i32);
        let _r = self.buffer.unmap();
        let _r = self.velocities.unmap();
        let _r = self.phases.unmap();
        let _r = self.active_indices.unmap();
        self.count = i + 1;
        self.has_changes = true;
    }

    /// Begins a batch-creation context at the current count.
    pub fn factory(&self) -> (f: ParticleFactory)
        requires
            self.inv(),
            self@.allocated,
        ensures
            f.inv(),
            f@.base == self@.count,
            f@.capacity == self@.capacity,
            f@.rows =~= Seq::<ParticleRow>::empty(),
    {
        ParticleFactory::new(self.count, self.buffer.size())
    }

    /// Commits a batch begun with `factory`: maps the four buffers once,
    /// writes every accumulated row at its insertion index, unmaps once,
    /// folds the batch size into the count and marks the state dirty if the
    /// batch was non-empty.
    pub fn commit(&mut self, f: &ParticleFactory)
        requires
            old(self).inv(),
            f.inv(),
            old(self)@.allocated,
            !any_mapped(old(self)@),
            !old(self)@.released,
            f@.base == old(self)@.count,
            f@.capacity == old(self)@.capacity,
        ensures
            final(self).inv(),
            final(self)@ =~= commit_pview(old(self)@, f@.rows),
    {
        proof {
            f.lemma_inv_wf();
        }
        let n = f.nparticles();
        let _r = self.buffer.map();
        let _r = self.velocities.map();
        let _r = self.phases.map();
        let _r = self.active_indices.map();
        let mut j: usize = 0;
        while j < n
            invariant
                old(self).inv(),
                f.inv(),
                old(self)@.allocated,
                f@.base == old(self)@.count,
                f@.capacity == old(self)@.capacity,
                crate::factory::fview_wf(f@),
                n == f@.rows.len(),
                j <= n,
                self.allocated == old(self).allocated,
                self.count == old(self).count,
                self.has_changes == old(self).has_changes,
                self.inv_mapped_quad(),
                self@.capacity == old(self)@.capacity,
                self@.positions =~= commit_pview(old(self)@, f@.rows.take(j as int)).positions,
                self@.velocities =~= commit_pview(old(self)@, f@.rows.take(j as int)).velocities,
                self@.phases =~= commit_pview(old(self)@, f@.rows.take(j as int)).phases,
                self@.active =~= commit_pview(old(self)@, f@.rows.take(j as int)).active,
            decreases n - j,
        {
            let (pos, vel, phase) = f.row(j);
            let idx = self.count + j;
            self.buffer.write(idx, pos);
            self.velocities.write(idx, vel);
            self.phases.write(idx, phase);
            self.active_indices.write(idx, idx as i32);
            j = j + 1;
        }
        let _r = self.buffer.unmap();
        let _r = self.velocities.unmap();
        let _r = self.phases.unmap();
        let _r = self.active_indices.unmap();
        if n > 0 {
            self.has_changes = true;
        }
        self.count = self.count + n;
        proof {
            assert(f@.rows.take(n as int) =~= f@.rows);
        }
    }

    /// All four buffers mapped, capacities intact: the shape of the state in
    /// the middle of a batch commit.
    pub closed spec fn inv_mapped_quad(&self) -> bool {
        &&& self.velocities.capacity() == self.buffer.capacity()
        &&& self.phases.capacity() == self.buffer.capacity()
        &&& self.active_indices.capacity() == self.buffer.capacity()
        &&& self.count <= self.buffer.capacity()
        &&& self.buffer.capacity() <= 0x7fff_ffff
        &&& self.buffer.is_mapped()
        &&& self.velocities.is_mapped()
        &&& self.phases.is_mapped()
        &&& self.active_indices.is_mapped()
    }

    /// Whether any snapshot buffer is currently mapped for host access.
    pub fn snapshot_open(&self) -> (r: bool)
        ensures
            r == any_mapped(self@),
    {
        self.buffer.mapped() || self.velocities.mapped() || self.phases.mapped()
    }

    /// Reports whether host-side contents have diverged from what was last
    /// pushed to the solver.
    pub fn dirty(&self) -> (r: bool)
        ensures
            r == self@.has_changes,
    {
        self.has_changes
    }

    /// Pushes the current buffer contents to the solver as the particle
    /// positions, velocities, phases and active-index list (with every
    /// created particle active). A clean state is a no-op: the call reports
    /// whether anything was pushed, and leaves the state clean either way.
    /// Must only be called while all buffers are unmapped.
    pub fn flush(&mut self) -> (r: bool)
        requires
            old(self).inv(),
            !any_mapped(old(self)@),
            !old(self)@.released,
        ensures
            final(self).inv(),
            r == old(self)@.has_changes,
            final(self)@ =~= flushed_pview(old(self)@),
    {
        if !self.has_changes {
            return false;
        }
        self.has_changes = false;
        true
    }

    /// Adopts solver-reported contents into the host mirror (the readback
    /// that precedes a snapshot). Host and solver agree afterwards, so the
    /// dirty flag is untouched.
    pub fn absorb_results(
        &mut self,
        positions: &Vec<Vector4>,
        velocities: &Vec<Vector3>,
        phases: &Vec<i32>,
    )
        requires
            old(self).inv(),
            old(self)@.allocated,
            !any_mapped(old(self)@),
            !old(self)@.released,
            positions@.len() == old(self)@.capacity,
            velocities@.len() == old(self)@.capacity,
            phases@.len() == old(self)@.capacity,
        ensures
            final(self).inv(),
            final(self)@ =~= (ParticleStateView {
                positions: positions@,
                velocities: velocities@,
                phases: phases@,
                ..old(self)@
            }),
    {
        let _r = self.buffer.map();
        let _r = self.velocities.map();
        let _r = self.phases.map();
        let n = self.buffer.size();
        let mut i: usize = 0;
        while i < n
            invariant
                old(self).inv(),
                n == old(self)@.capacity,
                i <= n,
                positions@.len() == n,
                velocities@.len() == n,
                phases@.len() == n,
                self.allocated == old(self).allocated,
                self.count == old(self).count,
                self.has_changes == old(self).has_changes,
                self.buffer.is_mapped(),
                self.velocities.is_mapped(),
                self.phases.is_mapped(),
                self.buffer.capacity() == n,
                self.velocities.capacity() == n,
                self.phases.capacity() == n,
                self.active_indices.same_state(old(self).active_indices),
                forall|k: int| 0 <= k < i ==> self@.positions[k] == positions@[k],
                forall|k: int| 0 <= k < i ==> self@.velocities[k] == velocities@[k],
                forall|k: int| 0 <= k < i ==> self@.phases[k] == phases@[k],
                forall|k: int| i <= k < n ==> self@.positions[k] == old(self)@.positions[k],
                forall|k: int| i <= k < n ==> self@.velocities[k] == old(self)@.velocities[k],
                forall|k: int| i <= k < n ==> self@.phases[k] == old(self)@.phases[k],
            decreases n - i,
        {
            self.buffer.write(i, positions[i]);
            self.velocities.write(i, velocities[i]);
            self.phases.write(i, phases[i]);
            i = i + 1;
        }
        let _r = self.buffer.unmap();
        let _r = self.velocities.unmap();
        let _r = self.phases.unmap();
    }

    /// Maps the position buffer and hands back its contents (the solver's
    /// particle positions after a readback). The caller must release with
    /// `unmap`; asking again while still mapped, or after the buffers were
    /// freed, is detected.
    pub fn get_particles(&mut self) -> (r: Result<Vec<Vector4>, BufferError>)
        requires
            old(self).inv(),
        ensures
            final(self).inv(),
            r is Ok <==> (!old(self)@.positions_mapped && !old(self)@.released),
            (match r {
                Ok(v) => v@ == old(self)@.positions
                    && final(self)@ =~= with_mapped(old(self)@, true, old(self)@.velocities_mapped, old(self)@.phases_mapped),
                Err(e) => final(self)@ == old(self)@
                    && (old(self)@.released ==> e == BufferError::AlreadyFreed)
                    && (!old(self)@.released ==> e == BufferError::AlreadyMapped),
            }),
    {
        match self.buffer.map() {
            Ok(_) => Ok(self.buffer.read_all()),
            Err(e) => Err(e),
        }
    }

    /// Maps the velocity buffer and hands back its contents. Same release
    /// contract as `get_particles`.
    pub fn get_velocities(&mut self) -> (r: Result<Vec<Vector3>, BufferError>)
        requires
            old(self).inv(),
        ensures
            final(self).inv(),
            r is Ok <==> (!old(self)@.velocities_mapped && !old(self)@.released),
            (match r {
                Ok(v) => v@ == old(self)@.velocities
                    && final(self)@ =~= with_mapped(old(self)@, old(self)@.positions_mapped, true, old(self)@.phases_mapped),
                Err(e) => final(self)@ == old(self)@
                    && (old(self)@.released ==> e == BufferError::AlreadyFreed)
                    && (!old(self)@.released ==> e == BufferError::AlreadyMapped),
            }),
    {
        match self.velocities.map() {
            Ok(_) => Ok(self.velocities.read_all()),
            Err(e) => Err(e),
        }
    }

    /// Maps the phase buffer and hands back its contents. Same release
    /// contract as `get_particles`.
    pub fn get_phases(&mut self) -> (r: Result<Vec<i32>, BufferError>)
        requires
            old(self).inv(),
        ensures
            final(self).inv(),
            r is Ok <==> (!old(self)@.phases_mapped && !old(self)@.released),
            (match r {
                Ok(v) => v@ == old(self)@.phases
                    && final(self)@ =~= with_mapped(old(self)@, old(self)@.positions_mapped, old(self)@.velocities_mapped, true),
                Err(e) => final(self)@ == old(self)@
                    && (old(self)@.released ==> e == BufferError::AlreadyFreed)
                    && (!old(self)@.released ==> e == BufferError::AlreadyMapped),
            }),
    {
        match self.phases.map() {
            Ok(_) => Ok(self.phases.read_all()),
            Err(e) => Err(e),
        }
    }

    /// Opens a snapshot: maps the three result buffers and assembles one
    /// `Particle` view per created particle, index-aligned across the
    /// parallel buffers. The caller must release the snapshot with `unmap`
    /// before any further mutation or the next snapshot; a second snapshot
    /// while one is open is detected, never silently an empty result.
    pub fn get(&mut self) -> (r: Result<Vec<Particle>, BufferError>)
        requires
            old(self).inv(),
        ensures
            final(self).inv(),
            r is Ok <==> (!any_mapped(old(self)@) && !old(self)@.released),
            (match r {
                Ok(ps) => {
                    &&& ps@.len() == old(self)@.count
                    &&& (forall|i: int| 0 <= i < old(self)@.count ==> ps@[i] == (Particle {
                        pdata: old(self)@.positions[i],
                        velocity: old(self)@.velocities[i],
                        phase: old(self)@.phases[i],
                    }))
                    &&& final(self)@ =~= with_mapped(old(self)@, true, true, true)
                },
                Err(e) => final(self)@ == old(self)@
                    && (old(self)@.released ==> e == BufferError::AlreadyFreed)
                    && (!old(self)@.released ==> e == BufferError::AlreadyMapped),
            }),
    {
        if self.buffer.freed() {
            return Err(BufferError::AlreadyFreed);
        }
        if self.buffer.mapped() || self.velocities.mapped() || self.phases.mapped() {
            return Err(BufferError::AlreadyMapped);
        }
        let _r = self.buffer.map();
        let _r = self.velocities.map();
        let _r = self.phases.map();
        let mut out: Vec<Particle> = Vec::new();
        let mut i: usize = 0;
        let n = self.count;
        while i < n
            invariant
                old(self).inv(),
                n == old(self)@.count,
                i <= n,
                self.allocated == old(self).allocated,
                self.count == old(self).count,
                self.has_changes == old(self).has_changes,
                self.inv(),
                self.buffer.is_mapped(),
                self.velocities.is_mapped(),
                self.phases.is_mapped(),
                self.active_indices.same_state(old(self).active_indices),
                self@.positions == old(self)@.positions,
                self@.velocities == old(self)@.velocities,
                self@.phases == old(self)@.phases,
                self@.capacity == old(self)@.capacity,
                out@.len() == i,
                forall|k: int| 0 <= k < i ==> out@[k] == (Particle {
                    pdata: old(self)@.positions[k],
                    velocity: old(self)@.velocities[k],
                    phase: old(self)@.phases[k],
                }),
            decreases n - i,
        {
            let p = Particle {
                pdata: self.buffer.read(i),
                velocity: self.velocities.read(i),
                phase: self.phases.read(i),
            };
            out.push(p);
            i = i + 1;
        }
        Ok(out)
    }

    /// Releases a snapshot window: unmaps whichever of the three result
    /// buffers are mapped. Releasing when nothing is mapped, or after the
    /// buffers were freed, is detected.
    pub fn unmap(&mut self) -> (r: Result<(), BufferError>)
        requires
            old(self).inv(),
        ensures
            final(self).inv(),
            r is Ok <==> (any_mapped(old(self)@) && !old(self)@.released),
            r is Ok ==> final(self)@ =~= with_mapped(old(self)@, false, false, false),
            r is Err ==> final(self)@ == old(self)@,
            old(self)@.released ==> r == Err::<(), BufferError>(BufferError::AlreadyFreed),
            (!old(self)@.released && !any_mapped(old(self)@)) ==> r == Err::<(), BufferError>(BufferError::NotMapped),
    {
        if self.buffer.freed() {
            return Err(BufferError::AlreadyFreed);
        }
        if !(self.buffer.mapped() || self.velocities.mapped() || self.phases.mapped()) {
            return Err(BufferError::NotMapped);
        }
        if self.buffer.mapped() {
            let _r = self.buffer.unmap();
        }
        if self.velocities.mapped() {
            let _r = self.velocities.unmap();
        }
        if self.phases.mapped() {
            let _r = self.phases.unmap();
        }
        Ok(())
    }

    /// Frees all four buffers, exactly once, after the last unmap. Part of
    /// session teardown; the state is unusable afterwards.
    pub fn release(&mut self) -> (r: Result<(), BufferError>)
        requires
            old(self).inv(),
        ensures
            final(self).inv(),
            r is Ok <==> (!any_mapped(old(self)@) && !old(self)@.released),
            r is Ok ==> final(self)@ =~= (ParticleStateView { released: true, ..old(self)@ }),
            r is Err ==> final(self)@ == old(self)@,
            old(self)@.released ==> r == Err::<(), BufferError>(BufferError::AlreadyFreed),
            (!old(self)@.released && any_mapped(old(self)@)) ==> r == Err::<(), BufferError>(BufferError::StillMapped),
    {
        if self.buffer.freed() {
            return Err(BufferError::AlreadyFreed);
        }
        if self.buffer.mapped() || self.velocities.mapped() || self.phases.mapped() {
            return Err(BufferError::StillMapped);
        }
        let _r = self.buffer.free();
        let _r = self.velocities.free();
        let _r = self.phases.free();
        let _r = self.active_indices.free();
        Ok(())
    }
}

} // verus!
