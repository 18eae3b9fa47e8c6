//! The simulation session: top-level owner of the solver handle and the two
//! state sub-objects.
//!
//! A session is a small state machine: uninitialized, running, destroyed.
//! Initialization allocates both states, seeds boundary shapes and an
//! initial particle batch, and pushes both — or fails as a whole if the
//! solver engine could not be created, leaving nothing half-built. While
//! running, the session advances time, accepts additions that take effect on
//! the next explicit push, and exposes a snapshot that the caller must
//! release. Teardown releases every buffer of both states before the solver
//! instance and the engine handle, in that order, exactly once.
//!
//! The solver itself is outside: the session plans each solver command
//! (a timestep, the teardown sequence) as a value, and the embedding
//! application performs it.

use vstd::prelude::*;

use crate::buffer::BufferError;
use crate::config::MAX_PARTICLES;
use crate::config::MAX_SHAPES;
use crate::factory::ParticleRow;
use crate::geometry::add_shape_gview;
use crate::geometry::add_shapes_gview;
use crate::geometry::fresh_gview;
use crate::geometry::flushed_gview;
use crate::geometry::empty_gview;
use crate::geometry::GeometryState;
use crate::geometry::GeometryStateView;
use crate::geometry::ShapeRow;
use crate::geometry::lemma_added_shapes_poses_consistent;
use crate::geometry::poses_consistent;
use crate::particle::add_row_pview;
use crate::particle::any_mapped;
use crate::particle::commit_pview;
use crate::particle::empty_pview;
use crate::particle::flushed_pview;
use crate::particle::fresh_pview;
use crate::particle::lemma_add_rows_effect;
use crate::particle::lemma_batch_matches_sequential;
use crate::particle::with_mapped;
use crate::particle::ParticleState;
use crate::particle::ParticleStateView;
use crate::types::CollisionGeometry;
use crate::types::Particle;
use crate::types::Quat;
use crate::types::Vector3;
use crate::types::Vector4;

verus! {

/// Where a session stands in its lifecycle.
#[derive(Clone, Copy, Debug, PartialEq, Eq, Structural)]
pub enum SessionPhase {
    /// Constructed; no solver resources exist yet.
    Uninitialized,
    /// Solver created, both states allocated, seeded and pushed.
    Running,
    /// All buffers freed, solver and engine gone.
    Destroyed,
}

/// A fatal initialization failure; the session is not usable.
#[derive(Clone, Copy, Debug, PartialEq, Eq, Structural)]
pub enum InitError {
    /// The solver engine rejected the requested version or configuration.
    NvFlexInit,
}

/// Teardown cannot fail: `destroy` promises an `Ok` result, and this type is
/// never constructed by the library.
#[derive(Clone, Copy, Debug, PartialEq, Eq, Structural)]
pub struct ShutdownError;

/// One solver advance, planned by `tick` and performed by the embedding
/// application: the timestep (an IEEE-754 bit pattern of seconds), the
/// number of substeps, and whether solver timers are collected.
#[derive(Clone, Copy, Debug, PartialEq, Eq, Structural)]
pub struct SolverStep {
    pub dt_bits: u32,
    pub substeps: i32,
    pub enable_timers: bool,
}

/// Names one of the ten host buffers a session owns.
#[derive(Clone, Copy, Debug, PartialEq, Eq, Structural)]
pub enum BufferId {
    ParticlePositions,
    ParticleVelocities,
    ParticlePhases,
    ParticleActive,
    ShapeDescriptors,
    ShapePositions,
    ShapeRotations,
    ShapePreviousPositions,
    ShapePreviousRotations,
    ShapeFlags,
}

/// One step of session teardown, performed in plan order by the embedding
/// application.
#[derive(Clone, Copy, Debug, PartialEq, Eq, Structural)]
pub enum TeardownAction {
    /// Release one host buffer.
    FreeBuffer(BufferId),
    /// Destroy the solver instance.
    DestroySolver,
    /// Shut the solver engine handle down.
    ShutdownEngine,
}

/// The fixed teardown order: every buffer of both states is freed first —
/// the four particle buffers, then the six geometry buffers — and only then
/// the solver instance and the engine handle go.
pub open spec fn teardown_plan() -> Seq<TeardownAction> {
    seq![
        TeardownAction::FreeBuffer(BufferId::ParticlePositions),
        TeardownAction::FreeBuffer(BufferId::ParticleVelocities),
        TeardownAction::FreeBuffer(BufferId::ParticlePhases),
        TeardownAction::FreeBuffer(BufferId::ParticleActive),
        TeardownAction::FreeBuffer(BufferId::ShapeDescriptors),
        TeardownAction::FreeBuffer(BufferId::ShapePositions),
        TeardownAction::FreeBuffer(BufferId::ShapeRotations),
        TeardownAction::FreeBuffer(BufferId::ShapePreviousPositions),
        TeardownAction::FreeBuffer(BufferId::ShapePreviousRotations),
        TeardownAction::FreeBuffer(BufferId::ShapeFlags),
        TeardownAction::DestroySolver,
        TeardownAction::ShutdownEngine,
    ]
}

/// In the teardown plan, all ten buffer releases come first, then the
/// solver's destruction, and last the engine's shutdown: no buffer outlives
/// its final unmap unreleased, and nothing is asked of the solver after it
/// is gone.
pub proof fn lemma_teardown_ordering()
    ensures
        teardown_plan().len() == 12,
        forall|i: int| 0 <= i < 10 ==> #[trigger] teardown_plan()[i] is FreeBuffer,
        teardown_plan()[10] is DestroySolver,
        teardown_plan()[11] is ShutdownEngine,
        forall|i: int, j: int|
            0 <= i < teardown_plan().len() && 0 <= j < teardown_plan().len()
                && #[trigger] teardown_plan()[i] is FreeBuffer
                && !(#[trigger] teardown_plan()[j] is FreeBuffer) ==> i < j,
        forall|i: int, j: int|
            0 <= i < teardown_plan().len() && 0 <= j < teardown_plan().len()
                && #[trigger] teardown_plan()[i] is DestroySolver
                && #[trigger] teardown_plan()[j] is ShutdownEngine ==> i < j,
{
}

/// A freshly initialized session holds exactly the seeded content: one
/// particle per seeded row, at its insertion index and active; one shape per
/// seeded shape, its previous pose equal to its current pose; and both
/// states clean — everything was pushed, a snapshot after one tick reports
/// precisely the seeds' records.
pub proof fn lemma_init_seeds(shapes: Seq<ShapeRow>, rows: Seq<ParticleRow>)
    requires
        shapes.len() <= MAX_SHAPES,
        rows.len() <= MAX_PARTICLES,
    ensures
        flushed_pview(commit_pview(fresh_pview(MAX_PARTICLES as nat), rows)).count == rows.len(),
        !flushed_pview(commit_pview(fresh_pview(MAX_PARTICLES as nat), rows)).has_changes,
        forall|i: int| 0 <= i < rows.len()
            ==> #[trigger] flushed_pview(commit_pview(fresh_pview(MAX_PARTICLES as nat), rows)).positions[i] == rows[i].0
                && flushed_pview(commit_pview(fresh_pview(MAX_PARTICLES as nat), rows)).velocities[i] == rows[i].1
                && flushed_pview(commit_pview(fresh_pview(MAX_PARTICLES as nat), rows)).phases[i] == rows[i].2
                && flushed_pview(commit_pview(fresh_pview(MAX_PARTICLES as nat), rows)).active[i] == i as i32,
        flushed_gview(add_shapes_gview(fresh_gview(MAX_SHAPES as nat), shapes)).count == shapes.len(),
        !flushed_gview(add_shapes_gview(fresh_gview(MAX_SHAPES as nat), shapes)).has_changes,
        poses_consistent(flushed_gview(add_shapes_gview(fresh_gview(MAX_SHAPES as nat), shapes))),
{
    let v0 = fresh_pview(MAX_PARTICLES as nat);
    lemma_batch_matches_sequential(v0, rows);
    lemma_add_rows_effect(v0, rows);
    let g0 = fresh_gview(MAX_SHAPES as nat);
    lemma_added_shapes_poses_consistent(g0, shapes);
}

/// Mathematical content of a session: its phase and the two state views.
#[verifier::ext_equal]
pub ghost struct SessionView {
    pub lifecycle: SessionPhase,
    pub particles: ParticleStateView,
    pub geometry: GeometryStateView,
}

/// Owns one particle state and one geometry state, and tracks the lifecycle
/// they share with the solver.
pub struct FlexState {
    lifecycle: SessionPhase,
    particles: ParticleState,
    geometry: GeometryState,
}

impl View for FlexState {
    type V = SessionView;

    closed spec fn view(&self) -> SessionView {
        SessionView {
            lifecycle: self.lifecycle,
            particles: self.particles@,
            geometry: self.geometry@,
        }
    }
}

impl FlexState {
    /// Internal consistency: the sub-states are sound, and the lifecycle
    /// agrees with them — a session is fully initialized or not usable, and
    /// destruction releases everything together.
    pub closed spec fn inv(&self) -> bool {
        &&& self.particles.inv()
        &&& self.geometry.inv()
        &&& (self.lifecycle is Uninitialized ==> !self.particles@.allocated
            && !self.geometry@.allocated && !self.particles@.released
            && !self.geometry@.released)
        &&& (self.lifecycle is Running ==> self.particles@.allocated && self.geometry@.allocated
            && !self.particles@.released && !self.geometry@.released)
        &&& (self.lifecycle is Destroyed ==> self.particles@.released && self.geometry@.released)
    }

    /// A fresh session: constructed, but owning no solver resources yet.
    pub fn new() -> (s: Self)
        ensures
            s.inv(),
            s@.lifecycle is Uninitialized,
            s@.particles =~= empty_pview(),
            s@.geometry =~= empty_gview(),
    {
        FlexState {
            lifecycle: SessionPhase::Uninitialized,
            particles: ParticleState::default(),
            geometry: GeometryState::default(),
        }
    }

    /// Initializes the session. `engine_created` reports whether the
    /// embedding application could create the solver engine handle; when it
    /// could not, initialization fails as a whole and the session is left
    /// exactly as it was. Otherwise both states are allocated at their fixed
    /// capacities, the given boundary shapes are added and pushed, the given
    /// particles are created through one factory batch and pushed, and the
    /// session runs.
    pub fn init(
        &mut self,
        engine_created: bool,
        shapes: &Vec<ShapeRow>,
        particles: &Vec<ParticleRow>,
    ) -> (r: Result<(), InitError>)
        requires
            old(self).inv(),
            old(self)@.lifecycle is Uninitialized,
            shapes@.len() <= MAX_SHAPES,
            particles@.len() <= MAX_PARTICLES,
        ensures
            final(self).inv(),
            r is Ok <==> engine_created,
            !engine_created ==> r == Err::<(), InitError>(InitError::NvFlexInit)
                && final(self)@ == old(self)@,
            engine_created ==> final(self)@.lifecycle is Running
                && final(self)@.particles =~= flushed_pview(
                    commit_pview(fresh_pview(MAX_PARTICLES as nat), particles@),
                )
                && final(self)@.geometry =~= flushed_gview(
                    add_shapes_gview(fresh_gview(MAX_SHAPES as nat), shapes@),
                ),
    {
        if !engine_created {
            return Err(InitError::NvFlexInit);
        }
        let _r = self.particles.allocate(MAX_PARTICLES);
        let _r = self.geometry.allocate(MAX_SHAPES);

        let nshapes = shapes.len();
        let mut i: usize = 0;
        while i < nshapes
            invariant
                i <= nshapes,
                nshapes == shapes@.len(),
                nshapes <= MAX_SHAPES,
                self.geometry.inv(),
                self.geometry@.allocated,
                !self.geometry@.released,
                self.geometry@.count == i,
                self.geometry@.capacity == MAX_SHAPES,
                self.geometry@ =~= add_shapes_gview(fresh_gview(MAX_SHAPES as nat), shapes@.take(i as int)),
                self.particles.inv(),
                self.particles@ =~= fresh_pview(MAX_PARTICLES as nat),
            decreases nshapes - i,
        {
            let (shape, pos, rot, flag) = shapes[i];
            self.geometry.add_shape(shape, pos, rot, flag);
            proof {
                assert(shapes@.take(i + 1 as int).drop_last() =~= shapes@.take(i as int));
                assert(shapes@.take(i + 1 as int).last() == shapes@[i as int]);
            }
            i = i + 1;
        }
        proof {
            assert(shapes@.take(nshapes as int) =~= shapes@);
        }
        let _g = self.geometry.flush();

        let mut fac = self.particles.factory();
        let nparts = particles.len();
        let mut j: usize = 0;
        while j < nparts
            invariant
                j <= nparts,
                nparts == particles@.len(),
                nparts <= MAX_PARTICLES,
                fac.inv(),
                fac@.base == 0,
                fac@.capacity == MAX_PARTICLES,
                fac@.rows =~= particles@.take(j as int),
                self.particles.inv(),
                self.particles@ =~= fresh_pview(MAX_PARTICLES as nat),
            decreases nparts - j,
        {
            let (pos, vel, phase) = particles[j];
            fac.create(pos, vel, phase, true);
            proof {
                assert(particles@.take(j + 1 as int) =~= particles@.take(j as int).push(particles@[j as int]));
            }
            j = j + 1;
        }
        proof {
            assert(particles@.take(nparts as int) =~= particles@);
        }
        self.particles.commit(&fac);
        let _p = self.particles.flush();

        self.lifecycle = SessionPhase::Running;
        Ok(())
    }

    /// Number of particles currently created.
    pub fn particle_count(&self) -> (n: usize)
        ensures
            n == self@.particles.count,
    {
        self.particles.get_count()
    }

    /// Number of shapes currently added.
    pub fn shape_count(&self) -> (n: usize)
        ensures
            n == self@.geometry.count,
    {
        self.geometry.get_count()
    }

    /// Whether a snapshot is currently open (mapped) and must be released
    /// before the next push, tick, snapshot or teardown.
    pub fn snapshot_open(&self) -> (r: bool)
        ensures
            r == any_mapped(self@.particles),
    {
        self.particles.snapshot_open()
    }

    /// Plans one solver advance by the elapsed time the embedding
    /// application measured: a single substep, no timers — the timestep is
    /// passed through uncapped. Must not be asked for while a snapshot is
    /// open.
    pub fn tick(&self, dt_bits: u32) -> (step: SolverStep)
        requires
            self.inv(),
            self@.lifecycle is Running,
            !any_mapped(self@.particles),
        ensures
            step == (SolverStep { dt_bits, substeps: 1, enable_timers: false }),
    {
        SolverStep { dt_bits, substeps: 1, enable_timers: false }
    }

    /// Adds one particle; it takes effect on the next explicit push.
    pub fn add_particle(&mut self, pos: Vector4, vel: Vector3, phase: i32)
        requires
            old(self).inv(),
            old(self)@.lifecycle is Running,
            !any_mapped(old(self)@.particles),
            old(self)@.particles.count < old(self)@.particles.capacity,
        ensures
            final(self).inv(),
            final(self)@.lifecycle is Running,
            final(self)@.geometry == old(self)@.geometry,
            final(self)@.particles =~= add_row_pview(old(self)@.particles, (pos, vel, phase)),
    {
        self.particles.add_particle(pos, vel, phase, true);
    }

    /// Adds one shape; it takes effect on the next explicit push.
    pub fn add_shape(&mut self, shape: CollisionGeometry, pos: Vector4, rot: Quat, flag: i32)
        requires
            old(self).inv(),
            old(self)@.lifecycle is Running,
            old(self)@.geometry.count < old(self)@.geometry.capacity,
        ensures
            final(self).inv(),
            final(self)@.lifecycle is Running,
            final(self)@.particles == old(self)@.particles,
            final(self)@.geometry =~= add_shape_gview(old(self)@.geometry, shape, pos, rot, flag),
    {
        self.geometry.add_shape(shape, pos, rot, flag);
    }

    /// Pushes pending particle changes to the solver; reports whether
    /// anything was pushed.
    pub fn flush_particles(&mut self) -> (r: bool)
        requires
            old(self).inv(),
            old(self)@.lifecycle is Running,
            !any_mapped(old(self)@.particles),
        ensures
            final(self).inv(),
            final(self)@.lifecycle is Running,
            final(self)@.geometry == old(self)@.geometry,
            r == old(self)@.particles.has_changes,
            final(self)@.particles =~= flushed_pview(old(self)@.particles),
    {
        self.particles.flush()
    }

    /// Pushes pending geometry changes to the solver; reports whether
    /// anything was pushed.
    pub fn flush_geometry(&mut self) -> (r: bool)
        requires
            old(self).inv(),
            old(self)@.lifecycle is Running,
        ensures
            final(self).inv(),
            final(self)@.lifecycle is Running,
            final(self)@.particles == old(self)@.particles,
            r == old(self)@.geometry.has_changes,
            final(self)@.geometry =~= flushed_gview(old(self)@.geometry),
    {
        self.geometry.flush()
    }

    /// Reads back one added shape: descriptor, current position, current
    /// rotation, previous position, previous rotation, flags.
    pub fn get_shape(&mut self, i: usize) -> (r: (CollisionGeometry, Vector4, Quat, Vector4, Quat, i32))
        requires
            old(self).inv(),
            old(self)@.lifecycle is Running,
            i < old(self)@.geometry.count,
        ensures
            final(self).inv(),
            final(self)@ =~= old(self)@,
            r == (
                old(self)@.geometry.shapes[i as int],
                old(self)@.geometry.positions[i as int],
                old(self)@.geometry.rotations[i as int],
                old(self)@.geometry.previous_positions[i as int],
                old(self)@.geometry.previous_rotations[i as int],
                old(self)@.geometry.flags[i as int],
            ),
    {
        self.geometry.get_shape(i)
    }

    /// Adopts solver-reported particle contents into the host mirror (the
    /// readback that precedes a snapshot). Host and solver agree afterwards,
    /// so nothing becomes dirty.
    pub fn absorb_results(
        &mut self,
        positions: &Vec<Vector4>,
        velocities: &Vec<Vector3>,
        phases: &Vec<i32>,
    )
        requires
            old(self).inv(),
            old(self)@.lifecycle is Running,
            !any_mapped(old(self)@.particles),
            positions@.len() == old(self)@.particles.capacity,
            velocities@.len() == old(self)@.particles.capacity,
            phases@.len() == old(self)@.particles.capacity,
        ensures
            final(self).inv(),
            final(self)@.lifecycle is Running,
            final(self)@.geometry == old(self)@.geometry,
            final(self)@.particles =~= (ParticleStateView {
                positions: positions@,
                velocities: velocities@,
                phases: phases@,
                ..old(self)@.particles
            }),
    {
        self.particles.absorb_results(positions, velocities, phases);
    }

    /// Maps the position buffer and hands back the solver's particle
    /// positions. The caller must release with `unmap`.
    pub fn get_particles(&mut self) -> (r: Result<Vec<Vector4>, BufferError>)
        requires
            old(self).inv(),
            old(self)@.lifecycle is Running,
        ensures
            final(self).inv(),
            final(self)@.lifecycle is Running,
            final(self)@.geometry == old(self)@.geometry,
            r is Ok <==> !old(self)@.particles.positions_mapped,
            (match r {
                Ok(v) => v@ == old(self)@.particles.positions
                    && final(self)@.particles =~= with_mapped(
                        old(self)@.particles,
                        true,
                        old(self)@.particles.velocities_mapped,
                        old(self)@.particles.phases_mapped,
                    ),
                Err(e) => final(self)@.particles == old(self)@.particles
                    && e == BufferError::AlreadyMapped,
            }),
    {
        self.particles.get_particles()
    }

    /// Maps the velocity buffer and hands back the solver's particle
    /// velocities. The caller must release with `unmap`.
    pub fn get_velocities(&mut self) -> (r: Result<Vec<Vector3>, BufferError>)
        requires
            old(self).inv(),
            old(self)@.lifecycle is Running,
        ensures
            final(self).inv(),
            final(self)@.lifecycle is Running,
            final(self)@.geometry == old(self)@.geometry,
            r is Ok <==> !old(self)@.particles.velocities_mapped,
            (match r {
                Ok(v) => v@ == old(self)@.particles.velocities
                    && final(self)@.particles =~= with_mapped(
                        old(self)@.particles,
                        old(self)@.particles.positions_mapped,
                        true,
                        old(self)@.particles.phases_mapped,
                    ),
                Err(e) => final(self)@.particles == old(self)@.particles
                    && e == BufferError::AlreadyMapped,
            }),
    {
        self.particles.get_velocities()
    }

    /// Maps the phase buffer and hands back the particle phases. The caller
    /// must release with `unmap`.
    pub fn get_phases(&mut self) -> (r: Result<Vec<i32>, BufferError>)
        requires
            old(self).inv(),
            old(self)@.lifecycle is Running,
        ensures
            final(self).inv(),
            final(self)@.lifecycle is Running,
            final(self)@.geometry == old(self)@.geometry,
            r is Ok <==> !old(self)@.particles.phases_mapped,
            (match r {
                Ok(v) => v@ == old(self)@.particles.phases
                    && final(self)@.particles =~= with_mapped(
                        old(self)@.particles,
                        old(self)@.particles.positions_mapped,
                        old(self)@.particles.velocities_mapped,
                        true,
                    ),
                Err(e) => final(self)@.particles == old(self)@.particles
                    && e == BufferError::AlreadyMapped,
            }),
    {
        self.particles.get_phases()
    }

    /// Opens a snapshot of the simulation results: one `Particle` view per
    /// created particle. The caller must release the snapshot with `unmap`
    /// before the next snapshot, push, tick or teardown; a second snapshot
    /// while one is open is detected, never silently an empty result.
    pub fn get(&mut self) -> (r: Result<Vec<Particle>, BufferError>)
        requires
            old(self).inv(),
            old(self)@.lifecycle is Running,
        ensures
            final(self).inv(),
            final(self)@.lifecycle is Running,
            final(self)@.geometry == old(self)@.geometry,
            r is Ok <==> !any_mapped(old(self)@.particles),
            (match r {
                Ok(ps) => {
                    &&& ps@.len() == old(self)@.particles.count
                    &&& (forall|i: int| 0 <= i < old(self)@.particles.count ==> ps@[i] == (Particle {
                        pdata: old(self)@.particles.positions[i],
                        velocity: old(self)@.particles.velocities[i],
                        phase: old(self)@.particles.phases[i],
                    }))
                    &&& final(self)@.particles =~= with_mapped(old(self)@.particles, true, true, true)
                },
                Err(e) => final(self)@.particles == old(self)@.particles
                    && e == BufferError::AlreadyMapped,
            }),
    {
        self.particles.get()
    }

    /// Releases the open snapshot. Releasing when none is open is detected.
    pub fn unmap(&mut self) -> (r: Result<(), BufferError>)
        requires
            old(self).inv(),
            old(self)@.lifecycle is Running,
        ensures
            final(self).inv(),
            final(self)@.lifecycle is Running,
            final(self)@.geometry == old(self)@.geometry,
            r is Ok <==> any_mapped(old(self)@.particles),
            r is Ok ==> final(self)@.particles =~= with_mapped(old(self)@.particles, false, false, false),
            r is Err ==> final(self)@.particles == old(self)@.particles
                && r == Err::<(), BufferError>(BufferError::NotMapped),
    {
        self.particles.unmap()
    }

    /// Tears the session down: frees the four particle buffers and the six
    /// geometry buffers — exactly once each — and only then plans the
    /// destruction of the solver instance and the engine handle, in that
    /// order. The returned plan is performed step by step by the embedding
    /// application.
    pub fn destroy(&mut self) -> (r: Result<Vec<TeardownAction>, ShutdownError>)
        requires
            old(self).inv(),
            old(self)@.lifecycle is Running,
            !any_mapped(old(self)@.particles),
        ensures
            final(self).inv(),
            r is Ok,
            final(self)@.lifecycle is Destroyed,
            final(self)@.particles =~= (ParticleStateView { released: true, ..old(self)@.particles }),
            final(self)@.geometry =~= (GeometryStateView { released: true, ..old(self)@.geometry }),
            (match r {
                Ok(plan) => plan@ =~= teardown_plan(),
                Err(_) => false,
            }),
    {
        let _r = self.particles.release();
        let _r = self.geometry.release();
        self.lifecycle = SessionPhase::Destroyed;
        let plan = vec![
            TeardownAction::FreeBuffer(BufferId::ParticlePositions),
            TeardownAction::FreeBuffer(BufferId::ParticleVelocities),
            TeardownAction::FreeBuffer(BufferId::ParticlePhases),
            TeardownAction::FreeBuffer(BufferId::ParticleActive),
            TeardownAction::FreeBuffer(BufferId::ShapeDescriptors),
            TeardownAction::FreeBuffer(BufferId::ShapePositions),
            TeardownAction::FreeBuffer(BufferId::ShapeRotations),
            TeardownAction::FreeBuffer(BufferId::ShapePreviousPositions),
            TeardownAction::FreeBuffer(BufferId::ShapePreviousRotations),
            TeardownAction::FreeBuffer(BufferId::ShapeFlags),
            TeardownAction::DestroySolver,
            TeardownAction::ShutdownEngine,
        ];
        Ok(plan)
    }
}

} // verus!
