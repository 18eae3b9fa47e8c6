use gfluid::BufferError;
use gfluid::BufferId;
use gfluid::CollisionGeometry;
use gfluid::FlexState;
use gfluid::InitError;
use gfluid::NvFlexMakePhase;
use gfluid::NvFlexMakeShapeFlags;
use gfluid::Quat;
use gfluid::TeardownAction;
use gfluid::Vector3;
use gfluid::Vector4;
use gfluid::MAX_PARTICLES;
use gfluid::PHASE_FLUID;
use gfluid::PHASE_SELF_COLLIDE;

/// The default boundary: three huge flat boxes, statically placed.
fn boundary_shapes() -> Vec<(CollisionGeometry, Vector4, Quat, i32)> {
    let half_extents = Vector4(
        50000.0f32.to_bits(),
        50000.0f32.to_bits(),
        5.0f32.to_bits(),
        0.0f32.to_bits(),
    );
    let origin = Vector4(
        0.0f32.to_bits(),
        0.0f32.to_bits(),
        0.0f32.to_bits(),
        0.0f32.to_bits(),
    );
    let zero = 0.0f32.to_bits();
    let one = 1.0f32.to_bits();
    let flag = NvFlexMakeShapeFlags(3, false);
    vec![
        (CollisionGeometry(half_extents), origin, Quat(zero, zero, zero, zero), flag),
        (CollisionGeometry(half_extents), origin, Quat(zero, one, zero, zero), flag),
        (CollisionGeometry(half_extents), origin, Quat(one, zero, zero, zero), flag),
    ]
}

/// The default fill: a row of fluid particles dropping toward the floor.
fn seed_particles(n: usize) -> Vec<(Vector4, Vector3, i32)> {
    let fluid = NvFlexMakePhase(0, PHASE_SELF_COLLIDE | PHASE_FLUID);
    (0..n)
        .map(|i| {
            (
                Vector4(
                    (50.0f32 * i as f32).to_bits(),
                    0.0f32.to_bits(),
                    5000.0f32.to_bits(),
                    2.0f32.to_bits(),
                ),
                Vector3(0.0f32.to_bits(), 0.0f32.to_bits(), (-5.0f32).to_bits()),
                fluid,
            )
        })
        .collect()
}

#[test]
fn engine_failure_aborts_initialization() {
    let mut s = FlexState::new();
    let r = s.init(false, &boundary_shapes(), &seed_particles(MAX_PARTICLES));
    assert_eq!(r, Err(InitError::NvFlexInit));
    // Nothing was half-built: the same session can still initialize.
    let r = s.init(true, &boundary_shapes(), &seed_particles(MAX_PARTICLES));
    assert_eq!(r, Ok(()));
}

#[test]
fn end_to_end_tick_and_query() {
    let mut s = FlexState::new();
    assert_eq!(s.init(true, &boundary_shapes(), &seed_particles(MAX_PARTICLES)), Ok(()));
    assert_eq!(s.shape_count(), 3);
    assert_eq!(s.particle_count(), 10);

    let dt = (1.0f32 / 60.0f32).to_bits();
    let step = s.tick(dt);
    assert_eq!(step.dt_bits, dt);
    assert_eq!(step.substeps, 1);
    assert!(!step.enable_timers);

    let snap = s.get().expect("no snapshot is open");
    assert_eq!(snap.len(), 10);
    let fluid = NvFlexMakePhase(0, PHASE_SELF_COLLIDE | PHASE_FLUID);
    for (i, p) in snap.iter().enumerate() {
        for bits in [p.pdata.0, p.pdata.1, p.pdata.2, p.pdata.3] {
            assert!(f32::from_bits(bits).is_finite());
        }
        for bits in [p.velocity.0, p.velocity.1, p.velocity.2] {
            assert!(f32::from_bits(bits).is_finite());
        }
        assert_eq!(f32::from_bits(p.pdata.0), 50.0 * i as f32);
        assert_eq!(f32::from_bits(p.velocity.2), -5.0);
        assert_eq!(p.phase, fluid);
    }
    assert_eq!(s.unmap(), Ok(()));
}

#[test]
fn snapshot_must_be_released_before_the_next() {
    let mut s = FlexState::new();
    assert_eq!(s.init(true, &boundary_shapes(), &seed_particles(4)), Ok(()));
    assert!(s.get().is_ok());
    assert_eq!(s.get().unwrap_err(), BufferError::AlreadyMapped);
    assert_eq!(s.get_particles().unwrap_err(), BufferError::AlreadyMapped);
    assert_eq!(s.unmap(), Ok(()));
    assert_eq!(s.unmap().unwrap_err(), BufferError::NotMapped);
    assert!(s.get().is_ok());
    assert_eq!(s.unmap(), Ok(()));
}

#[test]
fn additions_take_effect_on_the_next_push() {
    let mut s = FlexState::new();
    assert_eq!(s.init(true, &boundary_shapes(), &seed_particles(4)), Ok(()));
    // Initialization pushed everything; both states are clean.
    assert!(!s.flush_particles());
    assert!(!s.flush_geometry());

    s.add_particle(
        Vector4(0, 0, 0, 2.0f32.to_bits()),
        Vector3(0, 0, 0),
        NvFlexMakePhase(1, PHASE_SELF_COLLIDE),
    );
    assert_eq!(s.particle_count(), 5);
    assert!(s.flush_particles());
    assert!(!s.flush_particles());

    let (g, pos, rot, flag) = (
        CollisionGeometry(Vector4(1, 2, 3, 0)),
        Vector4(4, 5, 6, 0),
        Quat(7, 8, 9, 10),
        NvFlexMakeShapeFlags(3, true),
    );
    s.add_shape(g, pos, rot, flag);
    assert_eq!(s.shape_count(), 4);
    assert!(s.flush_geometry());
    assert!(!s.flush_geometry());
}

#[test]
fn teardown_frees_every_buffer_before_the_solver_goes() {
    let mut s = FlexState::new();
    assert_eq!(s.init(true, &boundary_shapes(), &seed_particles(MAX_PARTICLES)), Ok(()));
    let plan = s.destroy().expect("teardown cannot fail");

    assert_eq!(plan.len(), 12);
    let frees: Vec<usize> = plan
        .iter()
        .enumerate()
        .filter(|(_, a)| matches!(a, TeardownAction::FreeBuffer(_)))
        .map(|(i, _)| i)
        .collect();
    let destroy_at = plan
        .iter()
        .position(|a| *a == TeardownAction::DestroySolver)
        .expect("the plan destroys the solver");
    let shutdown_at = plan
        .iter()
        .position(|a| *a == TeardownAction::ShutdownEngine)
        .expect("the plan shuts the engine down");

    // Four particle buffers and six geometry buffers: one free per
    // allocation, every one before the solver's destruction, which in turn
    // precedes the engine's shutdown.
    assert_eq!(frees.len(), 10);
    assert!(frees.iter().all(|i| *i < destroy_at));
    assert!(destroy_at < shutdown_at);
    assert_eq!(shutdown_at, plan.len() - 1);

    // Each of the ten buffers is freed exactly once.
    let expected = [
        BufferId::ParticlePositions,
        BufferId::ParticleVelocities,
        BufferId::ParticlePhases,
        BufferId::ParticleActive,
        BufferId::ShapeDescriptors,
        BufferId::ShapePositions,
        BufferId::ShapeRotations,
        BufferId::ShapePreviousPositions,
        BufferId::ShapePreviousRotations,
        BufferId::ShapeFlags,
    ];
    for id in expected {
        let hits = plan
            .iter()
            .filter(|a| **a == TeardownAction::FreeBuffer(id))
            .count();
        assert_eq!(hits, 1);
    }
}

#[test]
fn make_phase_packs_group_flags_and_channels() {
    assert_eq!(NvFlexMakePhase(0, PHASE_SELF_COLLIDE | PHASE_FLUID), 0x7f500000);
    assert_eq!(NvFlexMakePhase(5, 0), 0x7f000005);
    // The group is clipped to its 20 low bits; flags to their own bits.
    assert_eq!(NvFlexMakePhase(-1, 0) & 0x000fffff, 0x000fffff);
    assert_eq!(NvFlexMakePhase(0, -1), 0x7ff00000);
}

#[test]
fn make_shape_flags_packs_type_and_dynamic_bit() {
    assert_eq!(NvFlexMakeShapeFlags(3, false), 0x7f000003);
    assert_eq!(NvFlexMakeShapeFlags(3, true), 0x7f00000b);
}
