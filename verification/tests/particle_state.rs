use gfluid::AllocError;
use gfluid::BufferError;
use gfluid::Particle;
use gfluid::ParticleState;
use gfluid::Vector3;
use gfluid::Vector4;

fn row(seed: u32) -> (Vector4, Vector3, i32) {
    (
        Vector4(seed, seed + 1, seed + 2, seed + 3),
        Vector3(seed + 4, seed + 5, seed + 6),
        seed as i32,
    )
}

#[test]
fn allocate_twice_is_refused() {
    let mut ps = ParticleState::default();
    assert_eq!(ps.allocate(8), Ok(()));
    assert_eq!(ps.allocate(8), Err(AllocError::AlreadyAllocated));
}

#[test]
fn added_records_are_retrievable_at_their_index() {
    let mut ps = ParticleState::default();
    assert_eq!(ps.allocate(10), Ok(()));
    for i in 0..3u32 {
        let (p, v, ph) = row(100 * i);
        ps.add_particle(p, v, ph, true);
    }
    assert_eq!(ps.get_count(), 3);
    let snap = ps.get().expect("no snapshot is open");
    assert_eq!(snap.len(), 3);
    for i in 0..3u32 {
        let (p, v, ph) = row(100 * i);
        assert_eq!(snap[i as usize], Particle { pdata: p, velocity: v, phase: ph });
    }
    assert_eq!(ps.unmap(), Ok(()));
}

#[test]
fn push_then_push_is_noop() {
    let mut ps = ParticleState::default();
    assert_eq!(ps.allocate(4), Ok(()));
    let (p, v, ph) = row(5);
    ps.add_particle(p, v, ph, true);
    assert!(ps.dirty());
    assert!(ps.flush());
    assert!(!ps.dirty());
    assert!(!ps.flush());
}

#[test]
fn factory_batch_matches_sequential_adds() {
    let n = 7u32;

    let mut batch = ParticleState::default();
    assert_eq!(batch.allocate(10), Ok(()));
    let mut fac = batch.factory();
    for i in 0..n {
        let (p, v, ph) = row(10 * i);
        fac.create(p, v, ph, true);
    }
    assert_eq!(fac.nparticles(), n as usize);
    batch.commit(&fac);
    assert!(batch.flush());

    let mut seq = ParticleState::default();
    assert_eq!(seq.allocate(10), Ok(()));
    for i in 0..n {
        let (p, v, ph) = row(10 * i);
        seq.add_particle(p, v, ph, true);
    }
    assert!(seq.flush());

    assert_eq!(batch.get_count(), seq.get_count());
    let a = batch.get().expect("no snapshot is open");
    let b = seq.get().expect("no snapshot is open");
    assert_eq!(a, b);
    assert_eq!(batch.unmap(), Ok(()));
    assert_eq!(seq.unmap(), Ok(()));
}

#[test]
fn empty_batch_leaves_state_clean() {
    let mut ps = ParticleState::default();
    assert_eq!(ps.allocate(4), Ok(()));
    let fac = ps.factory();
    ps.commit(&fac);
    assert_eq!(ps.get_count(), 0);
    assert!(!ps.dirty());
}

#[test]
fn snapshot_while_snapshot_open_is_detected() {
    let mut ps = ParticleState::default();
    assert_eq!(ps.allocate(4), Ok(()));
    assert!(ps.get().is_ok());
    assert_eq!(ps.get().unwrap_err(), BufferError::AlreadyMapped);
    assert_eq!(ps.unmap(), Ok(()));
    assert_eq!(ps.unmap().unwrap_err(), BufferError::NotMapped);
}

#[test]
fn piecemeal_getters_map_their_own_buffer() {
    let mut ps = ParticleState::default();
    assert_eq!(ps.allocate(4), Ok(()));
    ps.add_particle(Vector4(1, 2, 3, 4), Vector3(9, 9, 9), 42, true);

    let positions = ps.get_particles().expect("position buffer is unmapped");
    assert_eq!(positions[0], Vector4(1, 2, 3, 4));
    assert_eq!(ps.get_particles().unwrap_err(), BufferError::AlreadyMapped);

    // The phase getter reads the phase buffer, not the velocity buffer.
    let phases = ps.get_phases().expect("phase buffer is unmapped");
    assert_eq!(phases[0], 42);

    let velocities = ps.get_velocities().expect("velocity buffer is unmapped");
    assert_eq!(velocities[0], Vector3(9, 9, 9));

    assert_eq!(ps.unmap(), Ok(()));
}

#[test]
fn absorb_results_overwrites_mirror_without_dirtying() {
    let mut ps = ParticleState::default();
    assert_eq!(ps.allocate(2), Ok(()));
    ps.add_particle(Vector4(1, 1, 1, 1), Vector3(1, 1, 1), 1, true);
    assert!(ps.flush());

    let positions = vec![Vector4(7, 7, 7, 7), Vector4(8, 8, 8, 8)];
    let velocities = vec![Vector3(5, 5, 5), Vector3(6, 6, 6)];
    let phases = vec![3, 4];
    ps.absorb_results(&positions, &velocities, &phases);
    assert!(!ps.dirty());

    let snap = ps.get().expect("no snapshot is open");
    assert_eq!(snap.len(), 1);
    assert_eq!(snap[0].pdata, Vector4(7, 7, 7, 7));
    assert_eq!(snap[0].velocity, Vector3(5, 5, 5));
    assert_eq!(snap[0].phase, 3);
    assert_eq!(ps.unmap(), Ok(()));
}

#[test]
fn release_frees_once_and_detects_reuse() {
    let mut ps = ParticleState::default();
    assert_eq!(ps.allocate(4), Ok(()));
    assert_eq!(ps.release(), Ok(()));
    assert_eq!(ps.release().unwrap_err(), BufferError::AlreadyFreed);
    assert_eq!(ps.get().unwrap_err(), BufferError::AlreadyFreed);
    assert_eq!(ps.unmap().unwrap_err(), BufferError::AlreadyFreed);
}

#[test]
fn release_while_snapshot_open_is_detected() {
    let mut ps = ParticleState::default();
    assert_eq!(ps.allocate(4), Ok(()));
    assert!(ps.get().is_ok());
    assert_eq!(ps.release().unwrap_err(), BufferError::StillMapped);
    assert_eq!(ps.unmap(), Ok(()));
    assert_eq!(ps.release(), Ok(()));
}
