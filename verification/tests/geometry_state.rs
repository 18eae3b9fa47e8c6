use gfluid::AllocError;
use gfluid::BufferError;
use gfluid::CollisionGeometry;
use gfluid::GeometryState;
use gfluid::Quat;
use gfluid::Vector4;

fn shape(seed: u32) -> (CollisionGeometry, Vector4, Quat, i32) {
    (
        CollisionGeometry(Vector4(seed, seed + 1, seed + 2, 0)),
        Vector4(seed + 3, seed + 4, seed + 5, 0),
        Quat(seed + 6, seed + 7, seed + 8, seed + 9),
        seed as i32,
    )
}

#[test]
fn geometry_allocate_twice_is_refused() {
    let mut gs = GeometryState::default();
    assert_eq!(gs.allocate(8), Ok(()));
    assert_eq!(gs.allocate(8), Err(AllocError::AlreadyAllocated));
}

#[test]
fn previous_pose_equals_current_after_every_add() {
    let mut gs = GeometryState::default();
    assert_eq!(gs.allocate(8), Ok(()));
    for i in 0..3u32 {
        let (g, pos, rot, flag) = shape(100 * i);
        gs.add_shape(g, pos, rot, flag);
    }
    assert_eq!(gs.get_count(), 3);
    for i in 0..3u32 {
        let (g, pos, rot, flag) = shape(100 * i);
        let (rg, rpos, rrot, rprev_pos, rprev_rot, rflag) = gs.get_shape(i as usize);
        assert_eq!(rg, g);
        assert_eq!(rpos, pos);
        assert_eq!(rrot, rot);
        assert_eq!(rprev_pos, pos);
        assert_eq!(rprev_rot, rot);
        assert_eq!(rflag, flag);
    }
}

#[test]
fn geometry_push_then_push_is_noop() {
    let mut gs = GeometryState::default();
    assert_eq!(gs.allocate(4), Ok(()));
    let (g, pos, rot, flag) = shape(1);
    gs.add_shape(g, pos, rot, flag);
    assert!(gs.dirty());
    assert!(gs.flush());
    assert!(!gs.flush());
    gs.add_shape(g, pos, rot, flag);
    assert!(gs.flush());
}

#[test]
fn unmap_at_boundary_is_detected() {
    let mut gs = GeometryState::default();
    assert_eq!(gs.allocate(4), Ok(()));
    // Every mutator pairs its map with an unmap internally, so at a public
    // boundary nothing is mapped and the stray release is reported.
    assert_eq!(gs.unmap().unwrap_err(), BufferError::NotMapped);
}

#[test]
fn geometry_release_frees_once_and_detects_reuse() {
    let mut gs = GeometryState::default();
    assert_eq!(gs.allocate(4), Ok(()));
    assert_eq!(gs.release(), Ok(()));
    assert_eq!(gs.release().unwrap_err(), BufferError::AlreadyFreed);
    assert_eq!(gs.unmap().unwrap_err(), BufferError::AlreadyFreed);
}
