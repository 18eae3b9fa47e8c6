use gfluid::BufferError;
use gfluid::HostBuffer;

#[test]
fn allocate_starts_unmapped() {
    let b: HostBuffer<u32> = HostBuffer::allocate(4, 7);
    assert!(!b.mapped());
    assert!(!b.freed());
    assert_eq!(b.size(), 4);
}

#[test]
fn map_write_read_unmap() {
    let mut b: HostBuffer<u32> = HostBuffer::allocate(3, 0);
    assert_eq!(b.map(), Ok(()));
    b.write(0, 10);
    b.write(2, 30);
    assert_eq!(b.read(0), 10);
    assert_eq!(b.read(1), 0);
    assert_eq!(b.read(2), 30);
    let all = b.read_all();
    assert_eq!(all, vec![10, 0, 30]);
    assert_eq!(b.unmap(), Ok(()));
    assert!(!b.mapped());
}

#[test]
fn double_map_is_detected() {
    let mut b: HostBuffer<u32> = HostBuffer::allocate(2, 0);
    assert_eq!(b.map(), Ok(()));
    assert_eq!(b.map(), Err(BufferError::AlreadyMapped));
    // The failed attempt leaves the mapping intact.
    assert!(b.mapped());
}

#[test]
fn unmap_without_map_is_detected() {
    let mut b: HostBuffer<u32> = HostBuffer::allocate(2, 0);
    assert_eq!(b.unmap(), Err(BufferError::NotMapped));
    assert!(!b.mapped());
}

#[test]
fn free_while_mapped_is_detected() {
    let mut b: HostBuffer<u32> = HostBuffer::allocate(2, 0);
    assert_eq!(b.map(), Ok(()));
    assert_eq!(b.free(), Err(BufferError::StillMapped));
    assert_eq!(b.unmap(), Ok(()));
    assert_eq!(b.free(), Ok(()));
}

#[test]
fn use_after_free_is_detected() {
    let mut b: HostBuffer<u32> = HostBuffer::allocate(2, 0);
    assert_eq!(b.free(), Ok(()));
    assert!(b.freed());
    assert_eq!(b.map(), Err(BufferError::AlreadyFreed));
    assert_eq!(b.unmap(), Err(BufferError::AlreadyFreed));
    assert_eq!(b.free(), Err(BufferError::AlreadyFreed));
}
