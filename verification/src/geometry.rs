//! Host-side collision-geometry state: six parallel buffers (shape
//! descriptor, current/previous position, current/previous rotation, flags),
//! a count, and a dirty flag.
//!
//! Each shape occupies the same index in all six buffers. Geometry is
//! push-only: the solver never reports shapes back, so there is no snapshot
//! window, and every mutator performs its own map/write/unmap cycle — the
//! buffers are unmapped at every boundary between public calls. A shape's
//! previous pose is seeded equal to its current pose at creation, so the
//! solver's motion smoothing never infers a spurious initial velocity.

use vstd::prelude::*;

use crate::buffer::AllocError;
use crate::buffer::BufferError;
use crate::buffer::HostBuffer;
use crate::types::CollisionGeometry;
use crate::types::Quat;
use crate::types::Vector4;

verus! {

/// Mathematical content of a geometry state: the six parallel sequences,
/// the logical count, the dirty flag, and the release flag.
#[verifier::ext_equal]
pub ghost struct GeometryStateView {
    pub allocated: bool,
    pub has_changes: bool,
    pub count: nat,
    pub capacity: nat,
    pub shapes: Seq<CollisionGeometry>,
    pub positions: Seq<Vector4>,
    pub rotations: Seq<Quat>,
    pub previous_positions: Seq<Vector4>,
    pub previous_rotations: Seq<Quat>,
    pub flags: Seq<i32>,
    pub released: bool,
}

/// Shape constraints every reachable geometry state satisfies.
pub open spec fn gview_wf(v: GeometryStateView) -> bool {
    &&& v.shapes.len() == v.capacity
    &&& v.positions.len() == v.capacity
    &&& v.rotations.len() == v.capacity
    &&& v.previous_positions.len() == v.capacity
    &&& v.previous_rotations.len() == v.capacity
    &&& v.flags.len() == v.capacity
    &&& v.count <= v.capacity
    &&& v.capacity <= 0x7fff_ffff
    &&& (!v.allocated ==> v.capacity == 0 && v.count == 0 && !v.has_changes)
}

/// The state of a fresh allocation: everything zeroed.
pub open spec fn fresh_gview(capacity: nat) -> GeometryStateView {
    GeometryStateView {
        allocated: true,
        has_changes: false,
        count: 0,
        capacity,
        shapes: Seq::new(capacity, |i: int| CollisionGeometry(Vector4(0, 0, 0, 0))),
        positions: Seq::new(capacity, |i: int| Vector4(0, 0, 0, 0)),
        rotations: Seq::new(capacity, |i: int| Quat(0, 0, 0, 0)),
        previous_positions: Seq::new(capacity, |i: int| Vector4(0, 0, 0, 0)),
        previous_rotations: Seq::new(capacity, |i: int| Quat(0, 0, 0, 0)),
        flags: Seq::new(capacity, |i: int| 0i32),
        released: false,
    }
}

/// The state before allocation.
pub open spec fn empty_gview() -> GeometryStateView {
    GeometryStateView {
        allocated: false,
        has_changes: false,
        count: 0,
        capacity: 0,
        shapes: Seq::empty(),
        positions: Seq::empty(),
        rotations: Seq::empty(),
        previous_positions: Seq::empty(),
        previous_rotations: Seq::empty(),
        flags: Seq::empty(),
        released: false,
    }
}

/// The given view after a successful push: clean, nothing else changed.
pub open spec fn flushed_gview(v: GeometryStateView) -> GeometryStateView {
    GeometryStateView { has_changes: false, ..v }
}

/// The given view after one shape is added at index `count`: the descriptor,
/// pose and flags written in all six parallel sequences — the previous
/// position and rotation seeded equal to the current ones — the count
/// advanced, and the state marked dirty.
pub open spec fn add_shape_gview(
    v: GeometryStateView,
    shape: CollisionGeometry,
    pos: Vector4,
    rot: Quat,
    flag: i32,
) -> GeometryStateView {
    GeometryStateView {
        has_changes: true,
        count: v.count + 1,
        shapes: v.shapes.update(v.count as int, shape),
        positions: v.positions.update(v.count as int, pos),
        rotations: v.rotations.update(v.count as int, rot),
        previous_positions: v.previous_positions.update(v.count as int, pos),
        previous_rotations: v.previous_rotations.update(v.count as int, rot),
        flags: v.flags.update(v.count as int, flag),
        ..v
    }
}

/// One shape addition: descriptor, pose, and flag word.
pub type ShapeRow = (CollisionGeometry, Vector4, Quat, i32);

/// The given view after the shapes are added one at a time, first to last.
pub open spec fn add_shapes_gview(v: GeometryStateView, rows: Seq<ShapeRow>) -> GeometryStateView
    decreases rows.len(),
{
    if rows.len() == 0 {
        v
    } else {
        add_shape_gview(
            add_shapes_gview(v, rows.drop_last()),
            rows.last().0,
            rows.last().1,
            rows.last().2,
            rows.last().3,
        )
    }
}

/// Every added shape has its previous pose equal to its current pose: the
/// shape of a state built purely by shape additions.
pub open spec fn poses_consistent(v: GeometryStateView) -> bool {
    forall|i: int| 0 <= i < v.count ==> v.previous_positions[i] == v.positions[i]
        && v.previous_rotations[i] == v.rotations[i]
}

/// A push clears the dirty flag and changes nothing else, so a second push
/// with no intervening mutation finds a clean state — it reports a no-op and
/// leaves the state exactly as the first push left it.
pub proof fn lemma_flush_then_flush_is_noop(v: GeometryStateView)
    ensures
        !flushed_gview(v).has_changes,
        flushed_gview(flushed_gview(v)) == flushed_gview(v),
{
}

/// After any sequence of shape additions that fits in the capacity, every
/// added shape's previous position and rotation equal its current ones —
/// the previous pose is seeded from the supplied pose at creation and never
/// diverges while shapes are only added.
pub proof fn lemma_added_shapes_poses_consistent(v: GeometryStateView, rows: Seq<ShapeRow>)
    requires
        gview_wf(v),
        poses_consistent(v),
        v.count + rows.len() <= v.capacity,
    ensures
        gview_wf(add_shapes_gview(v, rows)),
        add_shapes_gview(v, rows).count == v.count + rows.len(),
        add_shapes_gview(v, rows).capacity == v.capacity,
        poses_consistent(add_shapes_gview(v, rows)),
    decreases rows.len(),
{
    if rows.len() > 0 {
        lemma_added_shapes_poses_consistent(v, rows.drop_last());
    }
}

/// Owns the six parallel geometry buffers and their change tracking.
pub struct GeometryState {
    allocated: bool,
    has_changes: bool,
    count: usize,
    shapes: HostBuffer<CollisionGeometry>,
    positions: HostBuffer<Vector4>,
    rotations: HostBuffer<Quat>,
    previous_positions: HostBuffer<Vector4>,
    previous_rotations: HostBuffer<Quat>,
    flags: HostBuffer<i32>,
}

impl View for GeometryState {
    type V = GeometryStateView;

    closed spec fn view(&self) -> GeometryStateView {
        GeometryStateView {
            allocated: self.allocated,
            has_changes: self.has_changes,
            count: self.count as nat,
            capacity: self.shapes.capacity(),
            shapes: self.shapes@,
            positions: self.positions@,
            rotations: self.rotations@,
            previous_positions: self.previous_positions@,
            previous_rotations: self.previous_rotations@,
            flags: self.flags@,
            released: self.shapes.is_freed(),
        }
    }
}

impl Default for GeometryState {
    /// An unallocated geometry state: zero capacity, clean.
    fn default() -> (s: Self)
        ensures
            s.inv(),
            s@ =~= empty_gview(),
    {
        GeometryState {
            allocated: false,
            has_changes: false,
            count: 0,
            shapes: HostBuffer::allocate(0, CollisionGeometry(Vector4(0, 0, 0, 0))),
            positions: HostBuffer::allocate(0, Vector4(0, 0, 0, 0)),
            rotations: HostBuffer::allocate(0, Quat(0, 0, 0, 0)),
            previous_positions: HostBuffer::allocate(0, Vector4(0, 0, 0, 0)),
            previous_rotations: HostBuffer::allocate(0, Quat(0, 0, 0, 0)),
            flags: HostBuffer::allocate(0, 0i32),
        }
    }
}

impl GeometryState {
    /// Internal consistency: the six buffers are allocated together, have
    /// identical capacity, live and die together, and are only ever mapped
    /// transiently inside a mutator.
    pub closed spec fn inv(&self) -> bool {
        &&& self.positions.capacity() == self.shapes.capacity()
        &&& self.rotations.capacity() == self.shapes.capacity()
        &&& self.previous_positions.capacity() == self.shapes.capacity()
        &&& self.previous_rotations.capacity() == self.shapes.capacity()
        &&& self.flags.capacity() == self.shapes.capacity()
        &&& self.count <= self.shapes.capacity()
        &&& self.shapes.capacity() <= 0x7fff_ffff
        &&& (!self.allocated ==> self.shapes.capacity() == 0 && self.count == 0
            && !self.has_changes)
        &&& (self.shapes.is_freed() <==> self.positions.is_freed())
        &&& (self.shapes.is_freed() <==> self.rotations.is_freed())
        &&& (self.shapes.is_freed() <==> self.previous_positions.is_freed())
        &&& (self.shapes.is_freed() <==> self.previous_rotations.is_freed())
        &&& (self.shapes.is_freed() <==> self.flags.is_freed())
        &&& (!self.shapes.is_freed() ==> self.shapes.is_unmapped() && self.positions.is_unmapped()
            && self.rotations.is_unmapped() && self.previous_positions.is_unmapped()
            && self.previous_rotations.is_unmapped() && self.flags.is_unmapped())
    }

    /// Every reachable geometry state has a well-formed view.
    pub proof fn lemma_inv_wf(&self)
        requires
            self.inv(),
        ensures
            gview_wf(self@),
    {
    }

    /// Allocates the six parallel buffers for `capacity` shapes.
    /// Single-shot: a second allocation is refused, so the first is never
    /// leaked.
    pub fn allocate(&mut self, capacity: usize) -> (r: Result<(), AllocError>)
        requires
            old(self).inv(),
            capacity <= 0x7fff_ffff,
        ensures
            final(self).inv(),
            r is Ok <==> !old(self)@.allocated,
            !old(self)@.allocated ==> final(self)@ =~= fresh_gview(capacity as nat),
            old(self)@.allocated ==> final(self)@ == old(self)@
                && r == Err::<(), AllocError>(AllocError::AlreadyAllocated),
    {
        if self.allocated {
            return Err(AllocError::AlreadyAllocated);
        }
        self.shapes = HostBuffer::allocate(capacity, CollisionGeometry(Vector4(0, 0, 0, 0)));
        self.positions = HostBuffer::allocate(capacity, Vector4(0, 0, 0, 0));
        self.rotations = HostBuffer::allocate(capacity, Quat(0, 0, 0, 0));
        self.previous_positions = HostBuffer::allocate(capacity, Vector4(0, 0, 0, 0));
        self.previous_rotations = HostBuffer::allocate(capacity, Quat(0, 0, 0, 0));
        self.flags = HostBuffer::allocate(capacity, 0i32);
        self.count = 0;
        self.has_changes = false;
        self.allocated = true;
        Ok(())
    }

    /// Number of shapes currently added.
    pub fn get_count(&self) -> (n: usize)
        ensures
            n == self@.count,
    {
        self.count
    }

    /// Reports whether host-side contents have diverged from what was last
    /// pushed to the solver.
    pub fn dirty(&self) -> (r: bool)
        ensures
            r == self@.has_changes,
    {
        self.has_changes
    }

    /// Adds one shape at index `count`: maps all six buffers, writes the
    /// descriptor, pose and flags — current and previous pose both set to
    /// the supplied pose — unmaps, advances the count and marks the state
    /// dirty.
    pub fn add_shape(&mut self, shape: CollisionGeometry, pos: Vector4, rot: Quat, flag: i32)
        requires
            old(self).inv(),
            old(self)@.allocated,
            !old(self)@.released,
            old(self)@.count < old(self)@.capacity,
        ensures
            final(self).inv(),
            final(self)@ =~= add_shape_gview(old(self)@, shape, pos, rot, flag),
    {
        let i = self.count;
        let _r = self.shapes.map();
        let _r = self.positions.map();
        let _r = self.rotations.map();
        let _r = self.previous_positions.map();
        let _r = self.previous_rotations.map();
        let _r = self.flags.map();
        self.shapes.write(i, shape);
        self.positions.write(i, pos);
        self.rotations.write(i, rot);
        self.previous_positions.write(i, pos);
        self.previous_rotations.write(i, rot);
        self.flags.write(i, flag);
        let _r = self.shapes.unmap();
        let _r = self.positions.unmap();
        let _r = self.rotations.unmap();
        let _r = self.previous_positions.unmap();
        let _r = self.previous_rotations.unmap();
        let _r = self.flags.unmap();
        self.count = i + 1;
        self.has_changes = true;
    }

    /// Reads back one added shape: descriptor, current position, current
    /// rotation, previous position, previous rotation, flags. Performs its
    /// own map/read/unmap cycle and leaves the state unchanged.
    pub fn get_shape(&mut self, i: usize) -> (r: (CollisionGeometry, Vector4, Quat, Vector4, Quat, i32))
        requires
            old(self).inv(),
            old(self)@.allocated,
            !old(self)@.released,
            i < old(self)@.count,
        ensures
            final(self).inv(),
            final(self)@ =~= old(self)@,
            r == (
                old(self)@.shapes[i as int],
                old(self)@.positions[i as int],
                old(self)@.rotations[i as int],
                old(self)@.previous_positions[i as int],
                old(self)@.previous_rotations[i as int],
                old(self)@.flags[i as int],
            ),
    {
        let _r = self.shapes.map();
        let _r = self.positions.map();
        let _r = self.rotations.map();
        let _r = self.previous_positions.map();
        let _r = self.previous_rotations.map();
        let _r = self.flags.map();
        let out = (
            self.shapes.read(i),
            self.positions.read(i),
            self.rotations.read(i),
            self.previous_positions.read(i),
            self.previous_rotations.read(i),
            self.flags.read(i),
        );
        let _r = self.shapes.unmap();
        let _r = self.positions.unmap();
        let _r = self.rotations.unmap();
        let _r = self.previous_positions.unmap();
        let _r = self.previous_rotations.unmap();
        let _r = self.flags.unmap();
        out
    }

    /// Releases any host mapping of the geometry buffers. The mutators here
    /// pair every map with an unmap internally, so at every public boundary
    /// nothing is mapped and the violation is detected and reported.
    pub fn unmap(&mut self) -> (r: Result<(), BufferError>)
        requires
            old(self).inv(),
        ensures
            final(self).inv(),
            final(self)@ == old(self)@,
            r is Err,
            old(self)@.released ==> r == Err::<(), BufferError>(BufferError::AlreadyFreed),
            !old(self)@.released ==> r == Err::<(), BufferError>(BufferError::NotMapped),
    {
        if self.shapes.freed() {
            return Err(BufferError::AlreadyFreed);
        }
        Err(BufferError::NotMapped)
    }

    /// Pushes the full shape set — descriptors, current/previous pose pairs,
    /// flags and count — to the solver. A clean state is a no-op: the call
    /// reports whether anything was pushed, and leaves the state clean
    /// either way. Geometry is push-only; the solver never writes it back.
    pub fn flush(&mut self) -> (r: bool)
        requires
            old(self).inv(),
            !old(self)@.released,
        ensures
            final(self).inv(),
            r == old(self)@.has_changes,
            final(self)@ =~= flushed_gview(old(self)@),
    {
        if !self.has_changes {
            return false;
        }
        self.has_changes = false;
        true
    }

    /// Frees all six buffers, exactly once, after the last unmap. Part of
    /// session teardown; the state is unusable afterwards.
    pub fn release(&mut self) -> (r: Result<(), BufferError>)
        requires
            old(self).inv(),
        ensures
            final(self).inv(),
            r is Ok <==> !old(self)@.released,
            r is Ok ==> final(self)@ =~= (GeometryStateView { released: true, ..old(self)@ }),
            r is Err ==> final(self)@ == old(self)@
                && r == Err::<(), BufferError>(BufferError::AlreadyFreed),
    {
        if self.shapes.freed() {
            return Err(BufferError::AlreadyFreed);
        }
        let _r = self.shapes.free();
        let _r = self.positions.free();
        let _r = self.rotations.free();
        let _r = self.previous_positions.free();
        let _r = self.previous_rotations.free();
        let _r = self.flags.free();
        Ok(())
    }
}

} // verus!
