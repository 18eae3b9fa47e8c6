//! Host-side model of a solver-visible buffer.
//!
//! A buffer is a typed region of solver-visible memory holding a fixed number
//! of elements. At any moment it is in exactly one state: unmapped (the
//! solver may use it; the host must not touch it), mapped (the host may read
//! and write it), or freed. Mapping an already-mapped buffer, unmapping one
//! that is not mapped, and touching a freed buffer are protocol violations;
//! every operation here detects them and reports an error instead.

use vstd::prelude::*;

verus! {

/// Lifecycle state of a host buffer.
#[derive(Clone, Copy, Debug, PartialEq, Eq, Structural)]
pub enum BufferState {
    /// Allocated and owned by the solver; the host must not touch contents.
    Unmapped,
    /// Mapped for host access; the solver must not touch contents.
    Mapped,
    /// Released; no further use is allowed.
    Freed,
}

/// A violation of the buffer lifecycle protocol.
#[derive(Clone, Copy, Debug, PartialEq, Eq, Structural)]
pub enum BufferError {
    /// `map` was called on a buffer that is already mapped.
    AlreadyMapped,
    /// `unmap` was called on a buffer that is not mapped.
    NotMapped,
    /// `free` was called on a buffer that is still mapped.
    StillMapped,
    /// The buffer was already freed.
    AlreadyFreed,
}

/// A violation of the single-shot allocation contract of a state object.
#[derive(Clone, Copy, Debug, PartialEq, Eq, Structural)]
pub enum AllocError {
    /// The state's buffers were already allocated; allocating twice would
    /// leak the first allocation.
    AlreadyAllocated,
}

/// A typed region in solver-visible memory, mirrored on the host.
///
/// The element sequence always has exactly `capacity()` entries; writes
/// replace entries in place and never change the length.
pub struct HostBuffer<T> {
    data: Vec<T>,
    state: BufferState,
}

impl<T> View for HostBuffer<T> {
    type V = Seq<T>;

    closed spec fn view(&self) -> Seq<T> {
        self.data@
    }
}

impl<T: Copy> HostBuffer<T> {
    pub closed spec fn is_mapped(&self) -> bool {
        self.state is Mapped
    }

    pub closed spec fn is_freed(&self) -> bool {
        self.state is Freed
    }

    /// Allocated, not mapped, not freed: the solver owns the contents.
    pub open spec fn is_unmapped(&self) -> bool {
        !self.is_mapped() && !self.is_freed()
    }

    pub open spec fn capacity(&self) -> nat {
        self@.len()
    }

    /// Contents and lifecycle state both unchanged.
    pub open spec fn same_state(self, other: Self) -> bool {
        &&& self@ == other@
        &&& self.is_mapped() == other.is_mapped()
        &&& self.is_freed() == other.is_freed()
    }

    /// Allocates a buffer of `capacity` elements, every element `fill`.
    /// A fresh buffer starts unmapped, owned by the solver.
    pub fn allocate(capacity: usize, fill: T) -> (b: HostBuffer<T>)
        ensures
            b@ =~= Seq::new(capacity as nat, |i: int| fill),
            b.capacity() == capacity,
            !b.is_mapped(),
            !b.is_freed(),
    {
        let mut data: Vec<T> = Vec::new();
        let mut i: usize = 0;
        while i < capacity
            invariant
                i <= capacity,
                data@.len() == i,
                forall|j: int| 0 <= j < i ==> data@[j] == fill,
            decreases capacity - i,
        {
            data.push(fill);
            i = i + 1;
        }
        HostBuffer { data, state: BufferState::Unmapped }
    }

    /// How many elements the buffer holds. The host knows the size of its
    /// own allocation whether or not the buffer is mapped.
    pub fn size(&self) -> (n: usize)
        ensures
            n == self.capacity(),
    {
        self.data.len()
    }

    /// Whether the buffer is currently mapped for host access.
    pub fn mapped(&self) -> (r: bool)
        ensures
            r == self.is_mapped(),
    {
        matches!(self.state, BufferState::Mapped)
    }

    /// Whether the buffer has been freed.
    pub fn freed(&self) -> (r: bool)
        ensures
            r == self.is_freed(),
    {
        matches!(self.state, BufferState::Freed)
    }

    /// Maps the buffer for host access. Succeeds exactly when the buffer is
    /// unmapped and not freed; a second map without an intervening unmap is
    /// detected, as is any use after free.
    pub fn map(&mut self) -> (r: Result<(), BufferError>)
        ensures
            final(self)@ == old(self)@,
            r is Ok <==> old(self).is_unmapped(),
            old(self).is_unmapped() ==> final(self).is_mapped() && !final(self).is_freed(),
            old(self).is_mapped() ==> r == Err::<(), BufferError>(BufferError::AlreadyMapped)
                && final(self).same_state(*old(self)),
            old(self).is_freed() ==> r == Err::<(), BufferError>(BufferError::AlreadyFreed)
                && final(self).same_state(*old(self)),
    {
        match self.state {
            BufferState::Unmapped => {
                self.state = BufferState::Mapped;
                Ok(())
            }
            BufferState::Mapped => Err(BufferError::AlreadyMapped),
            BufferState::Freed => Err(BufferError::AlreadyFreed),
        }
    }

    /// Unmaps the buffer, committing its contents for solver use. Succeeds
    /// exactly when the buffer is mapped; unmapping an unmapped or freed
    /// buffer is detected.
    pub fn unmap(&mut self) -> (r: Result<(), BufferError>)
        ensures
            final(self)@ == old(self)@,
            r is Ok <==> old(self).is_mapped(),
            old(self).is_mapped() ==> final(self).is_unmapped(),
            old(self).is_unmapped() ==> r == Err::<(), BufferError>(BufferError::NotMapped)
                && final(self).same_state(*old(self)),
            old(self).is_freed() ==> r == Err::<(), BufferError>(BufferError::AlreadyFreed)
                && final(self).same_state(*old(self)),
    {
        match self.state {
            BufferState::Mapped => {
                self.state = BufferState::Unmapped;
                Ok(())
            }
            BufferState::Unmapped => Err(BufferError::NotMapped),
            BufferState::Freed => Err(BufferError::AlreadyFreed),
        }
    }

    /// Releases the buffer. Must come after the last unmap: freeing a mapped
    /// buffer, or freeing twice, is detected.
    pub fn free(&mut self) -> (r: Result<(), BufferError>)
        ensures
            final(self)@ == old(self)@,
            r is Ok <==> old(self).is_unmapped(),
            old(self).is_unmapped() ==> final(self).is_freed() && !final(self).is_mapped(),
            old(self).is_mapped() ==> r == Err::<(), BufferError>(BufferError::StillMapped)
                && final(self).same_state(*old(self)),
            old(self).is_freed() ==> r == Err::<(), BufferError>(BufferError::AlreadyFreed)
                && final(self).same_state(*old(self)),
    {
        match self.state {
            BufferState::Unmapped => {
                self.state = BufferState::Freed;
                Ok(())
            }
            BufferState::Mapped => Err(BufferError::StillMapped),
            BufferState::Freed => Err(BufferError::AlreadyFreed),
        }
    }

    /// Writes one element of a mapped buffer.
    pub fn write(&mut self, i: usize, value: T)
        requires
            old(self).is_mapped(),
            i < old(self).capacity(),
        ensures
            final(self)@ == old(self)@.update(i as int, value),
            final(self).is_mapped(),
            !final(self).is_freed(),
    {
        self.data[i] = value;
    }

    /// Reads one element of a mapped buffer.
    pub fn read(&self, i: usize) -> (r: T)
        requires
            self.is_mapped(),
            i < self.capacity(),
        ensures
            r == self@[i as int],
    {
        self.data[i]
    }

    /// Copies the contents of a mapped buffer.
    pub fn read_all(&self) -> (r: Vec<T>)
        requires
            self.is_mapped(),
        ensures
            r@ == self@,
    {
        let mut out: Vec<T> = Vec::new();
        let mut i: usize = 0;
        let n = self.data.len();
        while i < n
            invariant
                i <= n,
                n == self@.len(),
                out@ =~= self@.subrange(0, i as int),
                self.is_mapped(),
            decreases n - i,
        {
            out.push(self.data[i]);
            i = i + 1;
        }
        proof {
            assert(out@ =~= self@);
        }
        out
    }
}

} // verus!
