use vstd::prelude::*;

use crate::epoch::{LocalWinLock, RemoteWinLock};
use crate::error::WinError;
use crate::group::{Communicator, WIRE_INT_MAX};

verus! {

/// Largest byte count that the transport's address-sized integer can hold.
pub const ADDRESS_MAX: u64 = 9223372036854775807;

/// Whether a window of `length` elements of `elem_size` bytes each can be
/// registered: the element has a size that the transport's `int` holds, and the
/// whole slice has a byte size that its address-sized integer holds.
pub open spec fn layout_ok(length: nat, elem_size: nat) -> bool {
    &&& 0 < elem_size <= WIRE_INT_MAX
    &&& elem_size * length <= ADDRESS_MAX
}

/// One process's view of a window: a distributed array in which each member of
/// the group owns a slice of `length` elements of type `T`.
pub struct Win<T> {
    length: usize,
    elem_size: usize,
    comm: Communicator,
    elem: core::marker::PhantomData<T>,
}

impl<T> Win<T> {
    pub closed spec fn spec_length(&self) -> nat {
        self.length as nat
    }

    pub closed spec fn spec_comm(&self) -> Communicator {
        self.comm
    }

    pub closed spec fn spec_elem_size(&self) -> nat {
        self.elem_size as nat
    }

    /// The group is well formed, the element size is that of `T`, and the
    /// layout is one that the transport can register.
    pub open spec fn wf(&self) -> bool {
        &&& self.spec_comm().wf()
        &&& self.spec_elem_size() == vstd::layout::size_of::<T>()
        &&& layout_ok(self.spec_length(), self.spec_elem_size())
    }

    /// Describes a window of `length` elements per member of `comm`. Creating
    /// the window is collective: every member must do it with the same `length`
    /// and element type, in the same order as its other collective calls.
    /// Fails exactly when the layout cannot be registered.
    pub fn new(length: usize, comm: &Communicator) -> (r: Result<Win<T>, WinError>)
        requires
            comm.wf(),
        ensures
            r is Ok <==> layout_ok(length as nat, vstd::layout::size_of::<T>()),
            r matches Ok(w) ==> w.wf() && w.spec_length() == length && w.spec_comm() == *comm,
            r matches Err(e) ==> e == (WinError::UnsupportedLayout {
                length,
                elem_size: vstd::layout::size_of::<T>() as usize,
            }),
    {
        let elem_size = core::mem::size_of::<T>();
        if elem_size == 0 || elem_size > WIRE_INT_MAX {
            return Err(WinError::UnsupportedLayout { length, elem_size });
        }
        let wide_elem = elem_size as u64;
        let wide_length = length as u64;
        if wide_length > ADDRESS_MAX / wide_elem {
            proof {
                assert(wide_elem * wide_length > ADDRESS_MAX) by (nonlinear_arith)
                    requires
                        wide_length > ADDRESS_MAX / wide_elem,
                        wide_elem > 0,
                ;
            }
            return Err(WinError::UnsupportedLayout { length, elem_size });
        }
        proof {
            assert(wide_elem * wide_length <= ADDRESS_MAX) by (nonlinear_arith)
                requires
                    wide_length <= ADDRESS_MAX / wide_elem,
                    wide_elem > 0,
            ;
        }
        Ok(Win { length, elem_size, comm: *comm, elem: core::marker::PhantomData })
    }

    /// Elements in each member's slice.
    pub fn length(&self) -> (r: usize)
        ensures
            r == self.spec_length(),
    {
        self.length
    }

    /// The group that the window spans.
    pub fn comm(&self) -> (r: Communicator)
        ensures
            r == self.spec_comm(),
    {
        self.comm
    }

    /// Bytes to register for this process's slice.
    pub fn alloc_bytes(&self) -> (r: i64)
        requires
            self.wf(),
        ensures
            r == self.spec_elem_size() * self.spec_length(),
    {
        (self.elem_size as u64 * self.length as u64) as i64
    }

    /// The unit in which remote displacements count: one element, in bytes.
    pub fn disp_unit(&self) -> (r: i32)
        requires
            self.wf(),
        ensures
            r == self.spec_elem_size(),
    {
        self.elem_size as i32
    }

    /// Opens a shared read epoch over this process's own slice, whose memory
    /// the caller hands over as `data`.
    pub fn lock_local<'a>(&self, data: &'a [T]) -> (r: LocalWinLock<'a, T>)
        requires
            self.wf(),
            data@.len() == self.spec_length(),
        ensures
            r@ == data@,
            r.spec_rank() == self.spec_comm().spec_rank(),
    {
        LocalWinLock::new(data, self.comm.rank())
    }

    /// Opens a shared write epoch on `target`'s slice. Succeeds exactly when
    /// `target` is a member of the group.
    pub fn lock_remote_mut(&self, target: usize) -> (r: Result<RemoteWinLock<T>, WinError>)
        requires
            self.wf(),
        ensures
            r is Ok <==> target < self.spec_comm().spec_size(),
            r matches Ok(l) ==> l.wf() && l.spec_target() == target
                && l.spec_length() == self.spec_length()
                && l.spec_elem_size() == self.spec_elem_size(),
            r matches Err(e) ==> e == (WinError::InvalidRank {
                rank: target,
                size: self.spec_comm().spec_size() as usize,
            }),
    {
        RemoteWinLock::new(self, target)
    }
}

} // verus!
