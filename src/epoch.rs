use vstd::prelude::*;

use crate::error::WinError;
use crate::group::WIRE_INT_MAX;
use crate::window::{layout_ok, Win};

verus! {

/// A read epoch over this process's own slice of a window, opened in shared
/// mode. The slice is borrowed for as long as the epoch lives, so the epoch
/// cannot outlive the memory it reads.
pub struct LocalWinLock<'a, T> {
    data: &'a [T],
    rank: usize,
}

impl<'a, T> LocalWinLock<'a, T> {
    /// The elements of the slice, as this epoch reads them.
    pub closed spec fn view(&self) -> Seq<T> {
        self.data@
    }

    /// The rank that owns the slice.
    pub closed spec fn spec_rank(&self) -> nat {
        self.rank as nat
    }

    pub(crate) fn new(data: &'a [T], rank: usize) -> (r: LocalWinLock<'a, T>)
        ensures
            r@ == data@,
            r.spec_rank() == rank,
    {
        LocalWinLock { data, rank }
    }

    /// Number of elements in the slice.
    pub fn len(&self) -> (r: usize)
        ensures
            r == self@.len(),
    {
        self.data.len()
    }

    /// The rank that owns the slice.
    pub fn rank(&self) -> (r: usize)
        ensures
            r == self.spec_rank(),
    {
        self.rank
    }

    /// The element at `index`. Fails, without touching memory, exactly when
    /// `index` lies outside the slice.
    pub fn index(&self, index: usize) -> (r: Result<&'a T, WinError>)
        ensures
            r is Ok <==> index < self@.len(),
            r matches Ok(v) ==> *v == self@[index as int],
            r matches Err(e) ==> e == (WinError::IndexOutOfBounds {
                index,
                length: self@.len() as usize,
            }),
    {
        if index < self.data.len() {
            Ok(&self.data[index])
        } else {
            Err(WinError::IndexOutOfBounds { index, length: self.data.len() })
        }
    }
}

/// One element transfer into a remote slice: the element `value` goes to rank
/// `target_rank`, at `target_disp` display units (elements) from the start of
/// its slice, as `byte_count` bytes.
#[derive(Debug, Clone, Copy, PartialEq)]
pub struct PutRequest<T> {
    pub target_rank: i32,
    pub target_disp: i64,
    pub byte_count: i32,
    pub value: T,
}

/// A write epoch on one other member's slice of a window, opened in shared
/// mode. It holds no remote memory, only which rank it writes to and the
/// shape of that rank's slice.
pub struct RemoteWinLock<T> {
    target: usize,
    length: usize,
    elem_size: usize,
    elem: core::marker::PhantomData<T>,
}

impl<T> RemoteWinLock<T> {
    pub closed spec fn spec_target(&self) -> nat {
        self.target as nat
    }

    pub closed spec fn spec_length(&self) -> nat {
        self.length as nat
    }

    pub closed spec fn spec_elem_size(&self) -> nat {
        self.elem_size as nat
    }

    /// The target rank fits the transport's `int`, and the slice's layout can
    /// be addressed.
    pub open spec fn wf(&self) -> bool {
        &&& self.spec_target() <= WIRE_INT_MAX
        &&& layout_ok(self.spec_length(), self.spec_elem_size())
    }

    /// Opens a write epoch on `rank`'s slice of `win`. Fails exactly when
    /// `rank` is not a member of the window's group.
    pub fn new(win: &Win<T>, rank: usize) -> (r: Result<RemoteWinLock<T>, WinError>)
        requires
            win.wf(),
        ensures
            r is Ok <==> rank < win.spec_comm().spec_size(),
            r matches Ok(l) ==> l.wf() && l.spec_target() == rank
                && l.spec_length() == win.spec_length()
                && l.spec_elem_size() == win.spec_elem_size(),
            r matches Err(e) ==> e == (WinError::InvalidRank {
                rank,
                size: win.spec_comm().spec_size() as usize,
            }),
    {
        let comm = win.comm();
        if !comm.is_member(rank) {
            return Err(WinError::InvalidRank { rank, size: comm.size() });
        }
        Ok(RemoteWinLock {
            target: rank,
            length: win.length(),
            elem_size: core::mem::size_of::<T>(),
            elem: core::marker::PhantomData,
        })
    }

    /// The rank whose slice this epoch writes to.
    pub fn target(&self) -> (r: usize)
        ensures
            r == self.spec_target(),
    {
        self.target
    }

    /// Plans writing a copy of `value` at element `index` of the target's
    /// slice. Fails, with nothing to transfer, exactly when `index` lies
    /// outside the slice. The epoch itself is left as it was.
    pub fn put(&mut self, value: &T, index: usize) -> (r: Result<PutRequest<T>, WinError>)
        where
            T: Copy,
        requires
            old(self).wf(),
        ensures
            *final(self) == *old(self),
            r is Ok <==> index < old(self).spec_length(),
            r matches Ok(q) ==> q.target_rank == old(self).spec_target()
                && q.target_disp == index
                && q.byte_count == old(self).spec_elem_size()
                && q.value == *value,
            r matches Err(e) ==> e == (WinError::IndexOutOfBounds {
                index,
                length: old(self).spec_length() as usize,
            }),
    {
        if index >= self.length {
            return Err(WinError::IndexOutOfBounds { index, length: self.length });
        }
        proof {
            assert(self.spec_length() <= self.spec_elem_size() * self.spec_length())
                by (nonlinear_arith)
                requires
                    self.spec_elem_size() > 0,
            ;
        }
        Ok(PutRequest {
            target_rank: self.target as i32,
            target_disp: index as i64,
            byte_count: self.elem_size as i32,
            value: *value,
        })
    }
}

} // verus!
