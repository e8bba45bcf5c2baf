use vstd::prelude::*;

verus! {

/// Largest value of the transport's `int` type, in which ranks and sizes travel.
pub const WIRE_INT_MAX: usize = 2147483647;

/// A process group as seen by one member: its own rank and the member count.
#[derive(Debug, Clone, Copy, PartialEq, Eq, Structural)]
pub struct Communicator {
    rank: usize,
    size: usize,
}

impl Communicator {
    /// A group with at least one member, of which this process is one, whose
    /// ranks all fit the transport's `int`.
    pub open spec fn wf(&self) -> bool {
        &&& self.spec_rank() < self.spec_size()
        &&& self.spec_size() <= WIRE_INT_MAX
    }

    pub closed spec fn spec_rank(&self) -> nat {
        self.rank as nat
    }

    pub closed spec fn spec_size(&self) -> nat {
        self.size as nat
    }

    /// Builds the group from the rank and size that the transport reported.
    /// It exists exactly when `0 <= rank < size`.
    pub fn new(rank: i32, size: i32) -> (r: Option<Communicator>)
        ensures
            r is Some <==> 0 <= rank < size,
            r matches Some(c) ==> c.wf() && c.spec_rank() == rank && c.spec_size() == size,
    {
        if 0 <= rank && rank < size {
            Some(Communicator { rank: rank as usize, size: size as usize })
        } else {
            None
        }
    }

    /// This process's 0-based index in the group.
    pub fn rank(&self) -> (r: usize)
        ensures
            r == self.spec_rank(),
    {
        self.rank
    }

    /// The number of members of the group.
    pub fn size(&self) -> (r: usize)
        ensures
            r == self.spec_size(),
    {
        self.size
    }

    /// Whether `target` names a member of the group.
    pub fn is_member(&self, target: usize) -> (r: bool)
        ensures
            r == (target < self.spec_size()),
    {
        target < self.size
    }
}

} // verus!
