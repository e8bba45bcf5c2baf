use vstd::prelude::*;

verus! {

/// Failures that a caller can recover from: every one is detected locally,
/// before anything is handed to the transport.
#[derive(Debug, Clone, Copy, PartialEq, Eq, Structural)]
pub enum WinError {
    /// An element index outside `[0, length)` of a window slice.
    IndexOutOfBounds { index: usize, length: usize },
    /// A target rank outside `[0, size)` of the group.
    InvalidRank { rank: usize, size: usize },
    /// An element type or length whose byte size the transport cannot address.
    UnsupportedLayout { length: usize, elem_size: usize },
}

} // verus!
