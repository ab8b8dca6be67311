//! The two ends of a range of indices, as a caller names them.

use vstd::prelude::*;

verus! {

/// One end of a range of indices.
#[derive(Debug, Clone, Copy, PartialEq, Eq, Structural)]
pub enum Bound {
    /// The range reaches this index and holds it.
    Included(usize),
    /// The range reaches this index and leaves it out.
    Excluded(usize),
    /// The range goes on to the end of what it is taken from.
    Unbounded,
}

impl Bound {
    /// The first index of a range that has this bound as its lower end.
    pub open spec fn spec_start(self) -> int {
        match self {
            Bound::Included(i) => i as int,
            Bound::Excluded(x) => x + 1,
            Bound::Unbounded => 0,
        }
    }

    /// The index one past the last of a range that has this bound as its
    /// upper end, when it is taken from `len` elements.
    pub open spec fn spec_end(self, len: int) -> int {
        match self {
            Bound::Included(i) => i + 1,
            Bound::Excluded(x) => x as int,
            Bound::Unbounded => len,
        }
    }

    /// The first index of a range that has this bound as its lower end.
    #[inline]
    #[must_use]
    pub fn start(self) -> (r: usize)
        requires
            self.spec_start() <= usize::MAX,
        ensures
            r == self.spec_start(),
    {
        match self {
            Bound::Included(i) => i,
            Bound::Excluded(x) => x + 1,
            Bound::Unbounded => 0,
        }
    }

    /// The index one past the last of a range that has this bound as its
    /// upper end, when it is taken from `len` elements.
    #[inline]
    #[must_use]
    pub fn end(self, len: usize) -> (r: usize)
        requires
            self.spec_end(len as int) <= usize::MAX,
        ensures
            r == self.spec_end(len as int),
    {
        match self {
            Bound::Included(i) => i + 1,
            Bound::Excluded(x) => x,
            Bound::Unbounded => len,
        }
    }
}

/// Whether the range from `start` to `end` can be taken from `len` elements:
/// neither end lies beyond them. The range may be empty, and its upper end
/// may lie before its lower one.
#[inline]
#[must_use]
pub fn range_within(start: Bound, end: Bound, len: usize) -> (r: bool)
    ensures
        r == (start.spec_start() <= len && end.spec_end(len as int) <= len),
{
    let start_ok = match start {
        Bound::Included(i) => i <= len,
        Bound::Excluded(x) => x < len,
        Bound::Unbounded => true,
    };
    let end_ok = match end {
        Bound::Included(i) => i < len,
        Bound::Excluded(x) => x <= len,
        Bound::Unbounded => true,
    };
    start_ok && end_ok
}

} // verus!
