//! Counters that tell the work of one open or seek from that of an older one.
use vstd::prelude::*;

verus! {

/// Counts opened files.
#[derive(Clone, Copy, Debug, PartialEq, Eq, Structural)]
pub struct OpenGeneration(pub u64);

/// Counts seeks.
#[derive(Clone, Copy, Debug, PartialEq, Eq, Structural)]
pub struct SeekGeneration(pub u64);

/// Names one open, seek or recovery.
#[derive(Clone, Copy, Debug, PartialEq, Eq, Structural)]
pub struct OperationId(pub u64);

/// The value after `n`; the last value is followed by zero.
pub open spec fn next_count(n: u64) -> u64 {
    if n == u64::MAX {
        0
    } else {
        (n + 1) as u64
    }
}

/// The next count differs from the one before.
pub proof fn next_count_differs(n: u64)
    ensures
        next_count(n) != n,
{
}

/// The generations that frames and events must carry to count.
#[derive(Clone, Copy, Debug, PartialEq, Eq, Structural)]
pub struct GenerationState {
    pub open: OpenGeneration,
    pub seek: SeekGeneration,
}

impl GenerationState {
    pub fn new() -> (r: Self)
        ensures
            r == (GenerationState { open: OpenGeneration(0), seek: SeekGeneration(0) }),
    {
        GenerationState { open: OpenGeneration(0), seek: SeekGeneration(0) }
    }

    /// Starts a new open generation and returns it.
    pub fn bump_open(&mut self) -> (r: OpenGeneration)
        ensures
            r == OpenGeneration(next_count(old(self).open.0)),
            *final(self) == (GenerationState { open: r, seek: old(self).seek }),
    {
        self.open = OpenGeneration(self.open.0.wrapping_add(1));
        self.open
    }

    /// Starts a new seek generation and returns it.
    pub fn bump_seek(&mut self) -> (r: SeekGeneration)
        ensures
            r == SeekGeneration(next_count(old(self).seek.0)),
            *final(self) == (GenerationState { open: old(self).open, seek: r }),
    {
        self.seek = SeekGeneration(self.seek.0.wrapping_add(1));
        self.seek
    }
}

/// Hands out operation names.
#[derive(Clone, Copy, Debug, PartialEq, Eq, Structural)]
pub struct OperationClock {
    pub last: u64,
}

impl OperationClock {
    pub fn new() -> (r: Self)
        ensures
            r.last == 0,
    {
        OperationClock { last: 0 }
    }

    /// The next name.
    pub fn next(&mut self) -> (r: OperationId)
        ensures
            r == OperationId(next_count(old(self).last)),
            final(self).last == r.0,
    {
        self.last = self.last.wrapping_add(1);
        OperationId(self.last)
    }
}

/// Counts go up by one, and begin again behind the largest.
pub proof fn counts_go_up_by_one(n: u64)
    ensures
        n < u64::MAX ==> next_count(n) == n + 1,
        next_count(u64::MAX) == 0,
{
}

} // verus!
