//! The order in which a sample programs, runs and reads its slices.
use vstd::prelude::*;

verus! {

/// What is done in a slice, in this order.
#[derive(Clone, Copy, Debug, PartialEq, Eq, Structural)]
pub enum SampleStep {
    /// The counters are frozen and reset and the events of the slice are selected.
    Program,
    /// The counters are released; the running time starts before.
    Unfreeze,
    /// The slice goes by.
    Wait,
    /// The counters are frozen.
    Freeze,
    /// The running time ends, and the counters are read.
    Read,
}

/// Where a sample stands: at a step of a slice.
#[derive(Clone, Copy, Debug, PartialEq, Eq, Structural)]
pub struct SampleCursor {
    pub slice: usize,
    pub step: SampleStep,
}

/// The place of a step within its slice.
pub open spec fn step_index(step: SampleStep) -> int {
    match step {
        SampleStep::Program => 0,
        SampleStep::Unfreeze => 1,
        SampleStep::Wait => 2,
        SampleStep::Freeze => 3,
        SampleStep::Read => 4,
    }
}

/// The place of a step within the whole sample.
pub open spec fn ordinal(cursor: SampleCursor) -> int {
    cursor.slice * 5 + step_index(cursor.step)
}

impl SampleCursor {
    /// The first step of a sample; nothing where there are no slices.
    pub fn start(slice_count: usize) -> (cursor: Option<Self>)
        ensures
            match cursor {
                Some(cursor) => slice_count > 0 && ordinal(cursor) == 0 && cursor.slice
                    < slice_count,
                None => slice_count == 0,
            },
    {
        if slice_count == 0 {
            None
        } else {
            Some(SampleCursor { slice: 0, step: SampleStep::Program })
        }
    }

    /// The step that follows; nothing after the last step of the last slice.
    pub fn next(self, slice_count: usize) -> (cursor: Option<Self>)
        requires
            self.slice < slice_count,
        ensures
            match cursor {
                Some(next) => ordinal(next) == ordinal(self) + 1 && next.slice < slice_count,
                None => ordinal(self) + 1 == slice_count * 5,
            },
    {
        match self.step {
            SampleStep::Program => Some(
                SampleCursor { slice: self.slice, step: SampleStep::Unfreeze },
            ),
            SampleStep::Unfreeze => Some(
                SampleCursor { slice: self.slice, step: SampleStep::Wait },
            ),
            SampleStep::Wait => Some(SampleCursor { slice: self.slice, step: SampleStep::Freeze }),
            SampleStep::Freeze => Some(SampleCursor { slice: self.slice, step: SampleStep::Read }),
            SampleStep::Read => if self.slice + 1 < slice_count {
                Some(SampleCursor { slice: self.slice + 1, step: SampleStep::Program })
            } else {
                None
            },
        }
    }
}

/// A step of a sample is told by its place: no two steps share one, so a walk from the first
/// step to the end takes every step of every slice exactly once.
pub proof fn ordinal_determines_step(a: SampleCursor, b: SampleCursor)
    requires
        ordinal(a) == ordinal(b),
    ensures
        a == b,
{
}

/// A slice is frozen before it is read, and read before the next one is programmed.
pub proof fn read_comes_last(slice: usize, later: SampleCursor)
    requires
        later.slice > slice,
    ensures
        ordinal(SampleCursor { slice, step: SampleStep::Freeze }) < ordinal(
            SampleCursor { slice, step: SampleStep::Read },
        ),
        ordinal(SampleCursor { slice, step: SampleStep::Read }) < ordinal(later),
{
}

} // verus!
