//! References to segments: handles that hand out a segment on demand.

use crate::error::ResolutionError;
use crate::segment::{Segment, SegmentView};
use vstd::prelude::*;

verus! {

/// The mathematical content of what a resolution came back with.
pub open spec fn outcome_view(outcome: Result<Segment, ResolutionError>) -> Result<
    SegmentView,
    ResolutionError,
> {
    match outcome {
        Ok(segment) => Ok(segment@),
        Err(error) => Err(error),
    }
}

/// A handle that can hand out a segment, wherever the segment is kept.
///
/// `resolve` may be called any number of times; each call hands out a segment
/// of its own or fails.
pub trait SegmentRef: Send {
    /// Whether a call of `resolve` may come back with `outcome`. A reference
    /// that says nothing of itself admits every outcome.
    open spec fn yields(&self, outcome: Result<SegmentView, ResolutionError>) -> bool {
        true
    }

    /// Hands out the segment that this reference stands for.
    fn resolve(&self) -> (outcome: Result<Segment, ResolutionError>)
        ensures
            self.yields(outcome_view(outcome)),
    ;
}

/// A reference that keeps its segment in memory.
#[derive(Debug, PartialEq, Eq)]
pub struct SimpleSegmentRef {
    segment: Segment,
}

impl View for SimpleSegmentRef {
    type V = SegmentView;

    closed spec fn view(&self) -> SegmentView {
        self.segment@
    }
}

impl SimpleSegmentRef {
    /// The reference that holds `segment`.
    pub fn new(segment: Segment) -> (reference: SimpleSegmentRef)
        ensures
            reference@ == segment@,
    {
        SimpleSegmentRef { segment }
    }
}

impl Clone for SimpleSegmentRef {
    fn clone(&self) -> (reference: SimpleSegmentRef)
        ensures
            reference@ == self@,
    {
        SimpleSegmentRef { segment: self.segment.clone() }
    }
}

impl SegmentRef for SimpleSegmentRef {
    open spec fn yields(&self, outcome: Result<SegmentView, ResolutionError>) -> bool {
        outcome == Ok::<SegmentView, ResolutionError>(self@)
    }

    fn resolve(&self) -> (outcome: Result<Segment, ResolutionError>) {
        Ok(self.segment.clone())
    }
}

} // verus!
