//! The pages that a segment touched.

use std::collections::BTreeSet;
use vstd::prelude::*;

verus! {

/// The pages that were read and the pages that were written while a segment
/// ran, by page index. A page may be in both sets.
#[derive(Debug, PartialEq, Eq)]
pub struct PageFaults {
    /// The pages that were read.
    pub reads: BTreeSet<u32>,
    /// The pages that were written.
    pub writes: BTreeSet<u32>,
}

/// The mathematical content of a [`PageFaults`].
pub struct PageFaultsView {
    pub reads: Set<u32>,
    pub writes: Set<u32>,
}

impl View for PageFaults {
    type V = PageFaultsView;

    open spec fn view(&self) -> PageFaultsView {
        PageFaultsView { reads: self.reads@, writes: self.writes@ }
    }
}

impl Default for PageFaults {
    fn default() -> (faults: PageFaults)
        ensures
            faults@.reads == Set::<u32>::empty(),
            faults@.writes == Set::<u32>::empty(),
    {
        PageFaults { reads: BTreeSet::new(), writes: BTreeSet::new() }
    }
}

impl Clone for PageFaults {
    fn clone(&self) -> (faults: PageFaults)
        ensures
            faults@ == self@,
    {
        PageFaults { reads: self.reads.clone(), writes: self.writes.clone() }
    }
}

} // verus!
