//! Runs: the sequences of segments that a session can consist of.

use crate::exit_code::ExitCode;
use crate::segment::{views, Segment, SegmentView};
use vstd::prelude::*;

verus! {

/// Whether `segments` can be the run of a session that ended with
/// `exit_code`: the segments are numbered from zero without a gap, every
/// segment but the last ends in a system split, and the last one ends with
/// `exit_code`, which is no system split.
pub open spec fn is_run(segments: Seq<SegmentView>, exit_code: ExitCode) -> bool {
    &&& forall|i: int| 0 <= i < segments.len() ==> (#[trigger] segments[i]).index == i
    &&& forall|i: int|
        0 <= i < segments.len() - 1 ==> (#[trigger] segments[i]).exit_code
            == ExitCode::SystemSplit
    &&& segments.len() > 0 ==> {
        &&& segments.last().exit_code == exit_code
        &&& exit_code != ExitCode::SystemSplit
    }
}

/// In the run of a session, the segments that end in a system split are
/// those before the last.
pub proof fn lemma_run_splits_before_last(
    segments: Seq<SegmentView>,
    exit_code: ExitCode,
    i: int,
)
    requires
        is_run(segments, exit_code),
        0 <= i < segments.len(),
    ensures
        segments[i].exit_code == ExitCode::SystemSplit <==> i < segments.len() - 1,
{
}

/// Tests whether `segments` can be the run of a session that ended with
/// `exit_code`.
pub fn forms_run(segments: &Vec<Segment>, exit_code: ExitCode) -> (legal: bool)
    ensures
        legal == is_run(views(segments@), exit_code),
{
    let ghost all = views(segments@);
    let n: usize = segments.len();
    let mut i: usize = 0;
    while i < n
        invariant
            n == segments.len(),
            all == views(segments@),
            i <= n,
            forall|j: int| 0 <= j < i ==> (#[trigger] all[j]).index == j,
            forall|j: int|
                0 <= j < i && j < n - 1 ==> (#[trigger] all[j]).exit_code == ExitCode::SystemSplit,
            i == n && n > 0 ==> all.last().exit_code == exit_code && exit_code
                != ExitCode::SystemSplit,
        decreases n - i,
    {
        let segment = &segments[i];
        assert(segment@ == all[i as int]);
        if i > u32::MAX as usize || segment.index() != i as u32 {
            return false;
        }
        let code = segment.exit_code();
        if i < n - 1 {
            if code != ExitCode::SystemSplit {
                return false;
            }
        } else {
            if code != exit_code || exit_code == ExitCode::SystemSplit {
                return false;
            }
        }
        i += 1;
    }
    true
}

} // verus!
