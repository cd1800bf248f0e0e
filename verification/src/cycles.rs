//! Cycle accounting: what a run costs the prover, and what of it ran guest
//! instructions.

use crate::segment::{views, Segment, SegmentView};
use vstd::arithmetic::power2::{lemma2_to64_rest, lemma_pow2_strictly_increases};
use vstd::bits::{lemma_u64_pow2_no_overflow, lemma_u64_shl_is_mul};
use vstd::prelude::*;

verus! {

/// The cycles that the prover pays for `segments`: each segment counts with
/// its padded length, `2^po2`.
pub open spec fn padded_total(segments: Seq<SegmentView>) -> nat
    decreases segments.len(),
{
    if segments.len() == 0 {
        0
    } else {
        padded_total(segments.drop_last()) + segments.last().padded_cycles()
    }
}

/// The cycles of `segments` that ran guest instructions.
pub open spec fn user_total(segments: Seq<SegmentView>) -> nat
    decreases segments.len(),
{
    if segments.len() == 0 {
        0
    } else {
        user_total(segments.drop_last()) + segments.last().cycles as nat
    }
}

/// Both totals of `segments`, where the padded total fits into 64 bits. The
/// other total is then no larger, as the cycles of every segment fit into
/// its padded length.
pub open spec fn cycle_totals(segments: Seq<SegmentView>) -> Option<(u64, u64)> {
    if padded_total(segments) <= u64::MAX {
        Some((padded_total(segments) as u64, user_total(segments) as u64))
    } else {
        None
    }
}

/// The padded total of a part of a run is at most that of the whole run.
pub proof fn lemma_padded_total_grows(segments: Seq<SegmentView>, n: int)
    requires
        0 <= n <= segments.len(),
    ensures
        padded_total(segments.take(n)) <= padded_total(segments),
    decreases segments.len(),
{
    if n < segments.len() {
        lemma_padded_total_grows(segments.drop_last(), n);
        assert(segments.drop_last().take(n) == segments.take(n));
    } else {
        assert(segments.take(n) == segments);
    }
}

/// Segments whose cycles fit into their padded lengths run, taken together,
/// no more guest cycles than the prover pays for.
pub proof fn lemma_user_total_bounded(segments: Seq<SegmentView>)
    requires
        forall|i: int| 0 <= i < segments.len() ==> (#[trigger] segments[i]).wf(),
    ensures
        user_total(segments) <= padded_total(segments),
    decreases segments.len(),
{
    if segments.len() > 0 {
        lemma_user_total_bounded(segments.drop_last());
    }
}

/// Adds up the cycles of `segments`: the padded total that the prover pays
/// for, and the total that ran guest instructions. There is no result where
/// the padded total does not fit into 64 bits.
pub fn cycles_of(segments: &Vec<Segment>) -> (totals: Option<(u64, u64)>)
    ensures
        totals == cycle_totals(views(segments@)),
{
    let ghost all = views(segments@);
    let mut padded: u64 = 0;
    let mut user: u64 = 0;
    let mut i: usize = 0;
    while i < segments.len()
        invariant
            i <= segments.len(),
            all == views(segments@),
            padded == padded_total(all.take(i as int)),
            user == user_total(all.take(i as int)),
            forall|j: int| 0 <= j < i ==> (#[trigger] all[j]).wf(),
        decreases segments.len() - i,
    {
        let po2: u32 = segments[i].po2();
        let cycles: u32 = segments[i].cycles();
        proof {
            assert(all.take(i + 1).drop_last() == all.take(i as int));
            assert(all.take(i + 1).last() == segments@[i as int]@);
            lemma_padded_total_grows(all, i + 1);
            lemma_user_total_bounded(all.take(i + 1));
        }
        if po2 >= 64 {
            proof {
                lemma2_to64_rest();
                if po2 > 64 {
                    lemma_pow2_strictly_increases(64, po2 as nat);
                }
            }
            return None;
        }
        proof {
            lemma_u64_pow2_no_overflow(po2 as nat);
            lemma_u64_shl_is_mul(1u64, po2 as u64);
        }
        let length: u64 = 1u64 << (po2 as u64);
        match padded.checked_add(length) {
            Some(sum) => {
                padded = sum;
            },
            None => {
                return None;
            },
        }
        user = user + cycles as u64;
        i += 1;
    }
    proof {
        assert(all.take(i as int) == all);
    }
    Some((padded, user))
}

} // verus!
