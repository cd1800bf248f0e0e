//! The public statement that the proofs of a session attest to.

use crate::digest::Digest;
use crate::exit_code::ExitCode;
use crate::image::SystemState;
use vstd::prelude::*;

verus! {

/// The public output of a guest.
#[derive(Debug, PartialEq, Eq)]
pub struct Journal {
    /// The bytes that the guest committed.
    pub bytes: Vec<u8>,
}

impl View for Journal {
    type V = Seq<u8>;

    open spec fn view(&self) -> Seq<u8> {
        self.bytes@
    }
}

impl Clone for Journal {
    fn clone(&self) -> (journal: Journal)
        ensures
            journal@ == self@,
    {
        Journal { bytes: self.bytes.clone() }
    }
}

impl Journal {
    /// The journal that holds `bytes`.
    pub fn new(bytes: Vec<u8>) -> (journal: Journal)
        ensures
            journal@ == bytes@,
    {
        Journal { bytes }
    }
}

/// What an assumption that is still open points to: the claim, named by its
/// digest, for which a receipt has yet to be supplied.
#[derive(Clone, Copy, Debug, PartialEq, Eq)]
pub struct ResolvedRef {
    /// The digest of the claim.
    pub claim: Digest,
}

/// A claim that the guest took for granted while it ran.
#[derive(Clone, Copy, Debug, PartialEq, Eq)]
pub enum Assumption {
    /// A receipt for the claim is at hand; only its digest is kept.
    Proven(Digest),
    /// No receipt is at hand; the claim has to be resolved before the proof
    /// that rests on it is complete.
    Unresolved(ResolvedRef),
}

/// The assumptions that a claim is conditional on, in the order in which the
/// guest made them.
#[derive(Debug, PartialEq, Eq)]
pub struct Assumptions(pub Vec<ResolvedRef>);

impl Clone for Assumptions {
    fn clone(&self) -> (assumptions: Assumptions)
        ensures
            assumptions@ == self@,
    {
        Assumptions(self.0.clone())
    }
}

impl View for Assumptions {
    type V = Seq<ResolvedRef>;

    open spec fn view(&self) -> Seq<ResolvedRef> {
        self.0@
    }
}

/// What a guest hands to the outside: its journal, and the assumptions under
/// which it was written.
#[derive(Debug, PartialEq, Eq)]
pub struct Output {
    /// The bytes of the journal.
    pub journal: Vec<u8>,
    /// The assumptions that are still open.
    pub assumptions: Assumptions,
}

/// The mathematical content of an [`Output`].
pub struct OutputView {
    pub journal: Seq<u8>,
    pub assumptions: Seq<ResolvedRef>,
}

impl View for Output {
    type V = OutputView;

    open spec fn view(&self) -> OutputView {
        OutputView { journal: self.journal@, assumptions: self.assumptions@ }
    }
}

impl Clone for Output {
    fn clone(&self) -> (output: Output)
        ensures
            output@ == self@,
    {
        Output { journal: self.journal.clone(), assumptions: self.assumptions.clone() }
    }
}

/// The claim of a session: from which state it started, in which state and how
/// it ended, and what it handed out.
#[derive(Debug, PartialEq, Eq)]
pub struct ReceiptMetadata {
    /// The state before the first instruction.
    pub pre: SystemState,
    /// The state after the last instruction.
    pub post: SystemState,
    /// How the session ended.
    pub exit_code: ExitCode,
    /// The digest of the input.
    pub input: Digest,
    /// The output, where the session committed to one.
    pub output: Option<Output>,
}

/// The mathematical content of a [`ReceiptMetadata`].
pub struct ReceiptMetadataView {
    pub pre: SystemState,
    pub post: SystemState,
    pub exit_code: ExitCode,
    pub input: Digest,
    pub output: Option<OutputView>,
}

impl View for ReceiptMetadata {
    type V = ReceiptMetadataView;

    open spec fn view(&self) -> ReceiptMetadataView {
        ReceiptMetadataView {
            pre: self.pre,
            post: self.post,
            exit_code: self.exit_code,
            input: self.input,
            output: match self.output {
                Some(output) => Some(output@),
                None => None,
            },
        }
    }
}

impl Clone for ReceiptMetadata {
    fn clone(&self) -> (claim: ReceiptMetadata)
        ensures
            claim@ == self@,
    {
        ReceiptMetadata {
            pre: self.pre,
            post: self.post,
            exit_code: self.exit_code,
            input: self.input,
            output: match &self.output {
                Some(output) => Some(output.clone()),
                None => None,
            },
        }
    }
}

/// The assumptions among `assumptions` that are still open, in their order.
pub open spec fn unresolved(assumptions: Seq<Assumption>) -> Seq<ResolvedRef>
    decreases assumptions.len(),
{
    if assumptions.len() == 0 {
        Seq::empty()
    } else {
        let front = unresolved(assumptions.drop_last());
        match assumptions.last() {
            Assumption::Proven(_) => front,
            Assumption::Unresolved(open) => front.push(open),
        }
    }
}

/// An assumption that is proven does not count, whatever its digest is:
/// putting another digest in its place leaves the open assumptions as they
/// are.
pub proof fn lemma_proven_assumptions_do_not_count(
    assumptions: Seq<Assumption>,
    i: int,
    digest: Digest,
)
    requires
        0 <= i < assumptions.len(),
        assumptions[i] is Proven,
    ensures
        unresolved(assumptions.update(i, Assumption::Proven(digest))) == unresolved(assumptions),
    decreases assumptions.len(),
{
    let changed = assumptions.update(i, Assumption::Proven(digest));
    if i == assumptions.len() - 1 {
        assert(changed.drop_last() =~= assumptions.drop_last());
    } else {
        lemma_proven_assumptions_do_not_count(assumptions.drop_last(), i, digest);
        assert(changed.drop_last() =~= assumptions.drop_last().update(
            i,
            Assumption::Proven(digest),
        ));
    }
}

/// Collects the assumptions that are still open, in their order.
pub fn collect_unresolved(assumptions: &Vec<Assumption>) -> (open: Assumptions)
    ensures
        open@ == unresolved(assumptions@),
{
    let mut open: Vec<ResolvedRef> = Vec::new();
    let mut i: usize = 0;
    while i < assumptions.len()
        invariant
            i <= assumptions.len(),
            open@ == unresolved(assumptions@.take(i as int)),
        decreases assumptions.len() - i,
    {
        proof {
            assert(assumptions@.take(i + 1).drop_last() == assumptions@.take(i as int));
        }
        match assumptions[i] {
            Assumption::Proven(_) => {},
            Assumption::Unresolved(r) => {
                open.push(r);
            },
        }
        i += 1;
    }
    proof {
        assert(assumptions@.take(i as int) == assumptions@);
    }
    Assumptions(open)
}

} // verus!
