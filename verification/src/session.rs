//! Sessions: the whole run of a guest, as the sequence of its segments, and
//! the claim that is built from it.

use crate::claim::{
    collect_unresolved, lemma_proven_assumptions_do_not_count, unresolved, Assumption, Journal,
    Output, OutputView, ReceiptMetadata, ReceiptMetadataView,
};
use crate::digest::Digest;
use crate::error::{ResolutionError, SessionError};
use crate::exit_code::ExitCode;
use crate::image::{MemoryImage, SystemState};
use crate::cycles::{cycle_totals, cycles_of};
use crate::run::{forms_run, is_run};
use crate::segment::{views, Segment, SegmentView};
use crate::segment_ref::{outcome_view, SegmentRef};
use vstd::prelude::*;

verus! {

/// An observer of the proving of a session. The prover calls both methods
/// around the proof of each segment that it resolved, in the order of the
/// segments; neither has any part in what the session claims.
pub trait SessionEvents {
    /// Called before the proof of `segment` starts.
    fn on_pre_prove_segment(&self, segment: &Segment) {
    }

    /// Called after the proof of `segment` has ended.
    fn on_post_prove_segment(&self, segment: &Segment) {
    }
}

/// The run of a guest from its first instruction until it halted, paused or
/// hit the limit of the host.
pub struct Session {
    /// The segments of the run, in the order of execution, each behind a
    /// reference. Every segment but the last ends in a system split.
    pub segments: Vec<Box<dyn SegmentRef>>,
    /// What the guest committed to, where the exit code asks for an output.
    pub journal: Option<Journal>,
    /// How the last segment, and with it the session, ended.
    pub exit_code: ExitCode,
    /// The memory image at the end of the run.
    pub post_image: MemoryImage,
    /// The claims that the guest took for granted, in the order in which it
    /// made them.
    pub assumptions: Vec<Assumption>,
    /// The observers of the proving of this session. They belong to the
    /// running program and are not part of what is stored of a session.
    pub hooks: Vec<Box<dyn SessionEvents>>,
}

/// The mathematical content of what building a claim came back with.
pub open spec fn claim_view(outcome: Result<ReceiptMetadata, SessionError>) -> Result<
    ReceiptMetadataView,
    SessionError,
> {
    match outcome {
        Ok(claim) => Ok(claim@),
        Err(error) => Err(error),
    }
}

/// The output that a session commits to, or the way in which its exit code
/// contradicts what it holds.
///
/// An exit code that expects an output takes the journal where there is one,
/// together with the assumptions that are still open. Any other exit code
/// allows neither a journal nor an assumption.
pub open spec fn output_of(
    exit_code: ExitCode,
    journal: Option<Seq<u8>>,
    assumptions: Seq<Assumption>,
) -> Result<Option<OutputView>, SessionError> {
    if exit_code.expects_output() {
        match journal {
            Some(bytes) => Ok(
                Some(OutputView { journal: bytes, assumptions: unresolved(assumptions) }),
            ),
            None => Ok(None),
        }
    } else if journal is Some {
        Err(SessionError::UnexpectedJournal(exit_code))
    } else if assumptions.len() > 0 {
        Err(SessionError::UnexpectedAssumptions(exit_code))
    } else {
        Ok(None)
    }
}

/// The mathematical content of what resolving a whole session came back with.
pub open spec fn segments_view(outcome: Result<Vec<Segment>, SessionError>) -> Result<
    Seq<SegmentView>,
    SessionError,
> {
    match outcome {
        Ok(segments) => Ok(views(segments@)),
        Err(error) => Err(error),
    }
}

/// What `get_cycles` returns, given what resolving the session came back with.
pub open spec fn cycles_after(resolved: Result<Seq<SegmentView>, SessionError>) -> Result<
    (u64, u64),
    SessionError,
> {
    match resolved {
        Err(error) => Err(error),
        Ok(segments) => match cycle_totals(segments) {
            Some(totals) => Ok(totals),
            None => Err(SessionError::CycleOverflow),
        },
    }
}

/// What `forms_run` returns, given what resolving the session came back
/// with.
pub open spec fn run_after(
    resolved: Result<Seq<SegmentView>, SessionError>,
    exit_code: ExitCode,
) -> Result<bool, SessionError> {
    match resolved {
        Err(error) => Err(error),
        Ok(segments) => Ok(is_run(segments, exit_code)),
    }
}

impl Session {
    /// The bytes of the journal, where there is one.
    pub open spec fn journal_bytes(&self) -> Option<Seq<u8>> {
        match self.journal {
            Some(journal) => Some(journal@),
            None => None,
        }
    }

    /// The Merkle root of the state in which the session ended.
    ///
    /// A guest that halted ran no further, and its last segment need not have
    /// computed a new commitment: the root is that of the image from which
    /// the last segment started. After any other end it is the root of the
    /// final image.
    pub open spec fn post_root(&self, last: SegmentView) -> Digest {
        if self.exit_code is Halted {
            last.pre_image.merkle_root
        } else {
            self.post_image.merkle_root
        }
    }

    /// The claim of this session, given its first and its last segment.
    pub open spec fn claim_of(&self, first: SegmentView, last: SegmentView) -> Result<
        ReceiptMetadataView,
        SessionError,
    > {
        match output_of(self.exit_code, self.journal_bytes(), self.assumptions@) {
            Ok(output) => Ok(
                ReceiptMetadataView {
                    pre: SystemState::of_image(first.pre_image),
                    post: SystemState {
                        pc: self.post_image.pc,
                        merkle_root: self.post_root(last),
                    },
                    exit_code: self.exit_code,
                    input: Digest::spec_zero(),
                    output,
                },
            ),
            Err(error) => Err(error),
        }
    }

    /// What `get_metadata` returns on a session with at least one segment,
    /// given what the resolutions of the first and of the last reference came
    /// back with. The last reference is not asked once the first has failed.
    pub open spec fn claim_after(
        &self,
        first: Result<SegmentView, ResolutionError>,
        last: Result<SegmentView, ResolutionError>,
    ) -> Result<ReceiptMetadataView, SessionError> {
        match first {
            Err(error) => Err(SessionError::Resolution(error)),
            Ok(first) => match last {
                Err(error) => Err(SessionError::Resolution(error)),
                Ok(last) => self.claim_of(first, last),
            },
        }
    }

    /// Whether `get_metadata` may return `outcome` on this session.
    pub open spec fn may_claim(&self, outcome: Result<ReceiptMetadataView, SessionError>) -> bool {
        if self.segments@.len() == 0 {
            outcome == Err::<ReceiptMetadataView, SessionError>(SessionError::NoSegments)
        } else {
            exists|
                first: Result<SegmentView, ResolutionError>,
                last: Result<SegmentView, ResolutionError>,
            |
                #![trigger self.claim_after(first, last)]
                {
                    &&& self.segments@.first().yields(first)
                    &&& first is Ok ==> self.segments@.last().yields(last)
                    &&& outcome == self.claim_after(first, last)
                }
        }
    }

    /// Makes a session of its parts. It has no observers yet.
    pub fn new(
        segments: Vec<Box<dyn SegmentRef>>,
        journal: Option<Vec<u8>>,
        exit_code: ExitCode,
        post_image: MemoryImage,
        assumptions: Vec<Assumption>,
    ) -> (session: Session)
        ensures
            session.segments == segments,
            session.journal_bytes() == match journal {
                Some(bytes) => Some(bytes@),
                None => None,
            },
            session.exit_code == exit_code,
            session.post_image == post_image,
            session.assumptions == assumptions,
            session.hooks@.len() == 0,
    {
        let journal = match journal {
            Some(bytes) => Some(Journal::new(bytes)),
            None => None,
        };
        Session { segments, journal, exit_code, post_image, assumptions, hooks: Vec::new() }
    }

    /// Whether `resolve` may return `outcome` on this session: either every
    /// reference yields its segment, or the first one that fails yields the
    /// error.
    pub open spec fn may_resolve_to(&self, outcome: Result<Seq<SegmentView>, SessionError>) -> bool {
        match outcome {
            Ok(segments) => {
                &&& segments.len() == self.segments@.len()
                &&& forall|i: int|
                    0 <= i < segments.len() ==> (#[trigger] self.segments@[i]).yields(
                        Ok(segments[i]),
                    )
            },
            Err(SessionError::Resolution(error)) => exists|resolved: Seq<SegmentView>|
                {
                    &&& resolved.len() < self.segments@.len()
                    &&& forall|i: int|
                        0 <= i < resolved.len() ==> (#[trigger] self.segments@[i]).yields(
                            Ok(resolved[i]),
                        )
                    &&& (#[trigger] self.segments@[resolved.len() as int]).yields(Err(error))
                },
            Err(_) => false,
        }
    }

    /// Resolves every reference, in order, and hands out the segments. The
    /// first reference that fails ends the walk, and its error is returned.
    pub fn resolve(&self) -> (outcome: Result<Vec<Segment>, SessionError>)
        ensures
            self.may_resolve_to(segments_view(outcome)),
    {
        let mut segments: Vec<Segment> = Vec::new();
        let mut i: usize = 0;
        while i < self.segments.len()
            invariant
                i <= self.segments@.len(),
                segments@.len() == i,
                forall|j: int|
                    0 <= j < i ==> (#[trigger] self.segments@[j]).yields(Ok(segments@[j]@)),
            decreases self.segments@.len() - i,
        {
            match self.segments[i].resolve() {
                Ok(segment) => {
                    segments.push(segment);
                },
                Err(error) => {
                    let ghost resolved = views(segments@);
                    assert(self.segments@[resolved.len() as int].yields(Err(error)));
                    return Err(SessionError::Resolution(error));
                },
            }
            i += 1;
        }
        Ok(segments)
    }

    /// Adds an observer of the proving of this session, behind those that
    /// are there: the list of observers is the one before with `hook`, in a
    /// box, at its end.
    pub fn add_hook<E: SessionEvents + 'static>(&mut self, hook: E)
        ensures
            ({
                let boxed: Box<dyn SessionEvents> = Box::new(hook);
                final(self).hooks@ == old(self).hooks@.push(boxed)
            }),
            final(self).hooks@.len() == old(self).hooks@.len() + 1,
            forall|i: int|
                0 <= i < old(self).hooks@.len() ==> final(self).hooks@[i] == old(self).hooks@[i],
            final(self).segments == old(self).segments,
            final(self).journal == old(self).journal,
            final(self).exit_code == old(self).exit_code,
            final(self).post_image == old(self).post_image,
            final(self).assumptions == old(self).assumptions,
    {
        let boxed: Box<dyn SessionEvents> = Box::new(hook);
        proof {
            vstd::seq::axiom_seq_push_len::<Box<dyn SessionEvents>>(self.hooks@, boxed);
            assert forall|i: int| 0 <= i < self.hooks@.len() implies self.hooks@.push(boxed)[i]
                == self.hooks@[i] by {
                vstd::seq::axiom_seq_push_index_different::<Box<dyn SessionEvents>>(
                    self.hooks@,
                    boxed,
                    i,
                );
            }
        }
        self.hooks.push(boxed);
    }

    /// Whether `forms_run` may return `outcome` on this session.
    pub open spec fn may_form_run(&self, outcome: Result<bool, SessionError>) -> bool {
        exists|resolved: Result<Seq<SegmentView>, SessionError>|
            #![trigger run_after(resolved, self.exit_code)]
            self.may_resolve_to(resolved) && outcome == run_after(resolved, self.exit_code)
    }

    /// Tests whether the segments of this session are a run that ends as the
    /// session says: numbered from zero without a gap, with a system split at
    /// the end of every segment but the last, and the exit code of the
    /// session, which is no system split, at the end of the last.
    ///
    /// Every reference is resolved.
    pub fn forms_run(&self) -> (outcome: Result<bool, SessionError>)
        ensures
            self.may_form_run(outcome),
    {
        let resolved = self.resolve();
        let outcome = match &resolved {
            Ok(segments) => Ok(forms_run(segments, self.exit_code)),
            Err(error) => Err(*error),
        };
        assert(outcome == run_after(segments_view(resolved), self.exit_code));
        outcome
    }

    /// Whether `get_cycles` may return `outcome` on this session.
    pub open spec fn may_count(&self, outcome: Result<(u64, u64), SessionError>) -> bool {
        exists|resolved: Result<Seq<SegmentView>, SessionError>|
            #![trigger cycles_after(resolved)]
            self.may_resolve_to(resolved) && outcome == cycles_after(resolved)
    }

    /// Counts the cycles of this session, in two numbers: first those that
    /// the prover pays for, with each segment padded to its power of two, then
    /// those that ran guest instructions.
    ///
    /// Every reference is resolved. Both totals are kept in 64 bits; a session
    /// whose padded total needs more is refused.
    pub fn get_cycles(&self) -> (outcome: Result<(u64, u64), SessionError>)
        ensures
            self.may_count(outcome),
    {
        let resolved = self.resolve();
        let outcome = match &resolved {
            Ok(segments) => match cycles_of(segments) {
                Some(totals) => Ok(totals),
                None => Err(SessionError::CycleOverflow),
            },
            Err(error) => Err(*error),
        };
        assert(outcome == cycles_after(segments_view(resolved)));
        outcome
    }

    /// Builds the claim of this session from its first and its last segment.
    ///
    /// The exit code decides what the claim carries. Where it expects an
    /// output, the output holds the journal and the assumptions that are still
    /// open; where it expects none, a journal or an assumption is an error.
    pub fn claim_from(&self, first: &Segment, last: &Segment) -> (outcome: Result<
        ReceiptMetadata,
        SessionError,
    >)
        ensures
            claim_view(outcome) == self.claim_of(first@, last@),
    {
        let output = if self.exit_code.expects_output() {
            match &self.journal {
                Some(journal) => Some(
                    Output {
                        journal: journal.bytes.clone(),
                        assumptions: collect_unresolved(&self.assumptions),
                    },
                ),
                None => None,
            }
        } else {
            if self.journal.is_some() {
                return Err(SessionError::UnexpectedJournal(self.exit_code));
            }
            if self.assumptions.len() > 0 {
                return Err(SessionError::UnexpectedAssumptions(self.exit_code));
            }
            None
        };
        let merkle_root = match self.exit_code {
            ExitCode::Halted(_) => last.pre_image().compute_root_hash(),
            _ => self.post_image.compute_root_hash(),
        };
        let post = SystemState { pc: self.post_image.pc, merkle_root };
        Ok(
            ReceiptMetadata {
                pre: SystemState::from(first.pre_image()),
                post,
                exit_code: self.exit_code,
                input: Digest::zero(),
                output,
            },
        )
    }

    /// Builds the claim that is proven when this session is handed to the
    /// prover.
    ///
    /// Only the first and the last reference are resolved, so the cost does
    /// not grow with the length of the session.
    pub fn get_metadata(&self) -> (outcome: Result<ReceiptMetadata, SessionError>)
        ensures
            self.may_claim(claim_view(outcome)),
    {
        let n: usize = self.segments.len();
        if n == 0 {
            return Err(SessionError::NoSegments);
        }
        let first = self.segments[0].resolve();
        let first_segment = match first {
            Ok(segment) => segment,
            Err(error) => {
                let outcome = Err(SessionError::Resolution(error));
                assert(claim_view(outcome) == self.claim_after(
                    outcome_view(first),
                    outcome_view(first),
                ));
                return outcome;
            },
        };
        let last = self.segments[n - 1].resolve();
        let last_segment = match last {
            Ok(segment) => segment,
            Err(error) => {
                let outcome = Err(SessionError::Resolution(error));
                assert(claim_view(outcome) == self.claim_after(
                    outcome_view(first),
                    outcome_view(last),
                ));
                return outcome;
            },
        };
        let outcome = self.claim_from(&first_segment, &last_segment);
        assert(claim_view(outcome) == self.claim_after(outcome_view(first), outcome_view(last)));
        outcome
    }
}

/// A session without segments has no claim: building one fails for want of
/// a first and a last segment.
pub proof fn lemma_empty_session_has_no_claim(
    session: Session,
    outcome: Result<ReceiptMetadataView, SessionError>,
)
    requires
        session.segments@.len() == 0,
        session.may_claim(outcome),
    ensures
        outcome == Err::<ReceiptMetadataView, SessionError>(SessionError::NoSegments),
{
}

/// An exit code that expects no output allows neither a journal nor an
/// assumption: with either, there is no output but an error, and the journal
/// is named first.
pub proof fn lemma_output_must_be_expected(
    exit_code: ExitCode,
    journal: Option<Seq<u8>>,
    assumptions: Seq<Assumption>,
)
    requires
        !exit_code.expects_output(),
        journal is Some || assumptions.len() > 0,
    ensures
        journal is Some ==> output_of(exit_code, journal, assumptions) == Err::<
            Option<OutputView>,
            SessionError,
        >(SessionError::UnexpectedJournal(exit_code)),
        journal is None ==> output_of(exit_code, journal, assumptions) == Err::<
            Option<OutputView>,
            SessionError,
        >(SessionError::UnexpectedAssumptions(exit_code)),
{
}

/// A session whose exit code expects no output, and which has a journal or
/// an assumption all the same, has no claim. Once it has a segment and both
/// ends of it resolve, the error is the contradiction itself.
pub proof fn lemma_inconsistent_session_has_no_claim(
    session: Session,
    outcome: Result<ReceiptMetadataView, SessionError>,
)
    requires
        !session.exit_code.expects_output(),
        session.journal is Some || session.assumptions@.len() > 0,
        session.may_claim(outcome),
    ensures
        outcome is Err,
        session.segments@.len() > 0 && !(outcome->Err_0 is Resolution) ==> outcome->Err_0 == (
        if session.journal is Some {
            SessionError::UnexpectedJournal(session.exit_code)
        } else {
            SessionError::UnexpectedAssumptions(session.exit_code)
        }),
{
    lemma_output_must_be_expected(
        session.exit_code,
        session.journal_bytes(),
        session.assumptions@,
    );
}

/// The output of a session does not depend on the assumptions that are
/// proven: with another digest in the place of one of them, the output is
/// the same.
pub proof fn lemma_output_ignores_proven(
    exit_code: ExitCode,
    journal: Option<Seq<u8>>,
    assumptions: Seq<Assumption>,
    i: int,
    digest: Digest,
)
    requires
        0 <= i < assumptions.len(),
        assumptions[i] is Proven,
    ensures
        output_of(exit_code, journal, assumptions.update(i, Assumption::Proven(digest)))
            == output_of(exit_code, journal, assumptions),
{
    lemma_proven_assumptions_do_not_count(assumptions, i, digest);
}

/// The claim of a session that halted ends in the Merkle root of the image
/// from which the last segment started, whatever the final image of the
/// session is. The claim of any other session ends in the root of the final
/// image.
pub proof fn lemma_post_root_of_claim(session: Session, first: SegmentView, last: SegmentView)
    requires
        session.claim_of(first, last) is Ok,
    ensures
        session.exit_code is Halted ==> session.claim_of(first, last)->Ok_0.post.merkle_root
            == last.pre_image.merkle_root,
        !(session.exit_code is Halted) ==> session.claim_of(first, last)->Ok_0.post.merkle_root
            == session.post_image.merkle_root,
        session.claim_of(first, last)->Ok_0.post.pc == session.post_image.pc,
{
}

/// Whether each reference of `session` yields the segment at its place in
/// `segments`, and nothing else.
pub open spec fn holds_segments(session: Session, segments: Seq<SegmentView>) -> bool {
    &&& segments.len() == session.segments@.len()
    &&& forall|i: int, outcome: Result<SegmentView, ResolutionError>|
        0 <= i < segments.len() ==> ((#[trigger] session.segments@[i].yields(outcome))
            <==> outcome == Ok::<SegmentView, ResolutionError>(segments[i]))
}

/// Where every reference yields its segment and nothing else, `get_metadata`
/// has one outcome: the claim from the first and the last of these segments.
pub proof fn lemma_claim_of_held_segments(
    session: Session,
    segments: Seq<SegmentView>,
    outcome: Result<ReceiptMetadataView, SessionError>,
)
    requires
        segments.len() > 0,
        holds_segments(session, segments),
        session.may_claim(outcome),
    ensures
        outcome == session.claim_of(segments.first(), segments.last()),
{
}

/// Where every reference yields its segment and nothing else, `resolve` has
/// one outcome, these segments; `get_cycles` has one outcome, their totals;
/// and `forms_run` has one outcome, whether they are a run.
pub proof fn lemma_outcomes_of_held_segments(
    session: Session,
    segments: Seq<SegmentView>,
    resolved: Result<Seq<SegmentView>, SessionError>,
    counted: Result<(u64, u64), SessionError>,
    run: Result<bool, SessionError>,
)
    requires
        holds_segments(session, segments),
    ensures
        session.may_resolve_to(resolved) ==> resolved == Ok::<Seq<SegmentView>, SessionError>(
            segments,
        ),
        session.may_count(counted) ==> counted == cycles_after(Ok(segments)),
        session.may_form_run(run) ==> run == Ok::<bool, SessionError>(
            is_run(segments, session.exit_code),
        ),
{
    assert forall|other: Result<Seq<SegmentView>, SessionError>|
        session.may_resolve_to(other) implies other == Ok::<Seq<SegmentView>, SessionError>(
        segments,
    ) by {
        match other {
            Ok(found) => {
                assert forall|i: int| 0 <= i < found.len() implies found[i] == segments[i] by {
                    assert(session.segments@[i].yields(Ok(found[i])));
                }
                assert(found =~= segments);
            },
            Err(SessionError::Resolution(error)) => {
                let before = choose|before: Seq<SegmentView>|
                    {
                        &&& before.len() < session.segments@.len()
                        &&& forall|i: int|
                            0 <= i < before.len() ==> (#[trigger] session.segments@[i]).yields(
                                Ok(before[i]),
                            )
                        &&& (#[trigger] session.segments@[before.len() as int]).yields(
                            Err(error),
                        )
                    };
                assert(session.segments@[before.len() as int].yields(Err(error)));
            },
            Err(_) => {},
        }
    }
}

} // verus!
