//! Errors of segment resolution and of session-level operations.

use crate::exit_code::ExitCode;
use vstd::prelude::*;

verus! {

/// Why a reference could not hand out its segment.
#[derive(Clone, Copy, Debug, PartialEq, Eq, Structural)]
pub enum ResolutionError {
    /// The stored form could not be read or written.
    Io,
    /// The stored bytes are not the encoding of a segment.
    Codec,
}

/// Why an operation on a session failed. No operation hands out a partial
/// result beside its error.
#[derive(Clone, Copy, Debug, PartialEq, Eq, Structural)]
pub enum SessionError {
    /// Structure: the session has no segment, and the operation needs one.
    NoSegments,
    /// Consistency: the session ended with the given exit code, which commits
    /// to no output, and yet has a journal.
    UnexpectedJournal(ExitCode),
    /// Consistency: the session ended with the given exit code, which commits
    /// to no output, and yet has assumptions.
    UnexpectedAssumptions(ExitCode),
    /// Resolution: a reference could not hand out its segment.
    Resolution(ResolutionError),
    /// The cycles of the session do not fit into 64 bits.
    CycleOverflow,
}

} // verus!
