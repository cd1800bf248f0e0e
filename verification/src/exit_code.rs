//! The conditions under which execution of a segment stops.

use vstd::prelude::*;

verus! {

/// How the execution of a segment, or of a whole session, ended.
#[derive(Clone, Copy, Debug, PartialEq, Eq, Structural)]
pub enum ExitCode {
    /// The guest asked to terminate, with a status of its choice.
    Halted(u32),
    /// The guest suspended itself, with a status of its choice; it can be resumed.
    Paused(u32),
    /// The host cut the execution at a continuation boundary.
    SystemSplit,
    /// The host's limit on the length of a session was reached.
    SessionLimit,
}

impl ExitCode {
    /// Whether a session that ends this way commits to an output.
    pub open spec fn spec_expects_output(self) -> bool {
        self is Halted || self is Paused
    }

    /// Whether a session that ends this way commits to an output.
    #[verifier::when_used_as_spec(spec_expects_output)]
    pub fn expects_output(self) -> (b: bool)
        ensures
            b == self.spec_expects_output(),
    {
        match self {
            ExitCode::Halted(_) | ExitCode::Paused(_) => true,
            ExitCode::SystemSplit | ExitCode::SessionLimit => false,
        }
    }

    /// The exit code as two numbers: which kind it is, and the status of the
    /// guest, which is zero where the kind has none.
    pub open spec fn spec_to_fields(self) -> (u32, u32) {
        match self {
            ExitCode::Halted(status) => (0, status),
            ExitCode::Paused(status) => (1, status),
            ExitCode::SystemSplit => (2, 0),
            ExitCode::SessionLimit => (3, 0),
        }
    }

    /// The exit code as two numbers: which kind it is, and the status of the
    /// guest, which is zero where the kind has none.
    #[verifier::when_used_as_spec(spec_to_fields)]
    pub fn to_fields(self) -> (fields: (u32, u32))
        ensures
            fields == self.spec_to_fields(),
    {
        match self {
            ExitCode::Halted(status) => (0, status),
            ExitCode::Paused(status) => (1, status),
            ExitCode::SystemSplit => (2, 0),
            ExitCode::SessionLimit => (3, 0),
        }
    }

    /// The exit code that `fields` stand for, where they stand for one.
    pub open spec fn spec_from_fields(fields: (u32, u32)) -> Option<ExitCode> {
        if fields.0 == 0 {
            Some(ExitCode::Halted(fields.1))
        } else if fields.0 == 1 {
            Some(ExitCode::Paused(fields.1))
        } else if fields.0 == 2 && fields.1 == 0 {
            Some(ExitCode::SystemSplit)
        } else if fields.0 == 3 && fields.1 == 0 {
            Some(ExitCode::SessionLimit)
        } else {
            None
        }
    }

    /// The exit code that `fields` stand for, where they stand for one: the
    /// kind has to be known, and a kind without a status has to come with
    /// zero.
    #[verifier::when_used_as_spec(spec_from_fields)]
    pub fn from_fields(fields: (u32, u32)) -> (code: Option<ExitCode>)
        ensures
            code == ExitCode::spec_from_fields(fields),
    {
        if fields.0 == 0 {
            Some(ExitCode::Halted(fields.1))
        } else if fields.0 == 1 {
            Some(ExitCode::Paused(fields.1))
        } else if fields.0 == 2 && fields.1 == 0 {
            Some(ExitCode::SystemSplit)
        } else if fields.0 == 3 && fields.1 == 0 {
            Some(ExitCode::SessionLimit)
        } else {
            None
        }
    }
}

} // verus!
