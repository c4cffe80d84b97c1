//! The error taxonomy of the synchronization core.

use vstd::prelude::*;

verus! {

/// The phase of the synchronization cycle in which a failure arose.  Every
/// engine-level failure is reported together with its phase, so that a caller
/// can tell a failed fetch from a failed push.
#[derive(Clone, Copy, Debug, PartialEq, Eq, Structural)]
pub enum SyncPhase {
    Fetch,
    Merge,
    Commit,
    Push,
}

/// Errors surfaced by the synchronization core.
///
/// A detected merge conflict is deliberately not here: it is a valid outcome,
/// reported through `merge::FetchStatus`, that the caller must resolve.
#[derive(Clone, Copy, Debug, PartialEq, Eq, Structural)]
pub enum CodexGitError {
    /// A network or protocol failure in the named phase.
    Transport { phase: SyncPhase },
    /// Credential resolution ran out of attempts; the operation is abandoned.
    AuthExhausted,
    /// The local and fetched histories share no common ancestor; integration
    /// is refused rather than invented.
    UnrelatedHistories,
    /// A disk failure in the named phase.
    Io { phase: SyncPhase },
    /// The configuration is unusable, e.g. a remote URL with an empty last
    /// path segment, from which no repository name can be derived.
    Config,
}

impl CodexGitError {
    /// A short, fixed description of the error kind.
    pub fn describe(&self) -> (m: &'static str)
        ensures
            m@ == describe_spec(*self),
    {
        match self {
            CodexGitError::Transport { .. } => "transport failure",
            CodexGitError::AuthExhausted => "credential attempts exhausted",
            CodexGitError::UnrelatedHistories => "histories are unrelated",
            CodexGitError::Io { .. } => "disk failure",
            CodexGitError::Config => "unusable configuration",
        }
    }
}

/// What `CodexGitError::describe` returns for each error kind.
pub open spec fn describe_spec(e: CodexGitError) -> Seq<char> {
    match e {
        CodexGitError::Transport { .. } => "transport failure"@,
        CodexGitError::AuthExhausted => "credential attempts exhausted"@,
        CodexGitError::UnrelatedHistories => "histories are unrelated"@,
        CodexGitError::Io { .. } => "disk failure"@,
        CodexGitError::Config => "unusable configuration"@,
    }
}

} // verus!
