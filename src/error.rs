//! The error taxonomy shared by every operation of the library.
use vstd::prelude::*;

verus! {

/// Why an operation failed. Variants that wrap a `String` carry the offending
/// input or the message of the underlying failure.
#[derive(Debug, Clone, PartialEq, Eq)]
pub enum RepoError {
    /// The reference string is neither a URL nor an `owner/name` pair.
    InvalidFormat(String),
    /// The root starts with `~` but no home directory is known.
    HomeNotSet,
    /// A filesystem operation failed.
    FilesystemError(String),
    /// Cloning the remote into a bare repository failed.
    CloneFailure(String),
    /// Initialising a local bare repository failed.
    RepositoryInitFailure(String),
    /// No repository `owner/name` exists under any host.
    RepositoryNotFound(String),
    /// The requested worktree, or any worktree at all, is missing.
    WorktreeNotFound(String),
    /// Adding a worktree failed and the bare repository was absent.
    WorktreeCreationFailure(String),
    /// The bare repository stayed unusable after one delete-and-recreate cycle.
    InvalidRepoState(String),
}

/// The text that `e` is reported with.
pub open spec fn message_of(e: RepoError) -> Seq<char> {
    match e {
        RepoError::InvalidFormat(m) => "Invalid repository format: "@ + m@,
        RepoError::HomeNotSet => "Home directory is not set"@,
        RepoError::FilesystemError(m) => "Filesystem error: "@ + m@,
        RepoError::CloneFailure(m) => "Failed to clone repository: "@ + m@,
        RepoError::RepositoryInitFailure(m) => "Failed to create bare repository: "@ + m@,
        RepoError::RepositoryNotFound(m) => "Repository not found: "@ + m@,
        RepoError::WorktreeNotFound(m) => "Worktree not found: "@ + m@,
        RepoError::WorktreeCreationFailure(m) => "Failed to create worktree: "@ + m@,
        RepoError::InvalidRepoState(m) => "Failed to recreate repository: "@ + m@,
    }
}

impl RepoError {
    /// The error as a line of text.
    pub fn message(&self) -> (r: String)
        ensures
            r@ == message_of(*self),
    {
        let (prefix, detail): (&str, &str) = match self {
            RepoError::InvalidFormat(m) => ("Invalid repository format: ", m.as_str()),
            RepoError::HomeNotSet => ("Home directory is not set", ""),
            RepoError::FilesystemError(m) => ("Filesystem error: ", m.as_str()),
            RepoError::CloneFailure(m) => ("Failed to clone repository: ", m.as_str()),
            RepoError::RepositoryInitFailure(m) => ("Failed to create bare repository: ", m.as_str()),
            RepoError::RepositoryNotFound(m) => ("Repository not found: ", m.as_str()),
            RepoError::WorktreeNotFound(m) => ("Worktree not found: ", m.as_str()),
            RepoError::WorktreeCreationFailure(m) => ("Failed to create worktree: ", m.as_str()),
            RepoError::InvalidRepoState(m) => ("Failed to recreate repository: ", m.as_str()),
        };
        proof {
            reveal_strlit("");
        }
        let mut r = String::from_str(prefix);
        r.append(detail);
        assert(r@ =~= message_of(*self));
        r
    }
}

} // verus!
