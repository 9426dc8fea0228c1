//! The commands a user can give, as plain values.
use vstd::prelude::*;

verus! {

/// A parsed command line.
#[derive(Debug, Clone)]
pub struct Cli {
    pub command: Commands,
}

#[allow(inconsistent_fields)]
#[derive(Debug, Clone)]
pub enum Commands {
    /// Repository operations
    Repo { command: RepoCommands },
    /// Worktree operations
    Worktree { command: WorktreeCommands },
    /// Show the root directory path
    Root,
}

#[derive(Debug, Clone)]
pub enum RepoCommands {
    /// Clone a repository and create its default branch worktree
    Clone { url: String },
    /// Create a new repository and initialise a worktree
    Create {
        /// `owner/repo` or a full URL
        repo: String,
        /// The worktree name (default: `main`)
        worktree: Option<String>,
    },
    /// Print the path of a repository's worktree
    Switch {
        /// `owner/repo`
        repo: String,
        /// The worktree to switch to
        worktree: Option<String>,
    },
    /// List all managed repositories
    List {
        /// List worktrees instead of repositories
        show_worktrees: bool,
    },
}

#[derive(Debug, Clone)]
pub enum WorktreeCommands {
    /// Create a worktree from the default branch
    Create { branch: String },
    /// Navigate to a worktree
    Switch { branch: String },
    /// Remove a worktree
    Remove { branch: String },
    /// Remove worktrees merged into the default branch
    Clean,
    /// Show the status of all worktrees
    Status,
    /// List all managed worktrees
    List,
}

} // verus!
