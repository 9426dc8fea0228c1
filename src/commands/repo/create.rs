//! Creating a repository locally (no remote) with one worktree.
use vstd::prelude::*;
use crate::config::Config;
use crate::error::RepoError;
use crate::identity::{parse_reference, reference_identity};
use crate::commands::get::branch_or_main;
use crate::locate::main_branch;
use crate::store::{session_outcome, start_session, StoreSession};

pub use crate::identity::parse_repo_name;

verus! {

/// The outcome owed for creating `repo` with the worktree `worktree` under
/// `root`.
pub open spec fn create_outcome(
    root: Seq<char>,
    repo: Seq<char>,
    worktree: Option<String>,
    r: Result<StoreSession, RepoError>,
) -> bool {
    match reference_identity(repo) {
        None => r matches Err(e) && (e matches RepoError::InvalidFormat(m) && m@ == repo),
        Some((h, o, n)) => {
            &&& session_outcome(r, root, h, o, n, branch_or_main(worktree))
            &&& r matches Ok(s) ==> s.source is None
        },
    }
}

/// The session that initialises the bare store of `repo` locally (unless it
/// exists) and checks out `worktree`, `main` by default. `repo` is a URL or a
/// short `owner/name`.
pub fn execute_with_config(repo: String, worktree: Option<String>, config: Config) -> (r: Result<
    StoreSession,
    RepoError,
>)
    ensures
        create_outcome(config.root@, repo@, worktree, r),
{
    proof {
        reveal_strlit("main");
    }
    let (host, owner, name) = match parse_reference(repo.as_str()) {
        Ok(t) => t,
        Err(e) => return Err(e),
    };
    let branch = match worktree {
        Some(w) => w,
        None => String::from_str("main"),
    };
    assert("main"@ =~= main_branch());
    start_session(config.root.as_str(), host.as_str(), owner.as_str(), name.as_str(), branch, None)
}

} // verus!
