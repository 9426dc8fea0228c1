//! Cloning a repository from a URL and checking out one of its branches.
use vstd::prelude::*;
use crate::config::Config;
use crate::error::RepoError;
use crate::identity::{parse_repository_url, url_identity};
use crate::locate::main_branch;
use crate::store::{session_outcome, start_session, StoreSession};

verus! {

/// The branch to check out: the one given, else `main`.
pub open spec fn branch_or_main(branch: Option<String>) -> Seq<char> {
    match branch {
        Some(b) => b@,
        None => main_branch(),
    }
}

/// The outcome owed for cloning `url` and checking out `branch` under `root`.
pub open spec fn get_outcome(
    root: Seq<char>,
    url: Seq<char>,
    branch: Option<String>,
    r: Result<StoreSession, RepoError>,
) -> bool {
    match url_identity(url) {
        None => r matches Err(e) && (e matches RepoError::InvalidFormat(m) && m@ == url),
        Some((h, o, n)) => {
            &&& session_outcome(r, root, h, o, n, branch_or_main(branch))
            &&& r matches Ok(s) ==> (s.source matches Some(u) && u@ == url)
        },
    }
}

/// The session that clones `url` (unless its bare store exists) and checks
/// out `branch`, `main` by default (unless that worktree exists).
pub fn execute(config: Config, url: String, branch: Option<String>) -> (r: Result<StoreSession, RepoError>)
    ensures
        get_outcome(config.root@, url@, branch, r),
{
    proof {
        reveal_strlit("main");
    }
    let (host, owner, name) = match parse_repository_url(url.as_str()) {
        Ok(t) => t,
        Err(e) => return Err(e),
    };
    let branch = match branch {
        Some(b) => b,
        None => String::from_str("main"),
    };
    assert("main"@ =~= main_branch());
    start_session(config.root.as_str(), host.as_str(), owner.as_str(), name.as_str(), branch, Some(url))
}

} // verus!
