//! Switching into a worktree of a repository named `owner/name`.
use vstd::prelude::*;
use crate::config::Config;
use crate::error::RepoError;
use crate::identity::{owner_name, split_owner_name};
use crate::locate::{repo_candidates, well_known_dirs, RepoSearch};
use crate::walker::views;

verus! {

/// Splits `owner/name`: exactly one `/`, both segments non-empty.
pub fn parse_repo_name(repo: &str) -> (r: Result<(String, String), RepoError>)
    ensures
        match r {
            Ok((o, n)) => owner_name(repo@) == Some((o@, n@)),
            Err(e) => owner_name(repo@) is None && (e matches RepoError::InvalidFormat(m) && m@ == repo@),
        },
{
    match split_owner_name(repo) {
        Some(pair) => Ok(pair),
        None => Err(RepoError::InvalidFormat(String::from_str(repo))),
    }
}

/// What switching needs: the search for the repository, and the worktree
/// asked for, if any (else the default one is picked).
pub struct SwitchPlan {
    pub search: RepoSearch,
    pub worktree: Option<String>,
}

/// The outcome owed for switching into `worktree` of `repo` under `root`.
pub open spec fn switch_outcome(
    root: String,
    repo: Seq<char>,
    worktree: Option<String>,
    r: Result<SwitchPlan, RepoError>,
) -> bool {
    match owner_name(repo) {
        None => r matches Err(e) && (e matches RepoError::InvalidFormat(m) && m@ == repo),
        Some((o, n)) => r matches Ok(p) && {
            &&& p.search.root == root
            &&& p.search.owner@ == o
            &&& p.search.name@ == n
            &&& views(p.search.candidates@) == repo_candidates(well_known_dirs(root@), o, n)
            &&& p.search.next == 0
            &&& !p.search.scanned
            &&& !p.search.found
            &&& p.search.wf()
            &&& p.worktree == worktree
        },
    }
}

/// The plan for switching into `worktree` of the repository `repo`.
pub fn execute_with_config(repo: String, worktree: Option<String>, config: Config) -> (r: Result<
    SwitchPlan,
    RepoError,
>)
    ensures
        switch_outcome(config.root, repo@, worktree, r),
{
    let (owner, name) = match parse_repo_name(repo.as_str()) {
        Ok(pair) => pair,
        Err(e) => return Err(e),
    };
    Ok(SwitchPlan { search: RepoSearch::new(config.root, owner, name), worktree })
}

} // verus!
