//! Ensuring that a repository's bare store and one of its worktrees exist.
//!
//! The work alternates between filesystem or version-control operations and
//! decisions, so it is a session: the caller asks `next_action`, performs it,
//! and reports back with `on_probe` (for a probe) or `on_result` (for an
//! operation) until the action is `Finish`.
//!
//! A failed worktree creation while the bare store is present marks the store
//! as suspect. The session then deletes it (and a stale worktree directory,
//! if any), recreates it by local initialisation and retries the worktree
//! once. A second failure is fatal.
use vstd::prelude::*;
use crate::error::RepoError;
use crate::layout::{bare_dir_name, path_join, repo_dir_of, RepositoryLayout};

verus! {

/// Which of the two paths of a layout an action is about.
#[derive(Debug, Clone, Copy, PartialEq, Eq)]
pub enum Target {
    Bare,
    Worktree,
}

/// What the caller is asked to do next.
#[derive(Debug, Clone, Copy, PartialEq, Eq)]
pub enum Action {
    /// Report whether the path exists.
    Probe(Target),
    /// Clone the source into a bare repository at the bare path.
    CloneBare,
    /// Initialise a bare repository at the bare path and commit an empty tree
    /// on the default branch.
    InitBare,
    /// Add a worktree for the branch at the worktree path.
    AddWorktree,
    /// Delete the path and everything under it.
    Remove(Target),
    /// Nothing is left to do; the outcome is final.
    Finish,
}

/// Where a session stands.
#[derive(Debug)]
pub enum Stage {
    /// Does the bare store exist?
    CheckBare,
    /// Create the bare store (by clone or by initialisation).
    MakeBare,
    /// Does the worktree exist?
    CheckWorktree,
    /// Create the worktree.
    AddWorktree,
    /// Creating the worktree failed with this message: is the bare store present?
    CheckSuspect(String),
    /// Recovery: delete the suspect bare store.
    RemoveBare,
    /// Recovery: is a worktree directory left over?
    CheckStale,
    /// Recovery: delete the left-over worktree directory.
    RemoveStale,
    /// Recovery: initialise the bare store afresh.
    RecreateBare,
    /// Recovery: the one retry of the worktree.
    RetryWorktree,
    /// Both exist.
    Done,
    /// The session failed with this error.
    Failed(RepoError),
}

/// The action that a session at `stage` asks for; `cloning` tells whether it
/// has a remote source.
pub open spec fn action_for(stage: Stage, cloning: bool) -> Action {
    match stage {
        Stage::CheckBare => Action::Probe(Target::Bare),
        Stage::MakeBare => if cloning {
            Action::CloneBare
        } else {
            Action::InitBare
        },
        Stage::CheckWorktree => Action::Probe(Target::Worktree),
        Stage::AddWorktree => Action::AddWorktree,
        Stage::CheckSuspect(_) => Action::Probe(Target::Bare),
        Stage::RemoveBare => Action::Remove(Target::Bare),
        Stage::CheckStale => Action::Probe(Target::Worktree),
        Stage::RemoveStale => Action::Remove(Target::Worktree),
        Stage::RecreateBare => Action::InitBare,
        Stage::RetryWorktree => Action::AddWorktree,
        Stage::Done => Action::Finish,
        Stage::Failed(_) => Action::Finish,
    }
}

/// The stage after a probe answered `present`. Stages that ask for no probe
/// stay as they are.
pub open spec fn after_probe(stage: Stage, present: bool) -> Stage {
    match stage {
        Stage::CheckBare => if present {
            Stage::CheckWorktree
        } else {
            Stage::MakeBare
        },
        Stage::CheckWorktree => if present {
            Stage::Done
        } else {
            Stage::AddWorktree
        },
        Stage::CheckSuspect(m) => if present {
            Stage::RemoveBare
        } else {
            Stage::Failed(RepoError::WorktreeCreationFailure(m))
        },
        Stage::CheckStale => if present {
            Stage::RemoveStale
        } else {
            Stage::RecreateBare
        },
        _ => stage,
    }
}

/// The stage after an operation ended with `r`. Stages that ask for no
/// operation stay as they are.
pub open spec fn after_result(stage: Stage, cloning: bool, r: Result<(), String>) -> Stage {
    match r {
        Ok(()) => match stage {
            Stage::MakeBare => Stage::CheckWorktree,
            Stage::AddWorktree => Stage::Done,
            Stage::RemoveBare => Stage::CheckStale,
            Stage::RemoveStale => Stage::RecreateBare,
            Stage::RecreateBare => Stage::RetryWorktree,
            Stage::RetryWorktree => Stage::Done,
            _ => stage,
        },
        Err(m) => match stage {
            Stage::MakeBare => if cloning {
                Stage::Failed(RepoError::CloneFailure(m))
            } else {
                Stage::Failed(RepoError::RepositoryInitFailure(m))
            },
            Stage::AddWorktree => Stage::CheckSuspect(m),
            Stage::RemoveBare => Stage::Failed(RepoError::FilesystemError(m)),
            Stage::RemoveStale => Stage::Failed(RepoError::FilesystemError(m)),
            Stage::RecreateBare => Stage::Failed(RepoError::RepositoryInitFailure(m)),
            Stage::RetryWorktree => Stage::Failed(RepoError::InvalidRepoState(m)),
            _ => stage,
        },
    }
}

/// One run of "ensure the bare store, then ensure the worktree".
pub struct StoreSession {
    pub layout: RepositoryLayout,
    /// The branch the worktree is bound to; it is also its directory name.
    pub branch: String,
    /// The remote to clone from; without one the bare store is initialised
    /// locally.
    pub source: Option<String>,
    pub stage: Stage,
}

impl StoreSession {
    pub open spec fn cloning(&self) -> bool {
        self.source is Some
    }

    /// A session that starts by probing for the bare store.
    pub fn new(layout: RepositoryLayout, branch: String, source: Option<String>) -> (r: StoreSession)
        ensures
            r.layout == layout,
            r.branch == branch,
            r.source == source,
            r.stage == Stage::CheckBare,
    {
        StoreSession { layout, branch, source, stage: Stage::CheckBare }
    }

    /// What the caller should do next.
    pub fn next_action(&self) -> (a: Action)
        ensures
            a == action_for(self.stage, self.cloning()),
    {
        match &self.stage {
            Stage::CheckBare => Action::Probe(Target::Bare),
            Stage::MakeBare => if self.source.is_some() {
                Action::CloneBare
            } else {
                Action::InitBare
            },
            Stage::CheckWorktree => Action::Probe(Target::Worktree),
            Stage::AddWorktree => Action::AddWorktree,
            Stage::CheckSuspect(_) => Action::Probe(Target::Bare),
            Stage::RemoveBare => Action::Remove(Target::Bare),
            Stage::CheckStale => Action::Probe(Target::Worktree),
            Stage::RemoveStale => Action::Remove(Target::Worktree),
            Stage::RecreateBare => Action::InitBare,
            Stage::RetryWorktree => Action::AddWorktree,
            Stage::Done => Action::Finish,
            Stage::Failed(_) => Action::Finish,
        }
    }

    /// Reports whether the probed path exists.
    pub fn on_probe(&mut self, present: bool)
        ensures
            final(self).stage == after_probe(old(self).stage, present),
            final(self).layout == old(self).layout,
            final(self).branch == old(self).branch,
            final(self).source == old(self).source,
    {
        let mut stage = Stage::Done;
        core::mem::swap(&mut stage, &mut self.stage);
        self.stage = match stage {
            Stage::CheckBare => if present {
                Stage::CheckWorktree
            } else {
                Stage::MakeBare
            },
            Stage::CheckWorktree => if present {
                Stage::Done
            } else {
                Stage::AddWorktree
            },
            Stage::CheckSuspect(m) => if present {
                Stage::RemoveBare
            } else {
                Stage::Failed(RepoError::WorktreeCreationFailure(m))
            },
            Stage::CheckStale => if present {
                Stage::RemoveStale
            } else {
                Stage::RecreateBare
            },
            other => other,
        };
    }

    /// Reports how the requested operation ended; an error carries the
    /// underlying message.
    pub fn on_result(&mut self, r: Result<(), String>)
        ensures
            final(self).stage == after_result(old(self).stage, old(self).cloning(), r),
            final(self).layout == old(self).layout,
            final(self).branch == old(self).branch,
            final(self).source == old(self).source,
    {
        let cloning = self.source.is_some();
        let mut stage = Stage::Done;
        core::mem::swap(&mut stage, &mut self.stage);
        self.stage = match r {
            Ok(()) => match stage {
                Stage::MakeBare => Stage::CheckWorktree,
                Stage::AddWorktree => Stage::Done,
                Stage::RemoveBare => Stage::CheckStale,
                Stage::RemoveStale => Stage::RecreateBare,
                Stage::RecreateBare => Stage::RetryWorktree,
                Stage::RetryWorktree => Stage::Done,
                other => other,
            },
            Err(m) => match stage {
                Stage::MakeBare => if cloning {
                    Stage::Failed(RepoError::CloneFailure(m))
                } else {
                    Stage::Failed(RepoError::RepositoryInitFailure(m))
                },
                Stage::AddWorktree => Stage::CheckSuspect(m),
                Stage::RemoveBare => Stage::Failed(RepoError::FilesystemError(m)),
                Stage::RemoveStale => Stage::Failed(RepoError::FilesystemError(m)),
                Stage::RecreateBare => Stage::Failed(RepoError::RepositoryInitFailure(m)),
                Stage::RetryWorktree => Stage::Failed(RepoError::InvalidRepoState(m)),
                other => other,
            },
        };
    }

    /// The final outcome, once the session has finished.
    pub fn into_outcome(self) -> (r: Option<Result<(), RepoError>>)
        ensures
            match self.stage {
                Stage::Done => r == Some(Ok::<(), RepoError>(())),
                Stage::Failed(e) => r == Some(Err::<(), RepoError>(e)),
                _ => r is None,
            },
    {
        match self.stage {
            Stage::Done => Some(Ok(())),
            Stage::Failed(e) => Some(Err(e)),
            _ => None,
        }
    }
}

/// `s` is a session that has not started yet, for `host/owner/name` under
/// `root` and the worktree of `branch`.
pub open spec fn fresh_session(
    s: StoreSession,
    root: Seq<char>,
    host: Seq<char>,
    owner: Seq<char>,
    name: Seq<char>,
    branch: Seq<char>,
) -> bool {
    &&& s.layout.repo_dir@ == repo_dir_of(root, host, owner, name)
    &&& s.layout.bare_path@ == path_join(s.layout.repo_dir@, bare_dir_name())
    &&& s.layout.worktree_path@ == path_join(s.layout.repo_dir@, branch)
    &&& s.branch@ == branch
    &&& s.stage == Stage::CheckBare
}

/// The outcome owed when a session is asked for: a fresh session, unless the
/// branch is `.git`, which would be the bare store's own directory.
pub open spec fn session_outcome(
    r: Result<StoreSession, RepoError>,
    root: Seq<char>,
    host: Seq<char>,
    owner: Seq<char>,
    name: Seq<char>,
    branch: Seq<char>,
) -> bool {
    if branch == bare_dir_name() {
        r matches Err(e) && (e matches RepoError::InvalidFormat(m) && m@ == branch)
    } else {
        r matches Ok(s) && fresh_session(s, root, host, owner, name, branch)
    }
}

/// A session for `host/owner/name` under `root` and the worktree of `branch`,
/// cloning from `source` when there is one.
pub fn start_session(
    root: &str,
    host: &str,
    owner: &str,
    name: &str,
    branch: String,
    source: Option<String>,
) -> (r: Result<StoreSession, RepoError>)
    ensures
        session_outcome(r, root@, host@, owner@, name@, branch@),
        r matches Ok(s) ==> s.source == source,
{
    match RepositoryLayout::new(root, host, owner, name, branch.as_str()) {
        Ok(layout) => Ok(StoreSession::new(layout, branch, source)),
        Err(e) => Err(e),
    }
}

/// The stages of the delete-recreate-retry cycle.
pub open spec fn recovering(s: Stage) -> bool {
    match s {
        Stage::RemoveBare | Stage::CheckStale | Stage::RemoveStale | Stage::RecreateBare
        | Stage::RetryWorktree => true,
        _ => false,
    }
}

/// Once the recovery cycle has begun, no report sends the session back to an
/// earlier stage: it goes on with the cycle or ends. The cycle is entered only
/// from the probe of a suspect bare store, so it runs at most once.
pub proof fn lemma_recovery_runs_once(s: Stage, cloning: bool, present: bool, r: Result<(), String>)
    ensures
        recovering(s) ==> {
            let p = after_probe(s, present);
            let q = after_result(s, cloning, r);
            &&& recovering(p) || p is Done || p is Failed
            &&& recovering(q) || q is Done || q is Failed
        },
        !recovering(s) && recovering(after_probe(s, present)) ==> s is CheckSuspect,
        !recovering(s) ==> !recovering(after_result(s, cloning, r)),
{
}

/// Where a new worktree's branch starts from.
#[derive(Debug, Clone, Copy, PartialEq, Eq)]
pub enum BaseRef {
    /// The branch already exists: attach to it.
    Branch,
    /// Create the branch from the default branch `main`.
    DefaultBranch,
    /// Leave it to the version-control engine's current `HEAD`.
    Head,
}

/// The branch's own ref when it exists, else the default branch when that
/// exists, else `HEAD`.
pub fn worktree_base(branch_exists: bool, default_exists: bool) -> (r: BaseRef)
    ensures
        r == (if branch_exists {
            BaseRef::Branch
        } else if default_exists {
            BaseRef::DefaultBranch
        } else {
            BaseRef::Head
        }),
{
    if branch_exists {
        BaseRef::Branch
    } else if default_exists {
        BaseRef::DefaultBranch
    } else {
        BaseRef::Head
    }
}

/// What exists on disk, as far as a session can tell.
pub struct Disk {
    pub bare: bool,
    pub worktree: bool,
}

pub open spec fn present(d: Disk, t: Target) -> bool {
    match t {
        Target::Bare => d.bare,
        Target::Worktree => d.worktree,
    }
}

/// The disk after the operation `a` succeeded on `d`.
pub open spec fn performed(d: Disk, a: Action) -> Disk {
    match a {
        Action::CloneBare => Disk { bare: true, ..d },
        Action::InitBare => Disk { bare: true, ..d },
        Action::AddWorktree => Disk { worktree: true, ..d },
        Action::Remove(Target::Bare) => Disk { bare: false, ..d },
        Action::Remove(Target::Worktree) => Disk { worktree: false, ..d },
        _ => d,
    }
}

/// Drives a session for at most `fuel` steps against a disk `d` that answers
/// probes truthfully. Every operation but adding a worktree succeeds; adding a
/// worktree succeeds when `add_error` is `None` and otherwise fails with that
/// message, leaving the disk as it was. The result is the final stage, the
/// final disk, and how many times the bare store was deleted.
pub open spec fn run(stage: Stage, cloning: bool, add_error: Option<String>, d: Disk, fuel: nat) -> (
    Stage,
    Disk,
    nat,
)
    decreases fuel,
{
    if fuel == 0 {
        (stage, d, 0)
    } else {
        match action_for(stage, cloning) {
            Action::Finish => (stage, d, 0),
            Action::Probe(t) => run(after_probe(stage, present(d, t)), cloning, add_error, d, (fuel - 1) as nat),
            Action::AddWorktree => match add_error {
                Some(m) => run(after_result(stage, cloning, Err(m)), cloning, add_error, d, (fuel - 1) as nat),
                None => run(
                    after_result(stage, cloning, Ok(())),
                    cloning,
                    add_error,
                    performed(d, Action::AddWorktree),
                    (fuel - 1) as nat,
                ),
            },
            a => {
                let next = run(after_result(stage, cloning, Ok(())), cloning, add_error, performed(d, a), (fuel - 1) as nat);
                let removed: nat = if a == Action::Remove(Target::Bare) {
                    1
                } else {
                    0
                };
                (next.0, next.1, next.2 + removed)
            },
        }
    }
}

/// Ensuring the bare store and then the worktree succeeds from any state of
/// the disk and leaves both present; doing it a second time with the same
/// inputs succeeds again, deletes nothing and leaves the disk as the first
/// run left it.
pub proof fn lemma_ensure_is_idempotent(cloning: bool, d: Disk)
    ensures
        run(Stage::CheckBare, cloning, None, d, 8) == (Stage::Done, Disk { bare: true, worktree: true }, 0nat),
        run(Stage::CheckBare, cloning, None, Disk { bare: true, worktree: true }, 8) == (
            Stage::Done,
            Disk { bare: true, worktree: true },
            0nat,
        ),
{
    reveal_with_fuel(run, 9);
}

/// When the bare store exists, the worktree does not, and every attempt to add
/// the worktree fails, the session deletes and recreates the bare store exactly
/// once, retries once, and then fails with the store reported invalid.
pub proof fn lemma_single_recovery_cycle(cloning: bool, m: String)
    ensures
        run(Stage::CheckBare, cloning, Some(m), Disk { bare: true, worktree: false }, 16) == (
            Stage::Failed(RepoError::InvalidRepoState(m)),
            Disk { bare: true, worktree: false },
            1nat,
        ),
{
    reveal_with_fuel(run, 17);
}

} // verus!
