//! Finding a repository by `owner/name` when its host is unknown, and picking
//! the worktree to switch into.
use vstd::prelude::*;
use crate::error::RepoError;
use crate::layout::{bare_dir_name, join_path, path_join};
use crate::text::same_text;
use crate::walker::{child_dirs, child_paths, lemma_child_paths_exact, qualifies, views, DirEntry, Listing};

verus! {

pub open spec fn main_branch() -> Seq<char> {
    seq!['m', 'a', 'i', 'n']
}

pub open spec fn master_branch() -> Seq<char> {
    seq!['m', 'a', 's', 't', 'e', 'r']
}

/// `entries` holds a directory called `name`.
pub open spec fn has_dir(entries: Seq<DirEntry>, name: Seq<char>) -> bool {
    exists|i: int| 0 <= i < entries.len() && #[trigger] entries[i].is_dir && entries[i].name@ == name
}

/// The worktree to switch into when none is named: `main`, else `master`,
/// else the first directory that is not `.git`, in the order given.
pub open spec fn default_worktree(repo: Seq<char>, entries: Seq<DirEntry>) -> Option<Seq<char>> {
    if has_dir(entries, main_branch()) {
        Some(path_join(repo, main_branch()))
    } else if has_dir(entries, master_branch()) {
        Some(path_join(repo, master_branch()))
    } else if child_paths(repo, entries).len() > 0 {
        Some(child_paths(repo, entries)[0])
    } else {
        None
    }
}

/// Whether `entries` holds a directory called `name`.
pub fn contains_dir(entries: &Vec<DirEntry>, name: &str) -> (r: bool)
    ensures
        r == has_dir(entries@, name@),
{
    let mut i: usize = 0;
    while i < entries.len()
        invariant
            i <= entries@.len(),
            forall|j: int| 0 <= j < i ==> !(#[trigger] entries@[j].is_dir && entries@[j].name@ == name@),
        decreases entries@.len() - i,
    {
        if entries[i].is_dir && same_text(entries[i].name.as_str(), name) {
            return true;
        }
        i = i + 1;
    }
    false
}

/// Picks the worktree of the repository at `repo_path` whose entries are
/// `entries`: `main`, else `master`, else the first directory not named
/// `.git`.
pub fn find_default_worktree(repo_path: &str, entries: &Vec<DirEntry>) -> (r: Result<String, RepoError>)
    ensures
        match r {
            Ok(p) => default_worktree(repo_path@, entries@) == Some(p@),
            Err(e) => default_worktree(repo_path@, entries@) is None && (e matches RepoError::WorktreeNotFound(
                m,
            ) && m@ == repo_path@),
        },
{
    proof {
        reveal_strlit("main");
        reveal_strlit("master");
    }
    assert("main"@ =~= main_branch());
    assert("master"@ =~= master_branch());
    if contains_dir(entries, "main") {
        return Ok(join_path(repo_path, "main"));
    }
    if contains_dir(entries, "master") {
        return Ok(join_path(repo_path, "master"));
    }
    let mut kids = child_dirs(repo_path, entries);
    if kids.len() > 0 {
        assert(kids@[0]@ == views(kids@)[0]);
        Ok(kids.swap_remove(0))
    } else {
        Err(RepoError::WorktreeNotFound(String::from_str(repo_path)))
    }
}

/// `main` wins over `master`, `master` is taken when there is no `main`, and
/// a repository whose only entries are `.git` has no worktree to switch into.
pub proof fn lemma_default_worktree_policy(repo: Seq<char>, entries: Seq<DirEntry>)
    ensures
        has_dir(entries, main_branch()) ==> default_worktree(repo, entries) == Some(
            path_join(repo, main_branch()),
        ),
        !has_dir(entries, main_branch()) && has_dir(entries, master_branch()) ==> default_worktree(
            repo,
            entries,
        ) == Some(path_join(repo, master_branch())),
        (forall|i: int| 0 <= i < entries.len() ==> (#[trigger] entries[i]).name@ == bare_dir_name())
            ==> default_worktree(repo, entries) is None,
{
    if forall|i: int| 0 <= i < entries.len() ==> (#[trigger] entries[i]).name@ == bare_dir_name() {
        assert(main_branch()[0] != bare_dir_name()[0]);
        assert(master_branch().len() != bare_dir_name().len());
        assert(!has_dir(entries, main_branch()));
        assert(!has_dir(entries, master_branch()));
        lemma_child_paths_exact(repo, entries);
        if child_paths(repo, entries).len() > 0 {
            assert(child_paths(repo, entries)[0] == child_paths(repo, entries)[0]);
            let i = choose|i: int|
                0 <= i < entries.len() && qualifies(#[trigger] entries[i]) && child_paths(repo, entries)[0]
                    == path_join(repo, entries[i].name@);
            assert(false);
        }
    }
}

/// The path of the worktree `name` of the repository at `repo_path`, given
/// whether it exists.
pub fn named_worktree(repo_path: &str, name: &str, present: bool) -> (r: Result<String, RepoError>)
    ensures
        match r {
            Ok(p) => present && p@ == path_join(repo_path@, name@),
            Err(e) => !present && (e matches RepoError::WorktreeNotFound(m) && m@ == name@),
        },
{
    if present {
        Ok(join_path(repo_path, name))
    } else {
        Err(RepoError::WorktreeNotFound(String::from_str(name)))
    }
}

pub open spec fn github() -> Seq<char> {
    seq!['g', 'i', 't', 'h', 'u', 'b', '.', 'c', 'o', 'm']
}

pub open spec fn gitlab() -> Seq<char> {
    seq!['g', 'i', 't', 'l', 'a', 'b', '.', 'c', 'o', 'm']
}

pub open spec fn bitbucket() -> Seq<char> {
    seq!['b', 'i', 't', 'b', 'u', 'c', 'k', 'e', 't', '.', 'o', 'r', 'g']
}

/// The host directories probed before any scan of the root.
pub open spec fn well_known_dirs(root: Seq<char>) -> Seq<Seq<char>> {
    seq![path_join(root, github()), path_join(root, gitlab()), path_join(root, bitbucket())]
}

/// `host/owner/name` for each host directory.
pub open spec fn repo_candidates(hosts: Seq<Seq<char>>, owner: Seq<char>, name: Seq<char>) -> Seq<Seq<char>> {
    hosts.map_values(|h: Seq<char>| path_join(path_join(h, owner), name))
}

/// What a repository search asks for next.
#[derive(Debug, Clone, Copy, PartialEq, Eq)]
pub enum SearchAction {
    /// Report whether the candidate with this index exists.
    Probe(usize),
    /// Read the root directory.
    ListRoot,
    /// The search is over.
    Finish,
}

/// Looking for `owner/name` under some host of the root: the well-known
/// hosts are probed first, then every host directory found in the root.
pub struct RepoSearch {
    pub root: String,
    pub owner: String,
    pub name: String,
    /// The paths tried, in order.
    pub candidates: Vec<String>,
    /// The candidate probed next, or the one found.
    pub next: usize,
    /// Whether the root has been read.
    pub scanned: bool,
    /// Whether the candidate at `next` exists.
    pub found: bool,
}

impl RepoSearch {
    /// A found repository is one of the candidates.
    pub open spec fn wf(&self) -> bool {
        self.found ==> self.next < self.candidates@.len()
    }

    pub open spec fn action(&self) -> SearchAction {
        if self.found {
            SearchAction::Finish
        } else if self.next < self.candidates@.len() {
            SearchAction::Probe(self.next)
        } else if !self.scanned {
            SearchAction::ListRoot
        } else {
            SearchAction::Finish
        }
    }

    /// A search that starts with the well-known hosts.
    pub fn new(root: String, owner: String, name: String) -> (r: RepoSearch)
        ensures
            r.root == root,
            r.owner == owner,
            r.name == name,
            views(r.candidates@) == repo_candidates(well_known_dirs(root@), owner@, name@),
            r.next == 0,
            !r.scanned,
            !r.found,
            r.wf(),
    {
        proof {
            reveal_strlit("github.com");
            reveal_strlit("gitlab.com");
            reveal_strlit("bitbucket.org");
        }
        assert("github.com"@ =~= github());
        assert("gitlab.com"@ =~= gitlab());
        assert("bitbucket.org"@ =~= bitbucket());
        let mut candidates: Vec<String> = Vec::new();
        let a = join_path(root.as_str(), "github.com");
        candidates.push(join_path(join_path(a.as_str(), owner.as_str()).as_str(), name.as_str()));
        let b = join_path(root.as_str(), "gitlab.com");
        candidates.push(join_path(join_path(b.as_str(), owner.as_str()).as_str(), name.as_str()));
        let c = join_path(root.as_str(), "bitbucket.org");
        candidates.push(join_path(join_path(c.as_str(), owner.as_str()).as_str(), name.as_str()));
        assert(views(candidates@) =~= repo_candidates(well_known_dirs(root@), owner@, name@));
        RepoSearch { root, owner, name, candidates, next: 0, scanned: false, found: false }
    }

    /// What the caller should do next.
    pub fn next_action(&self) -> (a: SearchAction)
        ensures
            a == self.action(),
    {
        if self.found {
            SearchAction::Finish
        } else if self.next < self.candidates.len() {
            SearchAction::Probe(self.next)
        } else if !self.scanned {
            SearchAction::ListRoot
        } else {
            SearchAction::Finish
        }
    }

    /// Reports whether the probed candidate exists: the first one that does
    /// is the answer. Outside a probe this changes nothing.
    pub fn on_probe(&mut self, present: bool)
        requires
            old(self).wf(),
        ensures
            final(self).wf(),
            old(self).action() is Probe ==> {
                &&& final(self).found == present
                &&& final(self).next == if present {
                    old(self).next
                } else {
                    (old(self).next + 1) as usize
                }
            },
            !(old(self).action() is Probe) ==> final(self).found == old(self).found && final(self).next
                == old(self).next,
            final(self).candidates == old(self).candidates,
            final(self).scanned == old(self).scanned,
            final(self).root == old(self).root,
            final(self).owner == old(self).owner,
            final(self).name == old(self).name,
    {
        if !self.found && self.next < self.candidates.len() {
            if present {
                self.found = true;
            } else {
                self.next = self.next + 1;
            }
        }
    }

    /// Hands over the root's entries once the well-known hosts have all been
    /// probed in vain: each directory in it not named `.git` is taken as a
    /// host and `host/owner/name` is queued. A missing root adds nothing.
    /// Outside that step this changes nothing.
    pub fn on_root_listing(&mut self, listing: &Listing)
        requires
            old(self).wf(),
        ensures
            final(self).wf(),
            old(self).action() is ListRoot ==> {
                &&& final(self).scanned
                &&& views(final(self).candidates@) == views(old(self).candidates@) + match listing {
                    Listing::Missing => Seq::empty(),
                    Listing::Entries(es) => repo_candidates(
                        child_paths(old(self).root@, es@),
                        old(self).owner@,
                        old(self).name@,
                    ),
                }
            },
            !(old(self).action() is ListRoot) ==> final(self).scanned == old(self).scanned
                && final(self).candidates == old(self).candidates,
            final(self).found == old(self).found,
            final(self).next == old(self).next,
            final(self).root == old(self).root,
            final(self).owner == old(self).owner,
            final(self).name == old(self).name,
    {
        if self.found || self.next < self.candidates.len() || self.scanned {
            return;
        }
        self.scanned = true;
        match listing {
            Listing::Missing => {
                assert(views(self.candidates@) =~= views(old(self).candidates@) + Seq::<Seq<char>>::empty());
            },
            Listing::Entries(es) => {
                let hosts = child_dirs(self.root.as_str(), es);
                let ghost start = views(self.candidates@);
                let ghost all = repo_candidates(views(hosts@), self.owner@, self.name@);
                let mut i: usize = 0;
                while i < hosts.len()
                    invariant
                        i <= hosts@.len(),
                        all == repo_candidates(views(hosts@), self.owner@, self.name@),
                        views(self.candidates@) == start + all.take(i as int),
                        self.found == old(self).found,
                        self.next == old(self).next,
                        self.scanned,
                        self.root == old(self).root,
                        self.owner == old(self).owner,
                        self.name == old(self).name,
                    decreases hosts@.len() - i,
                {
                    let p = join_path(join_path(hosts[i].as_str(), self.owner.as_str()).as_str(), self.name.as_str());
                    let ghost before = self.candidates@;
                    self.candidates.push(p);
                    assert(all.take(i + 1) =~= all.take(i as int).push(all[i as int]));
                    assert(views(self.candidates@) =~= views(before).push(p@));
                    i = i + 1;
                }
                assert(all.take(hosts@.len() as int) =~= all);
            },
        }
    }

    /// The repository found, or `RepositoryNotFound` once every candidate has
    /// been tried; `None` while the search goes on.
    pub fn outcome(&self) -> (r: Option<Result<String, RepoError>>)
        requires
            self.wf(),
        ensures
            self.found ==> r == Some(
                Ok::<String, RepoError>(self.candidates@[self.next as int]),
            ),
            !self.found && self.action() is Finish ==> (r matches Some(Err(e)) && (e matches RepoError::RepositoryNotFound(
                m,
            ) && m@ == self.owner@ + seq!['/'] + self.name@)),
            !(self.action() is Finish) ==> r is None,
    {
        if self.found && self.next < self.candidates.len() {
            Some(Ok(self.candidates[self.next].clone()))
        } else if self.found || self.next < self.candidates.len() || !self.scanned {
            None
        } else {
            proof {
                reveal_strlit("/");
            }
            let mut m = self.owner.clone();
            m.append("/");
            m.append(self.name.as_str());
            Some(Err(RepoError::RepositoryNotFound(m)))
        }
    }
}

} // verus!
