//! Walking the `root/host/owner/repo/worktree` hierarchy.
//!
//! The walk is a session over an explicit stack: the caller reads the
//! directory that `next_dir` names and hands its entries to `visit`, which
//! returns the paths found at the listing level and queues the directories to
//! descend into. Paths come out depth-first, in the order the entries were
//! given. Entries that are not directories, and entries named `.git`, are
//! skipped at every level.
use vstd::prelude::*;
use crate::error::RepoError;
use crate::layout::{bare_dir_name, join_path, path_join};
use crate::text::same_text;

verus! {

/// One entry of a directory.
#[derive(Debug, Clone)]
pub struct DirEntry {
    pub name: String,
    pub is_dir: bool,
}

/// What reading a directory gave.
#[derive(Debug)]
pub enum Listing {
    /// The directory does not exist.
    Missing,
    /// Its entries, in the order the filesystem returned them.
    Entries(Vec<DirEntry>),
}

/// The characters of each string.
pub open spec fn views(v: Seq<String>) -> Seq<Seq<char>> {
    v.map_values(|s: String| s@)
}

/// An entry that the walk keeps: a directory not named `.git`.
pub open spec fn qualifies(e: DirEntry) -> bool {
    e.is_dir && e.name@ != bare_dir_name()
}

/// The paths, under `dir`, of the entries that qualify, in order.
pub open spec fn child_paths(dir: Seq<char>, entries: Seq<DirEntry>) -> Seq<Seq<char>>
    decreases entries.len(),
{
    if entries.len() == 0 {
        Seq::empty()
    } else {
        let rest = child_paths(dir, entries.drop_last());
        if qualifies(entries.last()) {
            rest.push(path_join(dir, entries.last().name@))
        } else {
            rest
        }
    }
}

/// Whether `e` is a directory not named `.git`.
pub fn is_listed(e: &DirEntry) -> (r: bool)
    ensures
        r == qualifies(*e),
{
    proof {
        reveal_strlit(".git");
    }
    assert(".git"@ =~= bare_dir_name());
    e.is_dir && !same_text(e.name.as_str(), ".git")
}

/// The paths under `dir` of the entries that are directories not named `.git`.
pub fn child_dirs(dir: &str, entries: &Vec<DirEntry>) -> (r: Vec<String>)
    ensures
        views(r@) == child_paths(dir@, entries@),
{
    let mut r: Vec<String> = Vec::new();
    let mut i: usize = 0;
    while i < entries.len()
        invariant
            i <= entries@.len(),
            views(r@) == child_paths(dir@, entries@.take(i as int)),
        decreases entries@.len() - i,
    {
        proof {
            assert(entries@.take(i + 1).drop_last() =~= entries@.take(i as int));
            assert(entries@.take(i + 1).last() == entries@[i as int]);
        }
        if is_listed(&entries[i]) {
            let p = join_path(dir, entries[i].name.as_str());
            r.push(p);
            assert(views(r@) =~= child_paths(dir@, entries@.take(i as int)).push(p@));
        }
        i = i + 1;
    }
    assert(entries@.take(entries@.len() as int) =~= entries@);
    r
}

/// Every path the walk takes from a directory's entries is the path of a
/// directory entry not named `.git`, and every such entry gives one: entries
/// that are not directories, and `.git`, are skipped.
pub proof fn lemma_child_paths_exact(dir: Seq<char>, entries: Seq<DirEntry>)
    ensures
        forall|k: int|
            0 <= k < child_paths(dir, entries).len() ==> exists|i: int|
                0 <= i < entries.len() && qualifies(#[trigger] entries[i]) && #[trigger] child_paths(
                    dir,
                    entries,
                )[k] == path_join(dir, entries[i].name@),
        forall|i: int|
            0 <= i < entries.len() && qualifies(#[trigger] entries[i]) ==> child_paths(dir, entries).contains(
                path_join(dir, entries[i].name@),
            ),
    decreases entries.len(),
{
    if entries.len() > 0 {
        let init = entries.drop_last();
        lemma_child_paths_exact(dir, init);
        let c = child_paths(dir, entries);
        let ci = child_paths(dir, init);
        assert forall|k: int| 0 <= k < c.len() implies exists|i: int|
            0 <= i < entries.len() && qualifies(#[trigger] entries[i]) && #[trigger] c[k] == path_join(
                dir,
                entries[i].name@,
            ) by {
            if k < ci.len() {
                let i = choose|i: int|
                    0 <= i < init.len() && qualifies(#[trigger] init[i]) && ci[k] == path_join(dir, init[i].name@);
                assert(entries[i] == init[i]);
            } else {
                assert(entries[entries.len() - 1] == entries.last());
            }
        }
        assert forall|i: int| 0 <= i < entries.len() && qualifies(#[trigger] entries[i]) implies c.contains(
            path_join(dir, entries[i].name@),
        ) by {
            if i < entries.len() - 1 {
                assert(init[i] == entries[i]);
                let j = choose|j: int| 0 <= j < ci.len() && ci[j] == path_join(dir, init[i].name@);
                assert(c[j] == ci[j]);
            } else {
                assert(c[c.len() - 1] == path_join(dir, entries[i].name@));
            }
        }
    }
}

/// Whether the directory at `depth` (the root being at depth 0) holds the
/// paths the walk reports, when those sit at depth `emit_depth`.
pub open spec fn at_listing_level(depth: nat, emit_depth: nat) -> bool {
    depth + 1 >= emit_depth
}

/// `w` has not started: it reads `root` first and reports what it finds at
/// `emit_depth`.
pub open spec fn fresh_walk(w: TreeWalk, root: String, emit_depth: usize) -> bool {
    &&& w.pending@.len() == 1
    &&& w.pending@[0].0 == root
    &&& w.pending@[0].1 == 0
    &&& w.emit_depth == emit_depth
}

/// A depth-first walk down to a fixed depth.
pub struct TreeWalk {
    /// Directories still to read, with their depth; the last is read next.
    pub pending: Vec<(String, usize)>,
    /// The depth of the paths reported: 3 for repositories, 4 for worktrees.
    pub emit_depth: usize,
}

impl TreeWalk {
    /// A walk of `root` that reports the directories found at `emit_depth`.
    pub fn new(root: String, emit_depth: usize) -> (r: TreeWalk)
        ensures
            fresh_walk(r, root, emit_depth),
    {
        let mut pending: Vec<(String, usize)> = Vec::new();
        pending.push((root, 0));
        TreeWalk { pending, emit_depth }
    }

    /// The directory to read next, if the walk is not over.
    pub fn next_dir(&self) -> (r: Option<String>)
        ensures
            match r {
                Some(p) => self.pending@.len() > 0 && p == self.pending@.last().0,
                None => self.pending@.len() == 0,
            },
    {
        let n = self.pending.len();
        if n == 0 {
            None
        } else {
            Some(self.pending[n - 1].0.clone())
        }
    }

    /// Hands over what reading the directory named by `next_dir` gave. At the
    /// listing level it returns the paths of the qualifying entries; above it,
    /// it queues them so that the first entry is read first. A missing root is
    /// an empty walk; a missing directory below it is an error.
    pub fn visit(&mut self, listing: Listing) -> (r: Result<Vec<String>, RepoError>)
        ensures
            final(self).emit_depth == old(self).emit_depth,
            old(self).pending@.len() == 0 ==> (r matches Ok(v) && v@.len() == 0) && final(self).pending@
                == old(self).pending@,
            old(self).pending@.len() > 0 ==> {
                let dir = old(self).pending@.last().0;
                let depth = old(self).pending@.last().1;
                let rest = old(self).pending@.drop_last();
                match listing {
                    Listing::Missing => {
                        &&& final(self).pending@ == rest
                        &&& depth == 0 ==> (r matches Ok(v) && v@.len() == 0)
                        &&& depth > 0 ==> (r matches Err(e) && e == RepoError::FilesystemError(dir))
                    },
                    Listing::Entries(es) => {
                        let kids = child_paths(dir@, es@);
                        if at_listing_level(depth as nat, old(self).emit_depth as nat) {
                            &&& r matches Ok(v) && views(v@) == kids
                            &&& final(self).pending@ == rest
                        } else {
                            &&& r matches Ok(v) && v@.len() == 0
                            &&& final(self).pending@.len() == rest.len() + kids.len()
                            &&& final(self).pending@.take(rest.len() as int) == rest
                            &&& forall|k: int|
                                0 <= k < kids.len() ==> (#[trigger] final(self).pending@[rest.len() + k]).0@
                                    == kids[kids.len() - 1 - k] && final(self).pending@[rest.len() + k].1
                                    == depth + 1
                        }
                    },
                }
            },
    {
        let top = self.pending.pop();
        match top {
            None => Ok(Vec::new()),
            Some((dir, depth)) => match listing {
                Listing::Missing => {
                    if depth == 0 {
                        Ok(Vec::new())
                    } else {
                        Err(RepoError::FilesystemError(dir))
                    }
                },
                Listing::Entries(es) => {
                    let mut kids = child_dirs(dir.as_str(), &es);
                    if depth >= self.emit_depth || self.emit_depth - depth == 1 {
                        return Ok(kids);
                    }
                    let ghost rest = self.pending@;
                    let ghost all = views(kids@);
                    let ghost n = kids@.len();
                    while kids.len() > 0
                        invariant
                            kids@.len() <= n,
                            n == all.len(),
                            views(kids@) == all.take(kids@.len() as int),
                            self.emit_depth == old(self).emit_depth,
                            self.pending@.len() == rest.len() + (n - kids@.len()),
                            self.pending@.take(rest.len() as int) == rest,
                            depth + 1 < self.emit_depth,
                            forall|k: int|
                                0 <= k < n - kids@.len() ==> (#[trigger] self.pending@[rest.len() + k]).0@
                                    == all[n - 1 - k] && self.pending@[rest.len() + k].1 == depth + 1,
                        decreases kids@.len(),
                    {
                        let ghost before = self.pending@;
                        let ghost len = kids@.len();
                        let ghost old_kids = kids@;
                        let p = kids.pop().unwrap();
                        assert(old_kids =~= kids@.push(p));
                        assert(views(old_kids) =~= views(kids@).push(p@));
                        assert(all.take(len as int)[len - 1] == all[len - 1]);
                        assert(p@ == all[len - 1]);
                        assert(views(kids@) =~= all.take(kids@.len() as int));
                        self.pending.push((p, depth + 1));
                        assert(self.pending@.take(rest.len() as int) =~= before.take(rest.len() as int));
                    }
                    Ok(Vec::new())
                },
            },
        }
    }
}

} // verus!
