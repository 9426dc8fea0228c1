//! Listing every worktree of every repository.
use vstd::prelude::*;
use crate::config::Config;
use crate::walker::{fresh_walk, TreeWalk};

verus! {

/// The depth of a worktree below the root: `host/owner/repo/worktree`.
pub const WORKTREE_DEPTH: usize = 4;

/// A walk that reports every worktree directory under the root.
pub fn execute(config: Config) -> (r: TreeWalk)
    ensures
        fresh_walk(r, config.root, WORKTREE_DEPTH),
{
    TreeWalk::new(config.root, WORKTREE_DEPTH)
}

} // verus!
