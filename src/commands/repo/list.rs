//! Listing every repository, or every worktree.
use vstd::prelude::*;
use crate::config::Config;
use crate::commands::list::WORKTREE_DEPTH;
use crate::walker::{fresh_walk, TreeWalk};

verus! {

/// The depth of a repository below the root: `host/owner/repo`.
pub const REPOSITORY_DEPTH: usize = 3;

/// The depth of the paths listed.
pub open spec fn listing_depth(show_worktrees: bool) -> usize {
    if show_worktrees {
        WORKTREE_DEPTH
    } else {
        REPOSITORY_DEPTH
    }
}

/// A walk that reports every repository directory under the root, or every
/// worktree directory when `show_worktrees` holds.
pub fn execute_with_config(show_worktrees: bool, config: Config) -> (r: TreeWalk)
    ensures
        fresh_walk(r, config.root, listing_depth(show_worktrees)),
{
    let depth = if show_worktrees {
        WORKTREE_DEPTH
    } else {
        REPOSITORY_DEPTH
    };
    TreeWalk::new(config.root, depth)
}

} // verus!
