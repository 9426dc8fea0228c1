//! The `worktree list` command.
use vstd::prelude::*;
use crate::commands::worktree::{notice_lines, pending_notice};
use crate::walker::views;

verus! {

/// The lines to print: listing worktrees on their own is not available yet.
pub fn execute() -> (r: Vec<String>)
    ensures
        views(r@) == notice_lines("Listing all worktrees:"@, Seq::empty(), "list"@),
{
    proof {
        reveal_strlit("");
    }
    let r = pending_notice("Listing all worktrees:", String::new(), "list");
    assert(""@ =~= Seq::<char>::empty());
    r
}

} // verus!
