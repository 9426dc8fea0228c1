//! The `worktree switch` command.
use vstd::prelude::*;
use crate::commands::worktree::{notice_lines, pending_notice};
use crate::walker::views;

verus! {

/// The lines to print: switching by branch alone is not available yet.
pub fn execute(branch: String) -> (r: Vec<String>)
    ensures
        views(r@) == notice_lines("Switching to worktree for branch: "@, branch@, "switch"@),
{
    pending_notice("Switching to worktree for branch: ", branch, "switch")
}

} // verus!
