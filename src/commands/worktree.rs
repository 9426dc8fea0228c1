//! Worktree commands.
use vstd::prelude::*;
use crate::walker::views;

pub mod list;
pub mod switch;

verus! {

/// `headline` followed by `subject`, then a note that `command` is not
/// available yet.
pub open spec fn notice_lines(headline: Seq<char>, subject: Seq<char>, command: Seq<char>) -> Seq<Seq<char>> {
    seq![headline + subject, "worktree "@ + command + " functionality not yet implemented"@]
}

/// Two lines: `headline` followed by `subject`, then a note that the `command`
/// is not available yet.
pub fn pending_notice(headline: &str, subject: String, command: &str) -> (r: Vec<String>)
    ensures
        views(r@) == notice_lines(headline@, subject@, command@),
{
    let mut first = String::from_str(headline);
    first.append(subject.as_str());
    let mut second = String::from_str("worktree ");
    second.append(command);
    second.append(" functionality not yet implemented");
    let mut r: Vec<String> = Vec::new();
    r.push(first);
    r.push(second);
    assert(views(r@) =~= notice_lines(headline@, subject@, command@));
    r
}

} // verus!
