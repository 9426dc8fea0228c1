//! Where a repository and its worktrees live: `root/host/owner/name/.git` for
//! the bare store, `root/host/owner/name/<branch>` for each worktree.
use vstd::prelude::*;
use crate::error::RepoError;
use crate::text::same_text;

verus! {

/// `part` appended to `base` as one more path component. An absolute `part`
/// replaces `base`; a separator is added only where `base` is non-empty and
/// does not already end in one.
pub open spec fn path_join(base: Seq<char>, part: Seq<char>) -> Seq<char> {
    if part.len() > 0 && part[0] == '/' {
        part
    } else if base.len() == 0 || base.last() == '/' {
        base + part
    } else {
        base + seq!['/'] + part
    }
}

pub open spec fn bare_dir_name() -> Seq<char> {
    seq!['.', 'g', 'i', 't']
}

/// `root/host/owner/name`.
pub open spec fn repo_dir_of(root: Seq<char>, host: Seq<char>, owner: Seq<char>, name: Seq<char>) -> Seq<
    char,
> {
    path_join(path_join(path_join(root, host), owner), name)
}

/// Appends one component to a path.
pub fn join_path(base: &str, part: &str) -> (r: String)
    ensures
        r@ == path_join(base@, part@),
{
    proof {
        reveal_strlit("/");
    }
    let pl = part.unicode_len();
    if pl > 0 && part.get_char(0) == '/' {
        return String::from_str(part);
    }
    let bl = base.unicode_len();
    let mut r = String::from_str(base);
    if bl > 0 && base.get_char(bl - 1) != '/' {
        r.append("/");
    }
    r.append(part);
    r
}

/// `root/host/owner/repo/branch`.
pub fn resolve_repository_path(root: &str, host: &str, owner: &str, repo: &str, branch: &str) -> (r:
    String)
    ensures
        r@ == path_join(repo_dir_of(root@, host@, owner@, repo@), branch@),
{
    let a = join_path(root, host);
    let b = join_path(a.as_str(), owner);
    let c = join_path(b.as_str(), repo);
    join_path(c.as_str(), branch)
}

/// For a root that does not end in `/` and components that are non-empty and
/// hold no `/`, resolving is plain concatenation with `/` between the parts.
pub proof fn lemma_resolve_concatenates(
    root: Seq<char>,
    host: Seq<char>,
    owner: Seq<char>,
    name: Seq<char>,
    branch: Seq<char>,
)
    requires
        root.len() > 0,
        root.last() != '/',
        host.len() > 0 && !host.contains('/'),
        owner.len() > 0 && !owner.contains('/'),
        name.len() > 0 && !name.contains('/'),
        branch.len() > 0 && !branch.contains('/'),
    ensures
        path_join(repo_dir_of(root, host, owner, name), branch) == root + seq!['/'] + host + seq!['/']
            + owner + seq!['/'] + name + seq!['/'] + branch,
{
    assert(host[0] != '/');
    assert(owner[0] != '/');
    assert(name[0] != '/');
    assert(branch[0] != '/');
    let a = root + seq!['/'] + host;
    assert(a.last() == host.last());
    let b = a + seq!['/'] + owner;
    assert(b.last() == owner.last());
    let c = b + seq!['/'] + name;
    assert(c.last() == name.last());
}

/// The paths of one repository and one of its worktrees.
pub struct RepositoryLayout {
    /// `root/host/owner/name`
    pub repo_dir: String,
    /// `repo_dir/.git`, the bare store
    pub bare_path: String,
    /// `repo_dir/<branch>`
    pub worktree_path: String,
}

impl RepositoryLayout {
    /// The layout of `host/owner/name` under `root`, with the worktree of
    /// `branch`. A branch named `.git` would collide with the bare store and is
    /// rejected.
    pub fn new(root: &str, host: &str, owner: &str, name: &str, branch: &str) -> (r: Result<
        RepositoryLayout,
        RepoError,
    >)
        ensures
            branch@ == bare_dir_name() <==> r is Err,
            r matches Ok(l) ==> {
                &&& l.repo_dir@ == repo_dir_of(root@, host@, owner@, name@)
                &&& l.bare_path@ == path_join(l.repo_dir@, bare_dir_name())
                &&& l.worktree_path@ == path_join(l.repo_dir@, branch@)
            },
            r matches Err(e) ==> (e matches RepoError::InvalidFormat(m) && m@ == branch@),
    {
        proof {
            reveal_strlit(".git");
        }
        assert(".git"@ =~= bare_dir_name());
        if same_text(branch, ".git") {
            return Err(RepoError::InvalidFormat(String::from_str(branch)));
        }
        let a = join_path(root, host);
        let b = join_path(a.as_str(), owner);
        let repo_dir = join_path(b.as_str(), name);
        let bare_path = join_path(repo_dir.as_str(), ".git");
        let worktree_path = join_path(repo_dir.as_str(), branch);
        Ok(RepositoryLayout { repo_dir, bare_path, worktree_path })
    }
}

} // verus!
