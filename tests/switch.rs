use neoghq::commands::repo::switch::{execute_with_config, parse_repo_name};
use neoghq::config::Config;
use neoghq::error::RepoError;
use neoghq::layout::join_path;
use neoghq::locate::{find_default_worktree, named_worktree, RepoSearch, SearchAction};
use neoghq::walker::{DirEntry, Listing};

fn dir(name: &str) -> DirEntry {
    DirEntry { name: name.to_string(), is_dir: true }
}

fn file(name: &str) -> DirEntry {
    DirEntry { name: name.to_string(), is_dir: false }
}

fn search(mut s: RepoSearch, existing: &[&str], root: Option<Vec<DirEntry>>) -> Result<String, RepoError> {
    loop {
        match s.next_action() {
            SearchAction::Probe(i) => {
                let present = existing.contains(&s.candidates[i].as_str());
                s.on_probe(present);
            }
            SearchAction::ListRoot => {
                let listing = match &root {
                    Some(es) => Listing::Entries(es.clone()),
                    None => Listing::Missing,
                };
                s.on_root_listing(&listing);
            }
            SearchAction::Finish => return s.outcome().unwrap(),
        }
    }
}

#[test]
fn switch_test_parse_repo_name_valid() {
    let result = parse_repo_name("user/repo");
    assert!(result.is_ok());
    let (owner, repo) = result.unwrap();
    assert_eq!(owner, "user");
    assert_eq!(repo, "repo");
}

#[test]
fn switch_test_parse_repo_name_invalid() {
    assert!(parse_repo_name("invalid-format").is_err());
    assert!(parse_repo_name("too/many/parts").is_err());
    assert!(parse_repo_name("/missing-owner").is_err());
    assert!(parse_repo_name("missing-repo/").is_err());
}

#[test]
fn test_find_default_worktree_prioritizes_main() {
    let es = vec![dir("feature-a"), dir("feature-b"), dir("main")];
    assert_eq!(find_default_worktree("/r/test-repo", &es).unwrap(), "/r/test-repo/main");
}

#[test]
fn test_find_default_worktree_fallback_to_master() {
    let es = vec![dir("feature-a"), dir("master"), dir("feature-b")];
    assert_eq!(find_default_worktree("/r/test-repo", &es).unwrap(), "/r/test-repo/master");
}

#[test]
fn test_find_default_worktree_no_worktrees() {
    let es = vec![dir(".git")];
    assert_eq!(
        find_default_worktree("/r/empty-repo", &es),
        Err(RepoError::WorktreeNotFound("/r/empty-repo".to_string()))
    );
}

#[test]
fn default_worktree_main_beats_master() {
    let es = vec![dir("master"), dir("main")];
    assert_eq!(find_default_worktree("/r", &es).unwrap(), "/r/main");
}

#[test]
fn default_worktree_first_other_directory() {
    let es = vec![file("main"), dir(".git"), dir("dev"), dir("feature")];
    assert_eq!(find_default_worktree("/r", &es).unwrap(), "/r/dev");
}

#[test]
fn test_find_repository_path() {
    let plan = execute_with_config("user/test-repo".to_string(), None, Config { root: "/t".to_string() }).unwrap();
    let found = search(plan.search, &["/t/github.com/user/test-repo"], None);
    assert_eq!(found.unwrap(), "/t/github.com/user/test-repo");

    let plan = execute_with_config("user/nonexistent".to_string(), None, Config { root: "/t".to_string() }).unwrap();
    let found = search(plan.search, &["/t/github.com/user/test-repo"], Some(vec![dir("github.com")]));
    assert_eq!(found, Err(RepoError::RepositoryNotFound("user/nonexistent".to_string())));
}

#[test]
fn search_scans_other_hosts() {
    let s = RepoSearch::new("/t".to_string(), "me".to_string(), "tool".to_string());
    let found = search(
        s,
        &["/t/git.example.org/me/tool"],
        Some(vec![file("readme"), dir("git.example.org")]),
    );
    assert_eq!(found.unwrap(), "/t/git.example.org/me/tool");
}

#[test]
fn search_prefers_well_known_hosts() {
    let s = RepoSearch::new("/t".to_string(), "me".to_string(), "tool".to_string());
    let found = search(s, &["/t/bitbucket.org/me/tool", "/t/gitlab.com/me/tool"], None);
    assert_eq!(found.unwrap(), "/t/gitlab.com/me/tool");
}

#[test]
fn test_execute_repo_switch_invalid_repo_format() {
    let r = execute_with_config("invalid-format".to_string(), None, Config { root: "/t".to_string() });
    assert!(r.is_err());
}

#[test]
fn named_worktree_must_exist() {
    assert_eq!(named_worktree("/r/x", "dev", true).unwrap(), "/r/x/dev");
    assert_eq!(
        named_worktree("/r/x", "nonexistent", false),
        Err(RepoError::WorktreeNotFound("nonexistent".to_string()))
    );
}

/// Runs a whole switch against a simulated tree: `dirs` maps each existing
/// directory to its entries.
fn switch(repo: &str, worktree: Option<&str>, dirs: &[(String, Vec<DirEntry>)]) -> Result<String, RepoError> {
    let plan = execute_with_config(repo.to_string(), worktree.map(String::from), Config { root: "/t".to_string() })?;
    let existing: Vec<&str> = dirs.iter().map(|(p, _)| p.as_str()).collect();
    let root = dirs.iter().find(|(p, _)| p == "/t").map(|(_, es)| es.clone());
    let repo_path = search(plan.search, &existing, root)?;
    match plan.worktree {
        Some(name) => {
            let present = existing.contains(&join_path(&repo_path, &name).as_str());
            named_worktree(&repo_path, &name, present)
        }
        None => {
            let entries = dirs.iter().find(|(p, _)| *p == repo_path).map(|(_, es)| es.clone()).unwrap_or_default();
            find_default_worktree(&repo_path, &entries)
        }
    }
}

fn test_repo(worktrees: &[&str]) -> Vec<(String, Vec<DirEntry>)> {
    let mut v = vec![
        ("/t".to_string(), vec![dir("github.com")]),
        ("/t/github.com".to_string(), vec![dir("user")]),
        ("/t/github.com/user".to_string(), vec![dir("test-repo")]),
        ("/t/github.com/user/test-repo".to_string(), worktrees.iter().map(|w| dir(w)).collect()),
    ];
    for w in worktrees {
        v.push((format!("/t/github.com/user/test-repo/{w}"), Vec::new()));
    }
    v
}

#[test]
fn test_execute_repo_switch_success() {
    let r = switch("user/test-repo", None, &test_repo(&["main"]));
    assert_eq!(r.unwrap(), "/t/github.com/user/test-repo/main");
}

#[test]
fn test_execute_repo_switch_repository_not_found() {
    let r = switch("user/nonexistent-repo", None, &[("/t".to_string(), Vec::new())]);
    assert!(r.is_err());
}

#[test]
fn test_execute_repo_switch_with_specific_worktree() {
    let r = switch("user/test-repo", Some("dev"), &test_repo(&["main", "dev", "feature"]));
    assert_eq!(r.unwrap(), "/t/github.com/user/test-repo/dev");
}

#[test]
fn test_execute_repo_switch_with_nonexistent_worktree() {
    let r = switch("user/test-repo", Some("nonexistent"), &test_repo(&["main"]));
    assert!(r.is_err());
}

#[test]
fn test_worktree_option_edge_cases() {
    let t = test_repo(&["main", "dev", "feature-123"]);
    for worktree in ["main", "dev", "feature-123"] {
        let r = switch("user/test-repo", Some(worktree), &t);
        assert!(r.is_ok(), "Failed to switch to worktree: {worktree}");
    }
}

#[test]
fn test_worktree_option_precedence_over_default() {
    let t = test_repo(&["main", "dev"]);
    assert_eq!(switch("user/test-repo", Some("dev"), &t).unwrap(), "/t/github.com/user/test-repo/dev");
    assert_eq!(switch("user/test-repo", None, &t).unwrap(), "/t/github.com/user/test-repo/main");
}
