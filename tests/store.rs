use neoghq::commands::get;
use neoghq::commands::repo::create::execute_with_config;
use neoghq::config::Config;
use neoghq::error::RepoError;
use neoghq::layout::RepositoryLayout;
use neoghq::store::{worktree_base, Action, BaseRef, StoreSession, Target};

struct FakeDisk {
    bare: bool,
    worktree: bool,
    add_failures_left: usize,
    clone_fails: bool,
    bare_removals: usize,
    log: Vec<Action>,
}

fn disk(bare: bool, worktree: bool) -> FakeDisk {
    FakeDisk { bare, worktree, add_failures_left: 0, clone_fails: false, bare_removals: 0, log: Vec::new() }
}

fn drive(s: &mut StoreSession, d: &mut FakeDisk) {
    for _ in 0..32 {
        let a = s.next_action();
        d.log.push(a);
        match a {
            Action::Probe(Target::Bare) => s.on_probe(d.bare),
            Action::Probe(Target::Worktree) => s.on_probe(d.worktree),
            Action::CloneBare => {
                if d.clone_fails {
                    s.on_result(Err("repository not found".to_string()));
                } else {
                    d.bare = true;
                    s.on_result(Ok(()));
                }
            }
            Action::InitBare => {
                d.bare = true;
                s.on_result(Ok(()));
            }
            Action::AddWorktree => {
                if d.add_failures_left > 0 {
                    d.add_failures_left -= 1;
                    s.on_result(Err("corrupt store".to_string()));
                } else {
                    d.worktree = true;
                    s.on_result(Ok(()));
                }
            }
            Action::Remove(Target::Bare) => {
                d.bare = false;
                d.bare_removals += 1;
                s.on_result(Ok(()));
            }
            Action::Remove(Target::Worktree) => {
                d.worktree = false;
                s.on_result(Ok(()));
            }
            Action::Finish => return,
        }
    }
    panic!("session did not finish");
}

fn config() -> Config {
    Config { root: "/tmp/neoghq".to_string() }
}

#[test]
fn test_execute_repo_create_user_repo_format_paths() {
    let s = execute_with_config("user/test-repo".to_string(), None, config()).unwrap();
    assert_eq!(s.layout.repo_dir, "/tmp/neoghq/github.com/user/test-repo");
    assert_eq!(s.layout.bare_path, "/tmp/neoghq/github.com/user/test-repo/.git");
    assert_eq!(s.layout.worktree_path, "/tmp/neoghq/github.com/user/test-repo/main");
    assert_eq!(s.branch, "main");
    assert_eq!(s.source, None);
    assert_eq!(s.next_action(), Action::Probe(Target::Bare));
}

#[test]
fn test_execute_repo_create_with_custom_worktree() {
    let s = execute_with_config("user/custom-worktree-test".to_string(), Some("dev".to_string()), config()).unwrap();
    assert_eq!(s.layout.worktree_path, "/tmp/neoghq/github.com/user/custom-worktree-test/dev");
}

#[test]
fn test_execute_repo_create_success() {
    let s = execute_with_config("https://github.com/user/new-repo".to_string(), None, config()).unwrap();
    assert_eq!(s.layout.repo_dir, "/tmp/neoghq/github.com/user/new-repo");
    assert_eq!(s.source, None);
}

#[test]
fn test_execute_repo_create_invalid_url() {
    let r = execute_with_config("invalid-url".to_string(), None, config());
    assert_eq!(r.err(), Some(RepoError::InvalidFormat("invalid-url".to_string())));
}

#[test]
fn test_execute_public_function() {
    let s = get::execute(config(), "https://github.com/octocat/Hello-World.git".to_string(), None).unwrap();
    assert_eq!(s.layout.repo_dir, "/tmp/neoghq/github.com/octocat/Hello-World");
    assert_eq!(s.layout.worktree_path, "/tmp/neoghq/github.com/octocat/Hello-World/main");
    assert_eq!(s.source, Some("https://github.com/octocat/Hello-World.git".to_string()));
    assert!(get::execute(config(), "user/repo".to_string(), None).is_err());
}

#[test]
fn fresh_create_makes_both() {
    let mut s = execute_with_config("user/repo".to_string(), None, config()).unwrap();
    let mut d = disk(false, false);
    drive(&mut s, &mut d);
    assert_eq!(s.into_outcome(), Some(Ok(())));
    assert!(d.bare && d.worktree);
    assert!(d.log.contains(&Action::InitBare));
    assert!(!d.log.contains(&Action::CloneBare));
}

#[test]
fn test_execute_when_repository_already_exists() {
    let mut d = disk(false, false);
    let mut first = get::execute(config(), "https://github.com/u/r".to_string(), None).unwrap();
    drive(&mut first, &mut d);
    assert_eq!(first.into_outcome(), Some(Ok(())));
    assert!(d.bare && d.worktree);
    d.log.clear();
    let mut second = get::execute(config(), "https://github.com/u/r".to_string(), None).unwrap();
    drive(&mut second, &mut d);
    assert_eq!(second.into_outcome(), Some(Ok(())));
    assert!(d.bare && d.worktree);
    assert_eq!(
        d.log,
        vec![Action::Probe(Target::Bare), Action::Probe(Target::Worktree), Action::Finish]
    );
}

#[test]
fn test_execute_repo_create_existing_repo() {
    let mut s = execute_with_config("https://github.com/user/existing-repo".to_string(), None, config()).unwrap();
    let mut d = disk(true, false);
    drive(&mut s, &mut d);
    assert_eq!(s.into_outcome(), Some(Ok(())));
    assert!(!d.log.contains(&Action::InitBare));
}

#[test]
fn corrupt_store_is_recreated_once() {
    let mut s = execute_with_config("user/repo".to_string(), None, config()).unwrap();
    let mut d = disk(true, false);
    d.add_failures_left = 1;
    drive(&mut s, &mut d);
    assert_eq!(s.into_outcome(), Some(Ok(())));
    assert_eq!(d.bare_removals, 1);
    assert!(d.bare && d.worktree);
}

#[test]
fn repeated_failure_is_fatal_after_one_cycle() {
    let mut s = execute_with_config("user/repo".to_string(), None, config()).unwrap();
    let mut d = disk(true, false);
    d.add_failures_left = 100;
    drive(&mut s, &mut d);
    assert_eq!(
        s.into_outcome(),
        Some(Err(RepoError::InvalidRepoState("corrupt store".to_string())))
    );
    assert_eq!(d.bare_removals, 1);
    assert_eq!(d.add_failures_left, 98);
}

#[test]
fn test_execute_get_command_clone_error() {
    let mut s = get::execute(config(), "https://github.com/user/repo".to_string(), None).unwrap();
    let mut d = disk(false, false);
    d.clone_fails = true;
    drive(&mut s, &mut d);
    assert_eq!(
        s.into_outcome(),
        Some(Err(RepoError::CloneFailure("repository not found".to_string())))
    );
}

#[test]
fn stale_worktree_directory_is_removed_during_recovery() {
    let layout = RepositoryLayout::new("/r", "h", "o", "n", "main").unwrap();
    let mut s = StoreSession::new(layout, "main".to_string(), None);
    s.on_probe(true);
    s.on_probe(false);
    s.on_result(Err("bad".to_string()));
    assert_eq!(s.next_action(), Action::Probe(Target::Bare));
    s.on_probe(true);
    assert_eq!(s.next_action(), Action::Remove(Target::Bare));
    s.on_result(Ok(()));
    assert_eq!(s.next_action(), Action::Probe(Target::Worktree));
    s.on_probe(true);
    assert_eq!(s.next_action(), Action::Remove(Target::Worktree));
    s.on_result(Ok(()));
    assert_eq!(s.next_action(), Action::InitBare);
}

#[test]
fn worktree_failure_without_bare_is_surfaced() {
    let layout = RepositoryLayout::new("/r", "h", "o", "n", "main").unwrap();
    let mut s = StoreSession::new(layout, "main".to_string(), None);
    s.on_probe(true);
    s.on_probe(false);
    s.on_result(Err("gone".to_string()));
    s.on_probe(false);
    assert_eq!(s.next_action(), Action::Finish);
    assert_eq!(
        s.into_outcome(),
        Some(Err(RepoError::WorktreeCreationFailure("gone".to_string())))
    );
}

#[test]
fn base_ref_choice() {
    assert_eq!(worktree_base(true, true), BaseRef::Branch);
    assert_eq!(worktree_base(false, true), BaseRef::DefaultBranch);
    assert_eq!(worktree_base(false, false), BaseRef::Head);
}

#[test]
fn init_failure_is_reported() {
    let layout = RepositoryLayout::new("/r", "h", "o", "n", "main").unwrap();
    let mut s = StoreSession::new(layout, "main".to_string(), None);
    s.on_probe(false);
    assert_eq!(s.next_action(), Action::InitBare);
    s.on_result(Err("permission denied".to_string()));
    assert_eq!(s.next_action(), Action::Finish);
    assert_eq!(
        s.into_outcome(),
        Some(Err(RepoError::RepositoryInitFailure("permission denied".to_string())))
    );
}

#[test]
fn error_messages() {
    assert_eq!(RepoError::HomeNotSet.message(), "Home directory is not set");
    assert_eq!(
        RepoError::InvalidFormat("x".to_string()).message(),
        "Invalid repository format: x"
    );
    assert_eq!(
        RepoError::InvalidRepoState("bad".to_string()).message(),
        "Failed to recreate repository: bad"
    );
}

#[test]
fn test_execute_repo_create_user_repo_format() {
    let mut s = execute_with_config("user/test-repo".to_string(), None, config()).unwrap();
    let mut d = disk(false, false);
    drive(&mut s, &mut d);
    assert_eq!(s.into_outcome(), Some(Ok(())));
    assert!(d.bare);
    assert!(d.worktree);
}

#[test]
fn test_execute_get_command_invalid_url() {
    let r = get::execute(config(), "invalid-url".to_string(), Some("main".to_string()));
    assert!(r.is_err());
}

#[test]
fn test_execute_with_default_branch() {
    let mut s = get::execute(config(), "https://github.com/octocat/Hello-World.git".to_string(), None).unwrap();
    assert_eq!(s.layout.worktree_path, "/tmp/neoghq/github.com/octocat/Hello-World/main");
    let mut d = disk(false, false);
    drive(&mut s, &mut d);
    assert_eq!(s.into_outcome(), Some(Ok(())));
    assert!(d.log.contains(&Action::CloneBare));
    assert!(d.worktree);
}

#[test]
fn test_worktree_option_validation() {
    for worktree_name in ["dev", "feature", "hotfix", "release-1.0"] {
        let repo = format!("user/test-repo-{worktree_name}");
        let mut s = execute_with_config(repo, Some(worktree_name.to_string()), config()).unwrap();
        assert_eq!(
            s.layout.worktree_path,
            format!("/tmp/neoghq/github.com/user/test-repo-{worktree_name}/{worktree_name}")
        );
        let mut d = disk(false, false);
        drive(&mut s, &mut d);
        assert!(s.into_outcome().unwrap().is_ok(), "Failed with worktree name: {worktree_name}");
        assert!(d.worktree);
    }
}
