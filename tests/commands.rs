use neoghq::cli::{Commands, RepoCommands, WorktreeCommands};
use neoghq::commands::{execute_command, execute_repo_command, execute_worktree_command, Operation};
use neoghq::commands::repo::list::execute_with_config;
use neoghq::commands::worktree::list::execute;
use neoghq::config::Config;
use neoghq::walker::Listing;

fn create_test_config() -> Config {
    Config { root: "/tmp/neoghq-test".to_string() }
}

fn is_ok_listing(show_worktrees: bool) -> bool {
    let mut w = execute_with_config(show_worktrees, create_test_config());
    w.visit(Listing::Missing).is_ok() && w.next_dir().is_none()
}

#[test]
fn list_test_list_command_executes_successfully() {
    assert!(is_ok_listing(false));
}

#[test]
fn test_execute_with_show_worktrees_true() {
    assert!(is_ok_listing(true));
}

#[test]
fn test_execute_with_show_worktrees_false() {
    assert!(is_ok_listing(false));
}

#[test]
fn test_execute() {
    let lines = execute();
    assert_eq!(lines, vec!["Listing all worktrees:", "worktree list functionality not yet implemented"]);
}

#[test]
fn test_execute_command_root() {
    let result = execute_command(Commands::Root, create_test_config());
    assert!(result.is_ok());
    match result.unwrap() {
        Operation::Print(v) => assert_eq!(v, vec!["/tmp/neoghq-test"]),
        _ => panic!("expected lines"),
    }
}

#[test]
fn test_execute_command_repo_list() {
    let command = Commands::Repo { command: RepoCommands::List { show_worktrees: false } };
    let result = execute_command(command, create_test_config());
    assert!(result.is_ok());
}

#[test]
fn test_execute_command_worktree_create() {
    let command = Commands::Worktree { command: WorktreeCommands::Create { branch: "feature/test".to_string() } };
    assert!(execute_command(command, create_test_config()).is_ok());
}

#[test]
fn test_execute_command_worktree_switch() {
    let command = Commands::Worktree { command: WorktreeCommands::Switch { branch: "feature/test".to_string() } };
    assert!(execute_command(command, create_test_config()).is_ok());
}

#[test]
fn test_execute_command_worktree_remove() {
    let command = Commands::Worktree { command: WorktreeCommands::Remove { branch: "feature/test".to_string() } };
    assert!(execute_command(command, create_test_config()).is_ok());
}

#[test]
fn test_execute_command_worktree_clean() {
    let command = Commands::Worktree { command: WorktreeCommands::Clean };
    assert!(execute_command(command, create_test_config()).is_ok());
}

#[test]
fn test_execute_command_worktree_status() {
    let command = Commands::Worktree { command: WorktreeCommands::Status };
    assert!(execute_command(command, create_test_config()).is_ok());
}

#[test]
fn test_execute_command_worktree_list() {
    let command = Commands::Worktree { command: WorktreeCommands::List };
    assert!(execute_command(command, create_test_config()).is_ok());
}

#[test]
fn test_execute_repo_command_list() {
    assert!(execute_repo_command(RepoCommands::List { show_worktrees: false }, create_test_config()).is_ok());
}

#[test]
fn test_execute_worktree_command_create() {
    let lines = execute_worktree_command(WorktreeCommands::Create { branch: "feature/test".to_string() }, create_test_config());
    assert_eq!(lines[0], "Creating worktree for branch: feature/test");
}

#[test]
fn test_execute_worktree_command_switch() {
    let lines = execute_worktree_command(WorktreeCommands::Switch { branch: "feature/test".to_string() }, create_test_config());
    assert_eq!(lines[0], "Switching to worktree for branch: feature/test");
    assert_eq!(lines[1], "worktree switch functionality not yet implemented");
}

#[test]
fn test_execute_worktree_command_remove() {
    let lines = execute_worktree_command(WorktreeCommands::Remove { branch: "feature/test".to_string() }, create_test_config());
    assert_eq!(lines[1], "worktree remove functionality not yet implemented");
}

#[test]
fn test_execute_worktree_command_clean() {
    assert!(!execute_worktree_command(WorktreeCommands::Clean, create_test_config()).is_empty());
}

#[test]
fn test_execute_worktree_command_status() {
    assert!(!execute_worktree_command(WorktreeCommands::Status, create_test_config()).is_empty());
}

#[test]
fn test_execute_worktree_command_list() {
    assert_eq!(execute_worktree_command(WorktreeCommands::List, create_test_config()).len(), 2);
}

#[test]
fn test_execute_repo_command_switch_invalid() {
    let command = RepoCommands::Switch { repo: "invalid-format".to_string(), worktree: None };
    assert!(execute_repo_command(command, create_test_config()).is_err());
}

#[test]
fn test_execute_command_repo_create_session() {
    let command = Commands::Repo {
        command: RepoCommands::Create { repo: "https://github.com/user/repo".to_string(), worktree: None },
    };
    match execute_command(command, create_test_config()).unwrap() {
        Operation::Ensure(s) => assert_eq!(s.layout.worktree_path, "/tmp/neoghq-test/github.com/user/repo/main"),
        _ => panic!("expected a session"),
    }
}
