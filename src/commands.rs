//! One entry point per command: each turns its arguments into the session,
//! walk or text that carries the command out.
use vstd::prelude::*;
use crate::cli::{Commands, RepoCommands, WorktreeCommands};
use crate::config::Config;
use crate::error::RepoError;
use crate::store::StoreSession;
use crate::walker::{fresh_walk, views, TreeWalk};
use self::worktree::notice_lines;
use self::get::get_outcome;
use self::repo::create::create_outcome;
use self::repo::list::listing_depth;
use self::repo::switch::{switch_outcome, SwitchPlan};

pub mod get;
pub mod list;
pub mod repo;
pub mod worktree;

verus! {

/// How a command is carried out.
pub enum Operation {
    /// Run the session that ensures a bare store and a worktree.
    Ensure(StoreSession),
    /// Search for the repository, then pick the worktree.
    Switch(SwitchPlan),
    /// Run the walk and print each path it reports.
    List(TreeWalk),
    /// Print these lines.
    Print(Vec<String>),
}

/// `r` is how the repository command `command` is carried out under `config`.
pub open spec fn repo_operation(command: RepoCommands, config: Config, r: Result<Operation, RepoError>) -> bool {
    match command {
        RepoCommands::Clone { url } => match r {
            Ok(Operation::Ensure(s)) => get_outcome(config.root@, url@, None, Ok(s)),
            Err(e) => get_outcome(config.root@, url@, None, Err(e)),
            _ => false,
        },
        RepoCommands::Create { repo, worktree } => match r {
            Ok(Operation::Ensure(s)) => create_outcome(config.root@, repo@, worktree, Ok(s)),
            Err(e) => create_outcome(config.root@, repo@, worktree, Err(e)),
            _ => false,
        },
        RepoCommands::Switch { repo, worktree } => match r {
            Ok(Operation::Switch(p)) => switch_outcome(config.root, repo@, worktree, Ok(p)),
            Err(e) => switch_outcome(config.root, repo@, worktree, Err(e)),
            _ => false,
        },
        RepoCommands::List { show_worktrees } => r matches Ok(Operation::List(w)) && fresh_walk(
            w,
            config.root,
            listing_depth(show_worktrees),
        ),
    }
}

/// The lines printed for the worktree command `command`.
pub open spec fn worktree_lines(command: WorktreeCommands) -> Seq<Seq<char>> {
    match command {
        WorktreeCommands::Create { branch } => notice_lines("Creating worktree for branch: "@, branch@, "create"@),
        WorktreeCommands::Switch { branch } => notice_lines(
            "Switching to worktree for branch: "@,
            branch@,
            "switch"@,
        ),
        WorktreeCommands::Remove { branch } => notice_lines("Removing worktree for branch: "@, branch@, "remove"@),
        WorktreeCommands::Clean => notice_lines("Cleaning merged worktrees"@, Seq::empty(), "clean"@),
        WorktreeCommands::Status => notice_lines("Showing status of all worktrees"@, Seq::empty(), "status"@),
        WorktreeCommands::List => notice_lines("Listing all worktrees:"@, Seq::empty(), "list"@),
    }
}

/// Carries out a command under `config`.
pub fn execute_command(command: Commands, config: Config) -> (r: Result<Operation, RepoError>)
    ensures
        match command {
            Commands::Repo { command } => repo_operation(command, config, r),
            Commands::Worktree { command } => r matches Ok(Operation::Print(v)) && views(v@) == worktree_lines(
                command,
            ),
            Commands::Root => r matches Ok(Operation::Print(v)) && v@ == seq![config.root],
        },
{
    match command {
        Commands::Repo { command } => execute_repo_command(command, config),
        Commands::Worktree { command } => Ok(Operation::Print(execute_worktree_command(command, config))),
        Commands::Root => {
            let mut v: Vec<String> = Vec::new();
            v.push(config.root);
            assert(v@ =~= seq![config.root]);
            Ok(Operation::Print(v))
        },
    }
}

/// Carries out a repository command under `config`.
pub fn execute_repo_command(command: RepoCommands, config: Config) -> (r: Result<Operation, RepoError>)
    ensures
        repo_operation(command, config, r),
{
    match command {
        RepoCommands::Clone { url } => match get::execute(config, url, None) {
            Ok(s) => Ok(Operation::Ensure(s)),
            Err(e) => Err(e),
        },
        RepoCommands::Create { repo, worktree } => match repo::create::execute_with_config(repo, worktree, config) {
            Ok(s) => Ok(Operation::Ensure(s)),
            Err(e) => Err(e),
        },
        RepoCommands::Switch { repo, worktree } => match repo::switch::execute_with_config(repo, worktree, config) {
            Ok(p) => Ok(Operation::Switch(p)),
            Err(e) => Err(e),
        },
        RepoCommands::List { show_worktrees } => Ok(
            Operation::List(repo::list::execute_with_config(show_worktrees, config)),
        ),
    }
}

/// The lines printed for a worktree command.
pub fn execute_worktree_command(command: WorktreeCommands, _config: Config) -> (r: Vec<String>)
    ensures
        views(r@) == worktree_lines(command),
{
    proof {
        reveal_strlit("");
    }
    assert(""@ =~= Seq::<char>::empty());
    match command {
        WorktreeCommands::Create { branch } => worktree::pending_notice("Creating worktree for branch: ", branch, "create"),
        WorktreeCommands::Switch { branch } => worktree::switch::execute(branch),
        WorktreeCommands::Remove { branch } => worktree::pending_notice("Removing worktree for branch: ", branch, "remove"),
        WorktreeCommands::Clean => worktree::pending_notice("Cleaning merged worktrees", String::new(), "clean"),
        WorktreeCommands::Status => worktree::pending_notice("Showing status of all worktrees", String::new(), "status"),
        WorktreeCommands::List => worktree::list::execute(),
    }
}

} // verus!
