//! Repository and worktree lifecycle management over a deterministic
//! `root/host/owner/name/{.git,<branch>}` directory layout.
pub mod cli;
pub mod commands;
pub mod config;
pub mod error;
pub mod identity;
pub mod layout;
pub mod locate;
pub mod store;
pub mod text;
pub mod walker;
