//! Repository commands.
pub mod create;
pub mod list;
pub mod switch;
