//! Decision logic of a repository formatting bot: which tracked files are
//! formatted, how a chat command addressed to the bot is understood, and which
//! git operations reconcile the formatted tree with the remote branch.

pub mod command;
pub mod dispatch;
pub mod event;
pub mod format;
pub mod git;
pub mod select;
pub mod text;
