//! Branch management logic for a terminal git branch manager: navigation and
//! paging over the branch list, selection, the partition of a delete request
//! into safe, forced and worktree deletions, the texts the screen shows, and the
//! git queries that build the branch list.

pub mod app;
pub mod branch;
pub mod error;
pub mod git;
pub mod text;
pub mod trace;
pub mod view;
pub mod laws;
