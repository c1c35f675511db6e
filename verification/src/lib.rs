//! A verified core for a git worktree manager: repository and worktree
//! discovery, status classification, filtering, aggregation, and a
//! transactional worktree lifecycle built on a trusted git facade.

pub mod clock;
pub mod commands;
pub mod git;
pub mod github;
pub mod model;
pub mod output;
pub mod scan;
pub mod status;
pub mod strutil;
pub mod table;
