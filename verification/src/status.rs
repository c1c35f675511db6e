//! The four independent status axes of a worktree: working-tree
//! cleanliness, relationship to the upstream branch, merge likelihood,
//! and pull-request state.

use vstd::prelude::*;

verus! {

/// Cleanliness of a worktree's working directory.
#[derive(Debug, Clone, Copy, PartialEq, Eq, Structural)]
pub enum LocalStatus {
    Clean,
    Dirty,
    Staged,
    Missing,
}

/// Relationship of a branch to its upstream.
#[derive(Debug, Clone, Copy, PartialEq, Eq, Structural)]
pub enum RemoteStatus {
    UpToDate,
    Ahead(usize),
    Behind(usize),
    Diverged(usize, usize),
    NotPushed,
    NotTracking,
    NoRemote,
}

/// Best-effort merge inference; `LikelyMerged` is a heuristic signal,
/// never a verified merge.
#[derive(Debug, Clone, Copy, PartialEq, Eq, Structural)]
pub enum MergeStatus {
    Merged,
    LikelyMerged,
    NotMerged,
    Unknown,
}

/// Pull-request state reported by the GitHub collaborator.
#[derive(Debug, PartialEq, Eq)]
pub enum PrStatus {
    Open(u64, Option<String>),
    Merged(u64),
    Closed(u64),
    NoPr,
    NoGitHub,
    NoGhCli,
}

} // verus!
