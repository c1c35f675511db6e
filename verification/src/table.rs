//! The rows a table renderer consumes: one per worktree, every cell
//! already formatted as text.

use vstd::prelude::*;

use crate::clock::now_unix_seconds;
use crate::model::{spec_days_old, WorktreeResult};
use crate::output::StatusFormatter;
use crate::status::{LocalStatus, PrStatus};
use crate::strutil::{dec_str, u64_to_string};

verus! {

/// A status wrapped for emoji-first display.
#[derive(Debug)]
pub struct EmojiStatus<T>(pub T);

impl EmojiStatus<LocalStatus> {
    /// The `<emoji> <description>` form of the status.
    pub fn text(&self) -> (r: String)
        ensures
            r@ == self.0.spec_emoji() + " "@ + self.0.spec_description(),
    {
        let mut s = String::from_str(self.0.emoji());
        s.append(" ");
        s.append(self.0.description().as_str());
        s
    }
}

/// The text a missing pull-request status renders as.
pub open spec fn spec_format_pr_status(pr_status: Option<PrStatus>) -> Seq<char> {
    match pr_status {
        Some(st) => st.spec_description(),
        None => "-"@,
    }
}

/// Render an optional pull-request status.
pub fn format_pr_status(pr_status: &Option<PrStatus>) -> (r: String)
    ensures
        r@ == spec_format_pr_status(*pr_status),
{
    match pr_status {
        Option::Some(status) => status.description(),
        Option::None => String::from_str("-"),
    }
}

/// A possibly negative number in decimal.
pub open spec fn spec_int_str(n: int) -> Seq<char> {
    if n < 0 {
        seq!['-'] + dec_str(-n)
    } else {
        dec_str(n)
    }
}

/// The age text of a commit at time `now`: unknown timestamps render
/// as `Unknown`; otherwise the age in days, weeks, months or years.
pub open spec fn spec_format_age(ts: int, now: int) -> Seq<char> {
    if ts == 0 {
        "Unknown"@
    } else {
        let d = spec_days_old(ts, now);
        if d == 0 {
            "Today"@
        } else if d == 1 {
            "1 day"@
        } else if d < 7 {
            spec_int_str(d) + " days"@
        } else if d < 30 {
            spec_int_str(d / 7) + " weeks"@
        } else if d < 365 {
            spec_int_str(d / 30) + " months"@
        } else {
            spec_int_str(d / 365) + " years"@
        }
    }
}

/// Render a commit's age against an explicit current time.
pub fn format_age_at(timestamp: i64, now: i64) -> (r: String)
    ensures
        r@ == spec_format_age(timestamp as int, now as int),
{
    if timestamp == 0 {
        return String::from_str("Unknown");
    }
    let (neg, mag) = crate::model::days_old_parts(timestamp, now);
    if !neg && mag == 0 {
        return String::from_str("Today");
    }
    if !neg && mag == 1 {
        return String::from_str("1 day");
    }
    if neg || mag < 7 {
        let mut s = if neg {
            let mut t = String::from_str("-");
            proof {
                reveal_strlit("-");
                assert("-"@ =~= seq!['-']);
            }
            t.append(u64_to_string(mag).as_str());
            t
        } else {
            u64_to_string(mag)
        };
        s.append(" days");
        return s;
    }
    if mag < 30 {
        let mut s = u64_to_string(mag / 7);
        s.append(" weeks");
        return s;
    }
    if mag < 365 {
        let mut s = u64_to_string(mag / 30);
        s.append(" months");
        return s;
    }
    let mut s = u64_to_string(mag / 365);
    s.append(" years");
    s
}

/// Render a commit's age against the clock.
pub fn format_age(timestamp: i64) -> (r: String)
    ensures
        exists|now: int| 0 <= now && r@ == spec_format_age(timestamp as int, now),
{
    let now = now_unix_seconds();
    let r = format_age_at(timestamp, now);
    proof {
        assert(0 <= now as int && r@ == spec_format_age(timestamp as int, now as int));
    }
    r
}

/// The local-status cell of a row.
pub open spec fn spec_local_cell(st: LocalStatus, use_emoji: bool) -> Seq<char> {
    if use_emoji {
        st.spec_emoji() + " "@ + st.spec_description()
    } else {
        st.spec_description()
    }
}

/// One table row, pull-request column included.
#[derive(Debug)]
pub struct TableRow {
    pub repo: String,
    pub branch: String,
    pub local_status: String,
    pub pr_status: String,
    pub commit_age: String,
    pub commit_summary: String,
}

impl TableRow {
    /// Build the row of one worktree.
    pub fn from_worktree(repo_name: &str, worktree: &WorktreeResult, use_emoji: bool) -> (r: Self)
        ensures
            r.repo@ == repo_name@,
            r.branch@ == worktree.branch@,
            r.local_status@ == spec_local_cell(worktree.status.local_status, use_emoji),
            r.pr_status@ == spec_format_pr_status(worktree.status.pr_status),
            exists|now: int|
                0 <= now && r.commit_age@ == spec_format_age(
                    worktree.status.commit_timestamp as int,
                    now,
                ),
            r.commit_summary@ == worktree.status.commit_summary@,
    {
        TableRow {
            repo: String::from_str(repo_name),
            branch: worktree.branch.clone(),
            local_status: if use_emoji {
                EmojiStatus(worktree.status.local_status).text()
            } else {
                worktree.status.local_status.description()
            },
            pr_status: format_pr_status(&worktree.status.pr_status),
            commit_age: format_age(worktree.status.commit_timestamp),
            commit_summary: worktree.status.commit_summary.clone(),
        }
    }
}

/// One table row without the pull-request column.
#[derive(Debug)]
pub struct TableRowWithoutPr {
    pub repo: String,
    pub branch: String,
    pub local_status: String,
    pub commit_age: String,
    pub commit_summary: String,
}

impl TableRowWithoutPr {
    /// Build the row of one worktree.
    pub fn from_worktree(repo_name: &str, worktree: &WorktreeResult, use_emoji: bool) -> (r: Self)
        ensures
            r.repo@ == repo_name@,
            r.branch@ == worktree.branch@,
            r.local_status@ == spec_local_cell(worktree.status.local_status, use_emoji),
            exists|now: int|
                0 <= now && r.commit_age@ == spec_format_age(
                    worktree.status.commit_timestamp as int,
                    now,
                ),
            r.commit_summary@ == worktree.status.commit_summary@,
    {
        TableRowWithoutPr {
            repo: String::from_str(repo_name),
            branch: worktree.branch.clone(),
            local_status: if use_emoji {
                EmojiStatus(worktree.status.local_status).text()
            } else {
                worktree.status.local_status.description()
            },
            commit_age: format_age(worktree.status.commit_timestamp),
            commit_summary: worktree.status.commit_summary.clone(),
        }
    }
}

} // verus!
