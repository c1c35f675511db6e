//! The git facade: typed access to git primitives behind the
//! `GitClient` seam, pure parsers and classifiers for what those
//! primitives report, and the transactional worktree lifecycle.

use vstd::prelude::*;

use crate::model::{days_old_parts, spec_days_old};
use crate::status::{LocalStatus, MergeStatus, RemoteStatus};
use crate::strutil::{
    contains_sub, first_token, lemma_rfind_from_range, rfind_char, spec_contains, spec_first_token,
    spec_rfind, spec_trim, str_eq, trim_ws,
};

verus! {

/// The facade's error taxonomy.
#[derive(Debug, Clone, Copy, PartialEq, Eq, Structural)]
pub enum GitError {
    RepoOpenFailed,
    ConfigMissing,
    RevisionNotFound,
    PathAlreadyExists,
    BranchExists,
    SourceBranchNotFound,
    WorktreeNotFound,
    IoFailure,
}

impl GitError {
    /// The characters of each error's description.
    pub open spec fn spec_message(self) -> Seq<char> {
        match self {
            GitError::RepoOpenFailed => "Failed to open repository"@,
            GitError::ConfigMissing => "Configuration value missing"@,
            GitError::RevisionNotFound => "Revision not found"@,
            GitError::PathAlreadyExists => "Target path already exists"@,
            GitError::BranchExists => "Branch already exists. Use --reuse to reuse the existing branch, or choose a different branch name."@,
            GitError::SourceBranchNotFound => "Source branch not found locally or on remote"@,
            GitError::WorktreeNotFound => "Worktree for branch not found"@,
            GitError::IoFailure => "Input/output failure"@,
        }
    }

    /// A human-readable description of the error.
    pub fn message(&self) -> (r: &'static str)
        ensures
            r@ == self.spec_message(),
    {
        match self {
            GitError::RepoOpenFailed => "Failed to open repository",
            GitError::ConfigMissing => "Configuration value missing",
            GitError::RevisionNotFound => "Revision not found",
            GitError::PathAlreadyExists => "Target path already exists",
            GitError::BranchExists => "Branch already exists. Use --reuse to reuse the existing branch, or choose a different branch name.",
            GitError::SourceBranchNotFound => "Source branch not found locally or on remote",
            GitError::WorktreeNotFound => "Worktree for branch not found",
            GitError::IoFailure => "Input/output failure",
        }
    }

    /// The description followed by the subject it concerns, such as
    /// the branch or path the operation was given.
    pub fn message_with(&self, subject: &str) -> (r: String)
        ensures
            r@ == self.spec_message() + ": "@ + subject@,
    {
        let mut s = String::from_str(self.message());
        s.append(": ");
        s.append(subject);
        s
    }
}

/// One worktree as reported by the listing: its directory and its
/// branch.
#[derive(Debug)]
pub struct WorktreeInfo {
    pub path: String,
    pub branch: String,
}

impl Clone for WorktreeInfo {
    fn clone(&self) -> (r: Self)
        ensures
            r == *self,
    {
        WorktreeInfo { path: self.path.clone(), branch: self.branch.clone() }
    }
}

/// One changed file as the status query reports it: which change
/// markers are set on the index side and on the working-tree side.
#[derive(Debug)]
pub struct FileChange {
    pub index_new: bool,
    pub index_modified: bool,
    pub index_deleted: bool,
    pub index_renamed: bool,
    pub index_typechange: bool,
    pub wt_new: bool,
    pub wt_modified: bool,
    pub wt_deleted: bool,
    pub wt_renamed: bool,
    pub wt_typechange: bool,
    pub path: String,
}

/// The index-side marker of a porcelain status line.
pub open spec fn spec_index_char(f: FileChange) -> char {
    if f.index_new {
        'A'
    } else if f.index_modified {
        'M'
    } else if f.index_deleted {
        'D'
    } else if f.index_renamed {
        'R'
    } else if f.index_typechange {
        'T'
    } else {
        ' '
    }
}

/// The working-tree-side marker of a porcelain status line.
pub open spec fn spec_wt_char(f: FileChange) -> char {
    if f.wt_new {
        '?'
    } else if f.wt_modified {
        'M'
    } else if f.wt_deleted {
        'D'
    } else if f.wt_renamed {
        'R'
    } else if f.wt_typechange {
        'T'
    } else {
        ' '
    }
}

/// The porcelain line of one change record; empty when the record
/// carries no marker at all.
pub open spec fn spec_status_line(f: FileChange) -> Seq<char> {
    if spec_index_char(f) == ' ' && spec_wt_char(f) == ' ' {
        Seq::empty()
    } else {
        seq![spec_index_char(f), spec_wt_char(f), ' '] + f.path@ + seq!['\n']
    }
}

/// The porcelain text of a sequence of change records.
pub open spec fn spec_porcelain(fs: Seq<FileChange>) -> Seq<char>
    decreases fs.len(),
{
    if fs.len() == 0 {
        Seq::empty()
    } else {
        spec_porcelain(fs.drop_last()) + spec_status_line(fs.last())
    }
}

fn index_char_str(f: &FileChange) -> (r: &'static str)
    ensures
        r@ =~= seq![spec_index_char(*f)],
{
    proof {
        reveal_strlit("A");
        reveal_strlit("M");
        reveal_strlit("D");
        reveal_strlit("R");
        reveal_strlit("T");
        reveal_strlit(" ");
    }
    if f.index_new {
        "A"
    } else if f.index_modified {
        "M"
    } else if f.index_deleted {
        "D"
    } else if f.index_renamed {
        "R"
    } else if f.index_typechange {
        "T"
    } else {
        " "
    }
}

fn wt_char_str(f: &FileChange) -> (r: &'static str)
    ensures
        r@ =~= seq![spec_wt_char(*f)],
{
    proof {
        reveal_strlit("?");
        reveal_strlit("M");
        reveal_strlit("D");
        reveal_strlit("R");
        reveal_strlit("T");
        reveal_strlit(" ");
    }
    if f.wt_new {
        "?"
    } else if f.wt_modified {
        "M"
    } else if f.wt_deleted {
        "D"
    } else if f.wt_renamed {
        "R"
    } else if f.wt_typechange {
        "T"
    } else {
        " "
    }
}

/// Render change records as porcelain text, one `XY <path>` line per
/// record that carries at least one marker.
pub fn build_porcelain(entries: &Vec<FileChange>) -> (r: String)
    ensures
        r@ == spec_porcelain(entries@),
{
    let mut out = String::new();
    let mut i: usize = 0;
    proof {
        assert(entries@.take(0) =~= Seq::<FileChange>::empty());
    }
    while i < entries.len()
        invariant
            i <= entries@.len(),
            out@ == spec_porcelain(entries@.take(i as int)),
        decreases entries@.len() - i,
    {
        let entry = &entries[i];
        let ghost before = out@;
        let has_index = entry.index_new || entry.index_modified || entry.index_deleted
            || entry.index_renamed || entry.index_typechange;
        let has_wt = entry.wt_new || entry.wt_modified || entry.wt_deleted || entry.wt_renamed
            || entry.wt_typechange;
        if has_index || has_wt {
            out.append(index_char_str(entry));
            out.append(wt_char_str(entry));
            out.append(" ");
            out.append(entry.path.as_str());
            out.append("\n");
            proof {
                reveal_strlit(" ");
                reveal_strlit("\n");
                assert(out@ =~= before + spec_status_line(entries@[i as int]));
            }
        } else {
            proof {
                assert(spec_status_line(entries@[i as int]) =~= Seq::<char>::empty());
                assert(out@ =~= before + spec_status_line(entries@[i as int]));
            }
        }
        proof {
            assert(entries@.take(i + 1).drop_last() =~= entries@.take(i as int));
            assert(entries@.take(i + 1).last() == entries@[i as int]);
        }
        i = i + 1;
    }
    proof {
        assert(entries@.take(entries@.len() as int) =~= entries@);
    }
    out
}

/// An index-side add, delete, rename or modify marker.
pub open spec fn is_staged_marker(c: char) -> bool {
    c == 'A' || c == 'D' || c == 'R' || c == 'M'
}

/// Position `k` opens a line (start of text or right after a
/// newline) with a staged-change marker.
pub open spec fn staged_at(s: Seq<char>, k: int) -> bool {
    0 <= k < s.len() && (k == 0 || s[k - 1] == '\n') && is_staged_marker(s[k])
}

/// Some line of the porcelain text opens with a staged-change marker.
pub open spec fn spec_has_staged_line(s: Seq<char>) -> bool {
    exists|i: int| #[trigger] staged_at(s, i)
}

/// What porcelain text says of the working tree: empty means clean; a
/// line opening with an index-side marker means staged; anything else
/// means dirty.
pub open spec fn spec_local_status(s: Seq<char>) -> LocalStatus {
    if spec_trim(s).len() == 0 {
        LocalStatus::Clean
    } else if spec_has_staged_line(s) {
        LocalStatus::Staged
    } else {
        LocalStatus::Dirty
    }
}

/// Whether some line of the text opens with a staged-change marker.
fn has_staged_line(s: &str) -> (r: bool)
    ensures
        r == spec_has_staged_line(s@),
{
    let n = s.unicode_len();
    let mut i: usize = 0;
    while i < n
        invariant
            n == s@.len(),
            0 <= i <= n,
            forall|k: int| k < i ==> !(#[trigger] staged_at(s@, k)),
        decreases n - i,
    {
        let at_start = i == 0 || s.get_char(i - 1) == '\n';
        if at_start {
            let c = s.get_char(i);
            if c == 'A' || c == 'D' || c == 'R' || c == 'M' {
                assert(staged_at(s@, i as int));
                return true;
            }
        } else {
            assert(!staged_at(s@, i as int));
        }
        i = i + 1;
    }
    assert(forall|k: int| !(#[trigger] staged_at(s@, k)));
    false
}

/// Classify porcelain status text, totally: no input is rejected.
pub fn parse_local_status(status_output: &str) -> (r: LocalStatus)
    ensures
        r == spec_local_status(status_output@),
{
    let trimmed = trim_ws(status_output);
    if trimmed.unicode_len() == 0 {
        return LocalStatus::Clean;
    }
    if has_staged_line(status_output) {
        LocalStatus::Staged
    } else {
        LocalStatus::Dirty
    }
}

/// The first index at or after `i` that holds a newline, or the
/// length.
pub open spec fn nl_pos(s: Seq<char>, i: int) -> int
    decreases s.len() - i,
{
    if 0 <= i < s.len() && s[i] != '\n' {
        nl_pos(s, i + 1)
    } else {
        i
    }
}

proof fn lemma_nl_pos_bounds(s: Seq<char>, i: int)
    requires
        0 <= i <= s.len(),
    ensures
        i <= nl_pos(s, i) <= s.len(),
        nl_pos(s, i) < s.len() ==> s[nl_pos(s, i)] == '\n',
    decreases s.len() - i,
{
    if i < s.len() && s[i] != '\n' {
        lemma_nl_pos_bounds(s, i + 1);
    }
}

fn nl_find(s: &str, from: usize) -> (r: usize)
    requires
        from <= s@.len(),
    ensures
        r == nl_pos(s@, from as int),
        from <= r <= s@.len(),
        r < s@.len() ==> s@[r as int] == '\n',
{
    let n = s.unicode_len();
    let mut i: usize = from;
    while i < n && s.get_char(i) != '\n'
        invariant
            n == s@.len(),
            from <= i <= n,
            nl_pos(s@, from as int) == nl_pos(s@, i as int),
        decreases n - i,
    {
        i = i + 1;
    }
    proof {
        lemma_nl_pos_bounds(s@, from as int);
    }
    i
}

/// A line with a trailing carriage return removed.
pub open spec fn strip_cr(l: Seq<char>) -> Seq<char> {
    if l.len() > 0 && l.last() == '\r' {
        l.drop_last()
    } else {
        l
    }
}

/// The lines of `s` from index `i` on, split at newlines, each with a
/// trailing carriage return removed; no final empty line after a
/// trailing newline.
pub open spec fn spec_lines_from(s: Seq<char>, i: int) -> Seq<Seq<char>>
    decreases s.len() - i,
{
    if !(0 <= i < s.len()) {
        Seq::empty()
    } else {
        let j = nl_pos(s, i);
        if i <= j < s.len() {
            seq![strip_cr(s.subrange(i, j))] + spec_lines_from(s, j + 1)
        } else {
            seq![strip_cr(s.subrange(i, s.len() as int))]
        }
    }
}

/// The lines of `s`.
pub open spec fn spec_lines(s: Seq<char>) -> Seq<Seq<char>> {
    spec_lines_from(s, 0)
}

/// What one listing line denotes: `None` for a bare-repository
/// marker, a malformed line, or a primary (`main`/`master`) branch;
/// otherwise the `(path, branch)` pair, the path being the line's
/// first token and the branch standing between the last brackets.
pub open spec fn spec_parse_wt_line(l: Seq<char>) -> Option<(Seq<char>, Seq<char>)> {
    if spec_contains(l, "(bare)"@) {
        None
    } else {
        match (spec_rfind(l, '['), spec_rfind(l, ']')) {
            (Some(b), Some(e)) => {
                if b + 1 <= e {
                    let branch = l.subrange(b + 1, e);
                    if branch == "main"@ || branch == "master"@ {
                        None
                    } else {
                        Some((spec_first_token(l), branch))
                    }
                } else {
                    None
                }
            },
            _ => None,
        }
    }
}

/// The pairs denoted by a sequence of listing lines, in order.
pub open spec fn spec_parse_wt_lines(ls: Seq<Seq<char>>) -> Seq<(Seq<char>, Seq<char>)>
    decreases ls.len(),
{
    if ls.len() == 0 {
        Seq::empty()
    } else {
        spec_parse_wt_lines(ls.drop_last()) + match spec_parse_wt_line(ls.last()) {
            Some(pb) => seq![pb],
            None => Seq::empty(),
        }
    }
}

/// The worktrees denoted by a whole listing.
pub open spec fn spec_parse_worktrees(s: Seq<char>) -> Seq<(Seq<char>, Seq<char>)> {
    spec_parse_wt_lines(spec_lines(s))
}

/// The `(path, branch)` views of parsed worktrees.
pub open spec fn wt_views(v: Seq<WorktreeInfo>) -> Seq<(Seq<char>, Seq<char>)> {
    v.map_values(|w: WorktreeInfo| (w.path@, w.branch@))
}

/// Parse one listing line; total over malformed lines.
fn parse_worktree_line(line: &str) -> (r: Option<WorktreeInfo>)
    ensures
        match r {
            Some(w) => spec_parse_wt_line(line@) == Some((w.path@, w.branch@)),
            None => spec_parse_wt_line(line@) is None,
        },
{
    if contains_sub(line, "(bare)") {
        return Option::None;
    }
    let b = match rfind_char(line, '[') {
        Option::Some(x) => x,
        Option::None => {
            return Option::None;
        },
    };
    let e = match rfind_char(line, ']') {
        Option::Some(x) => x,
        Option::None => {
            return Option::None;
        },
    };
    proof {
        lemma_rfind_from_range(line@, '[', line@.len() - 1);
        lemma_rfind_from_range(line@, ']', line@.len() - 1);
    }
    if b >= e {
        return Option::None;
    }
    let branch_str = line.substring_char(b + 1, e);
    if str_eq(branch_str, "main") || str_eq(branch_str, "master") {
        return Option::None;
    }
    let path = first_token(line);
    Option::Some(WorktreeInfo { path, branch: String::from_str(branch_str) })
}

proof fn lemma_parse_wt_lines_push(ls: Seq<Seq<char>>, l: Seq<char>)
    ensures
        spec_parse_wt_lines(ls.push(l)) == spec_parse_wt_lines(ls) + match spec_parse_wt_line(l) {
            Some(pb) => seq![pb],
            None => Seq::<(Seq<char>, Seq<char>)>::empty(),
        },
{
    assert(ls.push(l).drop_last() =~= ls);
    assert(ls.push(l).last() == l);
}

proof fn lemma_wt_views_push(v: Seq<WorktreeInfo>, w: WorktreeInfo)
    ensures
        wt_views(v.push(w)) == wt_views(v).push((w.path@, w.branch@)),
{
    assert(wt_views(v.push(w)) =~= wt_views(v).push((w.path@, w.branch@)));
}

/// A parsed worktree never carries a primary branch.
proof fn lemma_parsed_branch_not_primary(l: Seq<char>)
    ensures
        spec_parse_wt_line(l) matches Some(pb) ==> pb.1 != "main"@ && pb.1 != "master"@,
{
}

/// Parse a worktree listing: one worktree per well-formed line,
/// skipping bare markers, malformed lines, and the primary
/// (`main`/`master`) branches, which are never surfaced as worktrees.
pub fn parse_worktrees(worktrees_str: &str) -> (r: Vec<WorktreeInfo>)
    ensures
        wt_views(r@) == spec_parse_worktrees(worktrees_str@),
        forall|k: int|
            0 <= k < r@.len() ==> (#[trigger] r@[k].branch@) != "main"@ && r@[k].branch@
                != "master"@,
{
    let n = worktrees_str.unicode_len();
    let mut out: Vec<WorktreeInfo> = Vec::new();
    let mut pos: usize = 0;
    let ghost mut lines_done: Seq<Seq<char>> = Seq::empty();
    proof {
        assert(wt_views(out@) =~= spec_parse_wt_lines(lines_done));
        assert(spec_lines(worktrees_str@) =~= lines_done + spec_lines_from(worktrees_str@, 0));
    }
    while pos < n
        invariant
            n == worktrees_str@.len(),
            pos <= n,
            spec_lines(worktrees_str@) == lines_done + spec_lines_from(
                worktrees_str@,
                pos as int,
            ),
            wt_views(out@) == spec_parse_wt_lines(lines_done),
            forall|k: int|
                0 <= k < out@.len() ==> (#[trigger] out@[k].branch@) != "main"@ && out@[k].branch@
                    != "master"@,
        decreases n - pos,
    {
        let ghost s = worktrees_str@;
        let j = nl_find(worktrees_str, pos);
        let mut line_end = j;
        if line_end > pos && worktrees_str.get_char(line_end - 1) == '\r' {
            line_end = line_end - 1;
        }
        let line = worktrees_str.substring_char(pos, line_end);
        proof {
            assert(line@ =~= strip_cr(s.subrange(pos as int, j as int)));
            if j == n {
                assert(s.subrange(pos as int, j as int) =~= s.subrange(pos as int, s.len() as int));
            }
        }
        let ghost out_before = out@;
        match parse_worktree_line(line) {
            Option::Some(w) => {
                proof {
                    lemma_parsed_branch_not_primary(line@);
                    lemma_wt_views_push(out_before, w);
                    assert(w.branch@ != "main"@ && w.branch@ != "master"@);
                }
                out.push(w);
                assert(out@ == out_before.push(w));
                assert forall|k: int| 0 <= k < out@.len() implies (#[trigger] out@[k].branch@)
                    != "main"@ && out@[k].branch@ != "master"@ by {
                    if k < out_before.len() {
                        assert(out@[k] == out_before[k]);
                    } else {
                        assert(out@[k] == w);
                    }
                }
            },
            Option::None => {},
        }
        proof {
            lemma_parse_wt_lines_push(lines_done, line@);
            lines_done = lines_done.push(line@);
        }
        if j < n {
            pos = j + 1;
        } else {
            pos = n;
        }
    }
    proof {
        assert(spec_lines_from(worktrees_str@, pos as int) =~= Seq::<Seq<char>>::empty());
        assert(spec_lines(worktrees_str@) =~= lines_done);
    }
    out
}

/// What the upstream relationship of a branch means: with no upstream
/// configured, a same-named remote branch means the branch is not
/// tracking, else it was never pushed; with an upstream, the
/// ahead/behind counts decide.
pub open spec fn spec_classify_remote(
    upstream_counts: Option<(usize, usize)>,
    remote_branch_exists: bool,
) -> RemoteStatus {
    match upstream_counts {
        Some(c) => {
            if c.0 == 0 && c.1 == 0 {
                RemoteStatus::UpToDate
            } else if c.1 == 0 {
                RemoteStatus::Ahead(c.0)
            } else if c.0 == 0 {
                RemoteStatus::Behind(c.1)
            } else {
                RemoteStatus::Diverged(c.0, c.1)
            }
        },
        None => {
            if remote_branch_exists {
                RemoteStatus::NotTracking
            } else {
                RemoteStatus::NotPushed
            }
        },
    }
}

/// Classify the remote axis from the upstream ahead/behind counts (if
/// an upstream is configured) and the presence of a same-named remote
/// branch.
pub fn classify_remote_status(
    upstream_counts: Option<(usize, usize)>,
    remote_branch_exists: bool,
) -> (r: RemoteStatus)
    ensures
        r == spec_classify_remote(upstream_counts, remote_branch_exists),
{
    match upstream_counts {
        Option::Some((ahead, behind)) => {
            if ahead == 0 && behind == 0 {
                RemoteStatus::UpToDate
            } else if behind == 0 {
                RemoteStatus::Ahead(ahead)
            } else if ahead == 0 {
                RemoteStatus::Behind(behind)
            } else {
                RemoteStatus::Diverged(ahead, behind)
            }
        },
        Option::None => {
            if remote_branch_exists {
                RemoteStatus::NotTracking
            } else {
                RemoteStatus::NotPushed
            }
        },
    }
}

/// The merge heuristic: an absent remote-tracking branch on a commit
/// more than a week old is a strong squash-merge signal; a present
/// one means not merged; otherwise nothing can be said.
pub open spec fn spec_classify_merge(remote_branch_exists: bool, ts: int, now: int) -> MergeStatus {
    if !remote_branch_exists && spec_days_old(ts, now) > 7 {
        MergeStatus::LikelyMerged
    } else if remote_branch_exists {
        MergeStatus::NotMerged
    } else {
        MergeStatus::Unknown
    }
}

/// Classify the merge axis; purely heuristic and never a licence to
/// delete without the lifecycle manager's safety checks.
pub fn classify_merge_status(remote_branch_exists: bool, commit_timestamp: i64, now: i64) -> (r:
    MergeStatus)
    ensures
        r == spec_classify_merge(remote_branch_exists, commit_timestamp as int, now as int),
{
    if remote_branch_exists {
        return MergeStatus::NotMerged;
    }
    let (neg, mag) = days_old_parts(commit_timestamp, now);
    if !neg && mag > 7 {
        MergeStatus::LikelyMerged
    } else {
        MergeStatus::Unknown
    }
}

/// The remote classifier never answers `NoRemote`: that value is
/// reserved for worktrees no remote question could be asked about.
pub proof fn lemma_classify_remote_never_no_remote(
    upstream_counts: Option<(usize, usize)>,
    remote_branch_exists: bool,
)
    ensures
        !(spec_classify_remote(upstream_counts, remote_branch_exists) is NoRemote),
{
}

/// The merge heuristic never answers `Merged`: a verified merge is
/// not something the heuristic can establish.
pub proof fn lemma_classify_merge_never_merged(remote_branch_exists: bool, ts: int, now: int)
    ensures
        !(spec_classify_merge(remote_branch_exists, ts, now) is Merged),
{
}

/// The last path segment, or `fallback` when there is none.
pub open spec fn spec_basename_or(path: Seq<char>, fallback: Seq<char>) -> Seq<char> {
    let t = match spec_rfind(path, '/') {
        Some(i) => path.skip(i + 1),
        None => path,
    };
    if t.len() == 0 {
        fallback
    } else {
        t
    }
}

pub(crate) fn basename_or<'a>(path: &'a str, fallback: &'a str) -> (r: &'a str)
    ensures
        r@ == spec_basename_or(path@, fallback@),
{
    let n = path.unicode_len();
    match rfind_char(path, '/') {
        Option::Some(i) => {
            proof {
                lemma_rfind_from_range(path@, '/', path@.len() - 1);
            }
            let t = path.substring_char(i + 1, n);
            assert(t@ =~= path@.skip(i + 1));
            if t.unicode_len() == 0 {
                fallback
            } else {
                t
            }
        },
        Option::None => {
            if n == 0 {
                fallback
            } else {
                path
            }
        },
    }
}

#[verifier::external_type_specification]
#[verifier::external_body]
pub struct ExGitRepository(git2::Repository);

#[verifier::external_type_specification]
#[verifier::external_body]
pub struct ExGitStatus(git2::Status);

/// The seam behind which the git engine sits: primitive, typed git
/// operations. Callers must not depend on how an implementation
/// performs them. Nothing is promised of the outcomes: the verified
/// logic above this trait holds for every answer an implementation
/// can give.
pub trait GitClient: Sized {
    /// Open the repository at `path`.
    fn open_repo(&self, path: &str) -> (r: Result<git2::Repository, GitError>)
        ensures
            r matches Err(e) ==> e is RepoOpenFailed,
    ;

    /// A configuration value of the repository, as text.
    fn config_get(&self, repo: &git2::Repository, key: &str) -> (r: Result<String, GitError>)
        ensures
            r matches Err(e) ==> e is ConfigMissing,
    ;

    /// The names under which worktrees are registered.
    fn worktree_names(&self, repo: &git2::Repository) -> (r: Result<Vec<String>, GitError>)
        ensures
            r matches Err(e) ==> e is IoFailure,
    ;

    /// One listing line, `<path> [<branch>]`, for a registered
    /// worktree; one whose directory was deleted externally is listed
    /// under its registration name, never silently skipped.
    fn worktree_line(&self, repo: &git2::Repository, name: &str) -> Option<String>;

    /// The per-file change records of the repository's working tree.
    fn status_entries(&self, repo: &git2::Repository) -> (r: Result<Vec<FileChange>, GitError>)
        ensures
            r matches Err(e) ==> e is IoFailure,
    ;

    /// The commit time, in seconds since the epoch, of a revision.
    fn commit_time(&self, repo: &git2::Repository, rev: &str) -> (r: Result<i64, GitError>)
        ensures
            r matches Err(e) ==> e is RevisionNotFound,
    ;

    /// The first line of a revision's commit message.
    fn commit_summary(&self, repo: &git2::Repository, rev: &str) -> (r: Result<String, GitError>)
        ensures
            r matches Err(e) ==> e is RevisionNotFound,
    ;

    /// Whether a filesystem path exists.
    fn path_exists(&self, path: &str) -> bool;

    /// The modification time of a directory, in seconds since the
    /// epoch.
    fn dir_mtime(&self, path: &str) -> (r: Result<i64, GitError>)
        ensures
            r matches Err(e) ==> e is IoFailure,
    ;

    /// The creation time of a directory, where the filesystem records
    /// one.
    fn dir_birth_time(&self, path: &str) -> (r: Result<Option<i64>, GitError>)
        ensures
            r matches Err(e) ==> e is IoFailure,
    ;

    /// Whether a local branch of this name exists.
    fn local_branch_exists(&self, repo: &git2::Repository, name: &str) -> bool;

    /// Whether a remote-tracking branch of this full name (such as
    /// `origin/main`) exists.
    fn remote_branch_exists(&self, repo: &git2::Repository, name: &str) -> bool;

    /// The `(ahead, behind)` commit counts of a branch against its
    /// upstream; `Ok(None)` when no upstream is configured.
    fn upstream_ahead_behind(&self, repo: &git2::Repository, branch: &str) -> (r: Result<
        Option<(usize, usize)>,
        GitError,
    >)
        ensures
            r matches Err(e) ==> e is RevisionNotFound || e is IoFailure,
    ;

    /// The URL of a named remote, `None` when the remote is absent.
    fn remote_url(&self, repo: &git2::Repository, name: &str) -> Option<String>;

    /// Register and create a worktree at `path`, at the default
    /// commit.
    fn worktree_add(&self, repo: &git2::Repository, name: &str, path: &str) -> (r: Result<
        (),
        GitError,
    >)
        ensures
            r matches Err(e) ==> e is IoFailure,
    ;

    /// Register and create a worktree at `path`, bound to an existing
    /// local branch.
    fn worktree_add_on_branch(
        &self,
        repo: &git2::Repository,
        name: &str,
        path: &str,
        branch: &str,
    ) -> (r: Result<(), GitError>)
        ensures
            r matches Err(e) ==> e is RevisionNotFound || e is IoFailure,
    ;

    /// Force-checkout the repository's HEAD into its working tree.
    fn checkout_head_force(&self, repo: &git2::Repository) -> (r: Result<(), GitError>)
        ensures
            r matches Err(e) ==> e is IoFailure,
    ;

    /// Create a local branch pointing at the commit a revision
    /// resolves to.
    fn branch_create_from(
        &self,
        repo: &git2::Repository,
        new_branch: &str,
        source_rev: &str,
    ) -> (r: Result<(), GitError>)
        ensures
            r matches Err(e) ==> e is RevisionNotFound || e is IoFailure,
    ;

    /// Force-checkout the tree of a revision.
    fn checkout_tree_force(&self, repo: &git2::Repository, rev: &str) -> (r: Result<(), GitError>)
        ensures
            r matches Err(e) ==> e is RevisionNotFound || e is IoFailure,
    ;

    /// Point the repository's HEAD at a reference name.
    fn set_head(&self, repo: &git2::Repository, refname: &str) -> (r: Result<(), GitError>)
        ensures
            r matches Err(e) ==> e is IoFailure,
    ;

    /// Prune a registered worktree, forced, removing its working
    /// directory too; `WorktreeNotFound` when no such registration
    /// exists.
    fn worktree_prune(&self, repo: &git2::Repository, name: &str) -> (r: Result<(), GitError>)
        ensures
            r matches Err(e) ==> e is WorktreeNotFound || e is IoFailure,
    ;

    /// Remove a directory and everything under it.
    fn remove_dir_recursive(&self, path: &str) -> (r: Result<(), GitError>)
        ensures
            r matches Err(e) ==> e is IoFailure,
    ;

    /// The names of the repository's remotes.
    fn remote_names(&self, repo: &git2::Repository) -> (r: Result<Vec<String>, GitError>)
        ensures
            r matches Err(e) ==> e is IoFailure,
    ;

    /// Fetch from a named remote; absent remotes are skipped.
    fn fetch_remote(&self, repo: &git2::Repository, name: &str) -> (r: Result<(), GitError>)
        ensures
            r matches Err(e) ==> e is IoFailure,
    ;

    /// Whether what was last fetched can fast-forward the current
    /// branch.
    fn fast_forward_possible(&self, repo: &git2::Repository) -> (r: Result<bool, GitError>)
        ensures
            r matches Err(e) ==> e is RevisionNotFound || e is IoFailure,
    ;

    /// Fast-forward a branch reference to what was last fetched and
    /// check it out.
    fn fast_forward_to_fetch_head(&self, repo: &git2::Repository, refname: &str) -> (r: Result<
        (),
        GitError,
    >)
        ensures
            r matches Err(e) ==> e is RevisionNotFound || e is IoFailure,
    ;
}

/// The production client: every operation backed by the `git2`
/// library.
pub struct SystemGitClient;

/// Relies on git2::Repository::open.
#[verifier::external_body]
fn sys_open_repo(path: &str) -> (r: Result<git2::Repository, GitError>)
    ensures
        r matches Err(e) ==> e is RepoOpenFailed,
{
    git2::Repository::open(path).map_err(|_| GitError::RepoOpenFailed)
}

/// Relies on git2::Repository::config and git2::Config::get_string.
#[verifier::external_body]
fn sys_config_get(repo: &git2::Repository, key: &str) -> (r: Result<String, GitError>)
    ensures
        r matches Err(e) ==> e is ConfigMissing,
{
    let config = repo.config().map_err(|_| GitError::ConfigMissing)?;
    config.get_string(key).map_err(|_| GitError::ConfigMissing)
}

/// Relies on git2::Repository::worktrees; names that are not
/// valid text are skipped.
#[verifier::external_body]
fn sys_worktree_names(repo: &git2::Repository) -> (r: Result<Vec<String>, GitError>)
    ensures
        r matches Err(e) ==> e is IoFailure,
{
    let names = repo.worktrees().map_err(|_| GitError::IoFailure)?;
    Ok(names.iter().filter_map(|s| s.ok().flatten().map(|x| x.to_string())).collect())
}

/// Relies on git2::Repository::find_worktree, git2::Worktree::path,
/// std::path::Path::exists, git2::Repository::open,
/// git2::Repository::head and git2::Reference::shorthand: the
/// listing line of one registered worktree. A worktree whose
/// directory was deleted externally is still listed, under its
/// registration name, so that classification can detect it as
/// missing rather than assume it absent.
#[verifier::external_body]
fn sys_worktree_line(repo: &git2::Repository, name: &str) -> Option<String> {
    let wt = repo.find_worktree(name).ok()?;
    let path = wt.path();
    let p = path.to_string_lossy();
    if !path.exists() {
        return Some(format!("{} [{}]", p, name));
    }
    let label = match git2::Repository::open(path) {
        Ok(r) => match r.head() {
            Ok(h) => h.shorthand().map(|b| b.to_string()).unwrap_or("detached".to_string()),
            Err(_) => "unknown".to_string(),
        },
        Err(_) => "missing".to_string(),
    };
    Some(format!("{} [{}]", p, label))
}

/// Relies on git2::Repository::statuses (untracked files included,
/// ignored files excluded), git2::StatusEntry::status and
/// git2::StatusEntry::path: one raw `(flags, path)` pair per
/// reported file.
#[verifier::external_body]
fn sys_status_list(repo: &git2::Repository) -> (r: Result<Vec<(git2::Status, String)>, GitError>)
    ensures
        r matches Err(e) ==> e is IoFailure,
{
    let mut opts = git2::StatusOptions::new();
    opts.include_untracked(true).include_ignored(false);
    let statuses = repo.statuses(Some(&mut opts)).map_err(|_| GitError::IoFailure)?;
    Ok(statuses.iter().map(
        |e| (e.status(), match e.path() { Ok(p) => p.to_string(), Err(_) => "<unknown>".to_string() }),
    ).collect())
}

/// Relies on git2::Status::contains: each change marker of one raw
/// status value, as a plain record.
#[verifier::external_body]
fn sys_status_to_change(s: &git2::Status, path: &String) -> FileChange {
    FileChange {
        index_new: s.contains(git2::Status::INDEX_NEW),
        index_modified: s.contains(git2::Status::INDEX_MODIFIED),
        index_deleted: s.contains(git2::Status::INDEX_DELETED),
        index_renamed: s.contains(git2::Status::INDEX_RENAMED),
        index_typechange: s.contains(git2::Status::INDEX_TYPECHANGE),
        wt_new: s.contains(git2::Status::WT_NEW),
        wt_modified: s.contains(git2::Status::WT_MODIFIED),
        wt_deleted: s.contains(git2::Status::WT_DELETED),
        wt_renamed: s.contains(git2::Status::WT_RENAMED),
        wt_typechange: s.contains(git2::Status::WT_TYPECHANGE),
        path: path.clone(),
    }
}

/// Relies on git2::Repository::revparse_single,
/// git2::Object::as_commit and git2::Commit::time.
#[verifier::external_body]
fn sys_commit_time(repo: &git2::Repository, rev: &str) -> (r: Result<i64, GitError>)
    ensures
        r matches Err(e) ==> e is RevisionNotFound,
{
    let obj = repo.revparse_single(rev).map_err(|_| GitError::RevisionNotFound)?;
    let commit = obj.as_commit().ok_or(GitError::RevisionNotFound)?;
    Ok(commit.time().seconds())
}

/// Relies on git2::Repository::revparse_single,
/// git2::Object::as_commit and git2::Commit::summary.
#[verifier::external_body]
fn sys_commit_summary(repo: &git2::Repository, rev: &str) -> (r: Result<String, GitError>)
    ensures
        r matches Err(e) ==> e is RevisionNotFound,
{
    let obj = repo.revparse_single(rev).map_err(|_| GitError::RevisionNotFound)?;
    let commit = obj.as_commit().ok_or(GitError::RevisionNotFound)?;
    match commit.summary() {
        Ok(Some(s)) => Ok(s.to_string()),
        _ => Ok("<no message>".to_string()),
    }
}

/// Relies on std::path::Path::exists; the answer depends on the
/// filesystem at the moment of the call.
#[verifier::external_body]
fn sys_path_exists(path: &str) -> bool {
    std::path::Path::new(path).exists()
}

/// Relies on std::path::Path::metadata and
/// std::fs::Metadata::modified.
#[verifier::external_body]
fn sys_dir_mtime(path: &str) -> (r: Result<i64, GitError>)
    ensures
        r matches Err(e) ==> e is IoFailure,
{
    let md = std::path::Path::new(path).metadata().map_err(|_| GitError::IoFailure)?;
    let mtime = md.modified().map_err(|_| GitError::IoFailure)?;
    let d = mtime.duration_since(std::time::UNIX_EPOCH).map_err(|_| GitError::IoFailure)?;
    Ok(d.as_secs() as i64)
}

/// Relies on std::path::Path::metadata and
/// std::fs::Metadata::created; filesystems without a birth time
/// yield `None`.
#[verifier::external_body]
fn sys_dir_birth_time(path: &str) -> (r: Result<Option<i64>, GitError>)
    ensures
        r matches Err(e) ==> e is IoFailure,
{
    let md = std::path::Path::new(path).metadata().map_err(|_| GitError::IoFailure)?;
    match md.created() {
        Ok(t) => match t.duration_since(std::time::UNIX_EPOCH) {
            Ok(d) => Ok(Some(d.as_secs() as i64)),
            Err(_) => Ok(None),
        },
        Err(_) => Ok(None),
    }
}

/// Relies on git2::Repository::find_branch with the local branch
/// kind.
#[verifier::external_body]
fn sys_local_branch_exists(repo: &git2::Repository, name: &str) -> bool {
    repo.find_branch(name, git2::BranchType::Local).is_ok()
}

/// Relies on git2::Repository::find_branch with the remote branch
/// kind.
#[verifier::external_body]
fn sys_remote_branch_exists(repo: &git2::Repository, name: &str) -> bool {
    repo.find_branch(name, git2::BranchType::Remote).is_ok()
}

/// Relies on git2::Repository::find_branch, git2::Branch::upstream,
/// git2::Reference::target and
/// git2::Repository::graph_ahead_behind.
#[verifier::external_body]
fn sys_upstream_ahead_behind(repo: &git2::Repository, branch: &str) -> (r: Result<
    Option<(usize, usize)>,
    GitError,
>)
    ensures
        r matches Err(e) ==> e is RevisionNotFound || e is IoFailure,
{
    let local = repo.find_branch(branch, git2::BranchType::Local)
        .map_err(|_| GitError::RevisionNotFound)?;
    let upstream = match local.upstream() {
        Ok(u) => u,
        Err(_) => return Ok(None),
    };
    let a = local.get().target().ok_or(GitError::RevisionNotFound)?;
    let b = upstream.get().target().ok_or(GitError::RevisionNotFound)?;
    let counts = repo.graph_ahead_behind(a, b).map_err(|_| GitError::IoFailure)?;
    Ok(Some(counts))
}

/// Relies on git2::Repository::find_remote and git2::Remote::url.
#[verifier::external_body]
fn sys_remote_url(repo: &git2::Repository, name: &str) -> Option<String> {
    let remote = repo.find_remote(name).ok()?;
    remote.url().ok().map(|u| u.to_string())
}

/// Relies on git2::Repository::worktree with default options.
#[verifier::external_body]
fn sys_worktree_add(repo: &git2::Repository, name: &str, path: &str) -> (r: Result<
    (),
    GitError,
>)
    ensures
        r matches Err(e) ==> e is IoFailure,
{
    let opts = git2::WorktreeAddOptions::new();
    repo.worktree(name, std::path::Path::new(path), Some(&opts))
        .map_err(|_| GitError::IoFailure)?;
    Ok(())
}

/// Relies on git2::Repository::find_branch,
/// git2::WorktreeAddOptions::reference and
/// git2::Repository::worktree.
#[verifier::external_body]
fn sys_worktree_add_on_branch(
    repo: &git2::Repository,
    name: &str,
    path: &str,
    branch: &str,
) -> (r: Result<(), GitError>)
    ensures
        r matches Err(e) ==> e is RevisionNotFound || e is IoFailure,
{
    let branch_ref = repo.find_branch(branch, git2::BranchType::Local)
        .map_err(|_| GitError::RevisionNotFound)?;
    let mut opts = git2::WorktreeAddOptions::new();
    opts.reference(Some(branch_ref.get()));
    repo.worktree(name, std::path::Path::new(path), Some(&opts))
        .map_err(|_| GitError::IoFailure)?;
    Ok(())
}

/// Relies on git2::Repository::checkout_head with a forced
/// checkout.
#[verifier::external_body]
fn sys_checkout_head_force(repo: &git2::Repository) -> (r: Result<(), GitError>)
    ensures
        r matches Err(e) ==> e is IoFailure,
{
    let mut cb = git2::build::CheckoutBuilder::new();
    cb.force();
    repo.checkout_head(Some(&mut cb)).map_err(|_| GitError::IoFailure)
}

/// Relies on git2::Repository::revparse_single,
/// git2::Object::as_commit and git2::Repository::branch.
#[verifier::external_body]
fn sys_branch_create_from(
    repo: &git2::Repository,
    new_branch: &str,
    source_rev: &str,
) -> (r: Result<(), GitError>)
    ensures
        r matches Err(e) ==> e is RevisionNotFound || e is IoFailure,
{
    let obj = repo.revparse_single(source_rev).map_err(|_| GitError::RevisionNotFound)?;
    let commit = obj.as_commit().ok_or(GitError::RevisionNotFound)?;
    repo.branch(new_branch, commit, false).map_err(|_| GitError::IoFailure)?;
    Ok(())
}

/// Relies on git2::Repository::revparse_single and
/// git2::Repository::checkout_tree with a forced checkout.
#[verifier::external_body]
fn sys_checkout_tree_force(repo: &git2::Repository, rev: &str) -> (r: Result<(), GitError>)
    ensures
        r matches Err(e) ==> e is RevisionNotFound || e is IoFailure,
{
    let obj = repo.revparse_single(rev).map_err(|_| GitError::RevisionNotFound)?;
    let mut cb = git2::build::CheckoutBuilder::new();
    cb.force();
    repo.checkout_tree(&obj, Some(&mut cb)).map_err(|_| GitError::IoFailure)
}

/// Relies on git2::Repository::set_head.
#[verifier::external_body]
fn sys_set_head(repo: &git2::Repository, refname: &str) -> (r: Result<(), GitError>)
    ensures
        r matches Err(e) ==> e is IoFailure,
{
    repo.set_head(refname).map_err(|_| GitError::IoFailure)
}

/// Relies on git2::Repository::find_worktree and
/// git2::Worktree::prune, pruning even a valid worktree and
/// removing its working directory.
#[verifier::external_body]
fn sys_worktree_prune(repo: &git2::Repository, name: &str) -> (r: Result<(), GitError>)
    ensures
        r matches Err(e) ==> e is WorktreeNotFound || e is IoFailure,
{
    let wt = repo.find_worktree(name).map_err(|_| GitError::WorktreeNotFound)?;
    let mut opts = git2::WorktreePruneOptions::new();
    opts.valid(true).working_tree(true);
    wt.prune(Some(&mut opts)).map_err(|_| GitError::IoFailure)
}

/// Relies on remove_dir_all::remove_dir_all.
#[verifier::external_body]
fn sys_remove_dir_recursive(path: &str) -> (r: Result<(), GitError>)
    ensures
        r matches Err(e) ==> e is IoFailure,
{
    remove_dir_all::remove_dir_all(path).map_err(|_| GitError::IoFailure)
}

/// Relies on git2::Repository::remotes; names that are not valid
/// text are skipped.
#[verifier::external_body]
fn sys_remote_names(repo: &git2::Repository) -> (r: Result<Vec<String>, GitError>)
    ensures
        r matches Err(e) ==> e is IoFailure,
{
    let names = repo.remotes().map_err(|_| GitError::IoFailure)?;
    Ok(names.iter().filter_map(|s| s.ok().flatten().map(|x| x.to_string())).collect())
}

/// Relies on git2::Repository::find_remote and
/// git2::Remote::fetch with default options; as in the native
/// listing, a name that no longer resolves is skipped. No credential
/// callback is configured: this build of the git engine carries no
/// ssh or https transport, so remotes needing agent authentication
/// fail the fetch.
#[verifier::external_body]
fn sys_fetch_remote(repo: &git2::Repository, name: &str) -> (r: Result<(), GitError>)
    ensures
        r matches Err(e) ==> e is IoFailure,
{
    match repo.find_remote(name) {
        Ok(mut remote) => remote.fetch::<&str>(&[], None, None)
            .map_err(|_| GitError::IoFailure),
        Err(_) => Ok(()),
    }
}

/// Relies on git2::Repository::find_reference for `FETCH_HEAD`,
/// git2::Repository::reference_to_annotated_commit and
/// git2::Repository::merge_analysis.
#[verifier::external_body]
fn sys_fast_forward_possible(repo: &git2::Repository) -> (r: Result<bool, GitError>)
    ensures
        r matches Err(e) ==> e is RevisionNotFound || e is IoFailure,
{
    let fetch_head = repo.find_reference("FETCH_HEAD")
        .map_err(|_| GitError::RevisionNotFound)?;
    let fc = repo.reference_to_annotated_commit(&fetch_head)
        .map_err(|_| GitError::RevisionNotFound)?;
    let (analysis, _) = repo.merge_analysis(&[&fc]).map_err(|_| GitError::IoFailure)?;
    Ok(analysis.is_fast_forward())
}

/// Relies on git2::Repository::find_reference,
/// git2::Repository::reference_to_annotated_commit,
/// git2::Reference::set_target, git2::Repository::set_head and
/// git2::Repository::checkout_head with a forced checkout.
#[verifier::external_body]
fn sys_fast_forward_to_fetch_head(repo: &git2::Repository, refname: &str) -> (r: Result<
    (),
    GitError,
>)
    ensures
        r matches Err(e) ==> e is RevisionNotFound || e is IoFailure,
{
    let fetch_head = repo.find_reference("FETCH_HEAD")
        .map_err(|_| GitError::RevisionNotFound)?;
    let fc = repo.reference_to_annotated_commit(&fetch_head)
        .map_err(|_| GitError::RevisionNotFound)?;
    let mut r = repo.find_reference(refname).map_err(|_| GitError::RevisionNotFound)?;
    r.set_target(fc.id(), "fast-forward").map_err(|_| GitError::IoFailure)?;
    repo.set_head(refname).map_err(|_| GitError::IoFailure)?;
    let mut cb = git2::build::CheckoutBuilder::new();
    cb.force();
    repo.checkout_head(Some(&mut cb)).map_err(|_| GitError::IoFailure)
}

impl GitClient for SystemGitClient {
    fn open_repo(&self, path: &str) -> Result<git2::Repository, GitError> {
        sys_open_repo(path)
    }

    fn config_get(&self, repo: &git2::Repository, key: &str) -> Result<String, GitError> {
        sys_config_get(repo, key)
    }

    fn worktree_names(&self, repo: &git2::Repository) -> Result<Vec<String>, GitError> {
        sys_worktree_names(repo)
    }

    fn worktree_line(&self, repo: &git2::Repository, name: &str) -> Option<String> {
        sys_worktree_line(repo, name)
    }

    fn status_entries(&self, repo: &git2::Repository) -> Result<Vec<FileChange>, GitError> {
        let raw = match sys_status_list(repo) {
            Result::Ok(v) => v,
            Result::Err(e) => {
                return Result::Err(e);
            },
        };
        let mut out: Vec<FileChange> = Vec::new();
        let mut i: usize = 0;
        while i < raw.len()
            decreases raw@.len() - i,
        {
            let entry = &raw[i];
            out.push(sys_status_to_change(&entry.0, &entry.1));
            i = i + 1;
        }
        Result::Ok(out)
    }

    fn commit_time(&self, repo: &git2::Repository, rev: &str) -> Result<i64, GitError> {
        sys_commit_time(repo, rev)
    }

    fn commit_summary(&self, repo: &git2::Repository, rev: &str) -> Result<String, GitError> {
        sys_commit_summary(repo, rev)
    }

    fn path_exists(&self, path: &str) -> bool {
        sys_path_exists(path)
    }

    fn dir_mtime(&self, path: &str) -> Result<i64, GitError> {
        sys_dir_mtime(path)
    }

    fn dir_birth_time(&self, path: &str) -> Result<Option<i64>, GitError> {
        sys_dir_birth_time(path)
    }

    fn local_branch_exists(&self, repo: &git2::Repository, name: &str) -> bool {
        sys_local_branch_exists(repo, name)
    }

    fn remote_branch_exists(&self, repo: &git2::Repository, name: &str) -> bool {
        sys_remote_branch_exists(repo, name)
    }

    fn upstream_ahead_behind(&self, repo: &git2::Repository, branch: &str) -> Result<
        Option<(usize, usize)>,
        GitError,
    > {
        sys_upstream_ahead_behind(repo, branch)
    }

    fn remote_url(&self, repo: &git2::Repository, name: &str) -> Option<String> {
        sys_remote_url(repo, name)
    }

    fn worktree_add(&self, repo: &git2::Repository, name: &str, path: &str) -> Result<
        (),
        GitError,
    > {
        sys_worktree_add(repo, name, path)
    }

    fn worktree_add_on_branch(
        &self,
        repo: &git2::Repository,
        name: &str,
        path: &str,
        branch: &str,
    ) -> Result<(), GitError> {
        sys_worktree_add_on_branch(repo, name, path, branch)
    }

    fn checkout_head_force(&self, repo: &git2::Repository) -> Result<(), GitError> {
        sys_checkout_head_force(repo)
    }

    fn branch_create_from(
        &self,
        repo: &git2::Repository,
        new_branch: &str,
        source_rev: &str,
    ) -> Result<(), GitError> {
        sys_branch_create_from(repo, new_branch, source_rev)
    }

    fn checkout_tree_force(&self, repo: &git2::Repository, rev: &str) -> Result<(), GitError> {
        sys_checkout_tree_force(repo, rev)
    }

    fn set_head(&self, repo: &git2::Repository, refname: &str) -> Result<(), GitError> {
        sys_set_head(repo, refname)
    }

    fn worktree_prune(&self, repo: &git2::Repository, name: &str) -> Result<(), GitError> {
        sys_worktree_prune(repo, name)
    }

    fn remove_dir_recursive(&self, path: &str) -> Result<(), GitError> {
        sys_remove_dir_recursive(path)
    }

    fn remote_names(&self, repo: &git2::Repository) -> Result<Vec<String>, GitError> {
        sys_remote_names(repo)
    }

    fn fetch_remote(&self, repo: &git2::Repository, name: &str) -> Result<(), GitError> {
        sys_fetch_remote(repo, name)
    }

    fn fast_forward_possible(&self, repo: &git2::Repository) -> Result<bool, GitError> {
        sys_fast_forward_possible(repo)
    }

    fn fast_forward_to_fetch_head(&self, repo: &git2::Repository, refname: &str) -> Result<
        (),
        GitError,
    > {
        sys_fast_forward_to_fetch_head(repo, refname)
    }
}


/// What the add operation decides to do, given what it observed of
/// the repository and filesystem.
#[derive(Debug, Clone, Copy, PartialEq, Eq, Structural)]
pub enum AddPlan {
    FailPathExists,
    FailBranchExists,
    ReuseExisting,
    FailSourceNotFound,
    CreateNew,
}

/// The add decision: an existing target path always wins; an existing
/// branch fails without the reuse flag and is reused with it; a fresh
/// branch needs its source to exist locally or on the primary remote.
pub open spec fn spec_plan_add(
    path_exists: bool,
    branch_exists: bool,
    reuse: bool,
    source_local: bool,
    source_remote: bool,
) -> AddPlan {
    if path_exists {
        AddPlan::FailPathExists
    } else if branch_exists && !reuse {
        AddPlan::FailBranchExists
    } else if branch_exists {
        AddPlan::ReuseExisting
    } else if !source_local && !source_remote {
        AddPlan::FailSourceNotFound
    } else {
        AddPlan::CreateNew
    }
}

/// Decide what an add will do from what was observed.
pub fn plan_add(
    path_exists: bool,
    branch_exists: bool,
    reuse: bool,
    source_local: bool,
    source_remote: bool,
) -> (r: AddPlan)
    ensures
        r == spec_plan_add(path_exists, branch_exists, reuse, source_local, source_remote),
{
    if path_exists {
        AddPlan::FailPathExists
    } else if branch_exists && !reuse {
        AddPlan::FailBranchExists
    } else if branch_exists {
        AddPlan::ReuseExisting
    } else if !source_local && !source_remote {
        AddPlan::FailSourceNotFound
    } else {
        AddPlan::CreateNew
    }
}

/// Which revision a fresh branch is created from, resolved inside
/// the new worktree's own repository: the local base branch when it
/// exists there, else its counterpart on the primary remote, else
/// nothing.
#[derive(Debug, Clone, Copy, PartialEq, Eq, Structural)]
pub enum SourceRefPlan {
    UseLocal,
    UseOriginRemote,
    NotFound,
}

/// The source-resolution decision of a fresh add.
pub open spec fn spec_plan_source_ref(local_exists: bool, remote_exists: bool) -> SourceRefPlan {
    if local_exists {
        SourceRefPlan::UseLocal
    } else if remote_exists {
        SourceRefPlan::UseOriginRemote
    } else {
        SourceRefPlan::NotFound
    }
}

/// Decide which revision the new branch starts from.
pub fn plan_source_ref(local_exists: bool, remote_exists: bool) -> (r: SourceRefPlan)
    ensures
        r == spec_plan_source_ref(local_exists, remote_exists),
{
    if local_exists {
        SourceRefPlan::UseLocal
    } else if remote_exists {
        SourceRefPlan::UseOriginRemote
    } else {
        SourceRefPlan::NotFound
    }
}

/// A branch that already exists fails the add exactly when the reuse
/// flag is off, and is reused exactly when it is on; the existing
/// target path is the one thing that overrides this.
pub proof fn lemma_plan_add_reuse(
    path_exists: bool,
    branch_exists: bool,
    reuse: bool,
    source_local: bool,
    source_remote: bool,
)
    ensures
        !path_exists && branch_exists ==> spec_plan_add(
            path_exists,
            branch_exists,
            reuse,
            source_local,
            source_remote,
        ) == if reuse {
            AddPlan::ReuseExisting
        } else {
            AddPlan::FailBranchExists
        },
{
}

/// Whether a configuration value denotes truth the way `core.bare`
/// does: its text, trimmed of whitespace, is exactly `true`.
pub fn config_value_is_true(v: &str) -> (r: bool)
    ensures
        r == (spec_trim(v@) == "true"@),
{
    str_eq(trim_ws(v), "true")
}

/// What the remove operation does after the forced prune was
/// attempted, given its outcome and whether the worktree's directory
/// still exists.
#[derive(Debug, Clone, Copy, PartialEq, Eq, Structural)]
pub enum RemovePlan {
    Done,
    RemoveDirectory,
    NothingLeft,
    Fail(GitError),
}

/// The remove decision: a successful prune is the end; a worktree the
/// registry does not know falls back to removing the directory if it
/// exists, and an already-missing directory is not an error; any
/// other prune failure is the result.
pub open spec fn spec_plan_remove(prune: Result<(), GitError>, dir_exists: bool) -> RemovePlan {
    match prune {
        Ok(_) => RemovePlan::Done,
        Err(e) => {
            if e is WorktreeNotFound {
                if dir_exists {
                    RemovePlan::RemoveDirectory
                } else {
                    RemovePlan::NothingLeft
                }
            } else {
                RemovePlan::Fail(e)
            }
        },
    }
}

/// Decide what a remove does from what the prune reported and what is
/// on disk.
pub fn plan_remove(prune: &Result<(), GitError>, dir_exists: bool) -> (r: RemovePlan)
    ensures
        r == spec_plan_remove(*prune, dir_exists),
{
    match prune {
        Result::Ok(()) => RemovePlan::Done,
        Result::Err(GitError::WorktreeNotFound) => {
            if dir_exists {
                RemovePlan::RemoveDirectory
            } else {
                RemovePlan::NothingLeft
            }
        },
        Result::Err(e) => RemovePlan::Fail(*e),
    }
}

/// A facade over one opened repository; the seat of the worktree
/// lifecycle.
pub struct GitRepository<T: GitClient> {
    git_client: T,
    repository: git2::Repository,
    path: String,
}

impl<T: GitClient> GitRepository<T> {
    /// The path this facade was opened at.
    pub closed spec fn spec_path(&self) -> Seq<char> {
        self.path@
    }

    /// Open the repository at `path`.
    pub fn new(path: &str, git_client: T) -> (r: Result<Self, GitError>)
        ensures
            r matches Ok(g) ==> g.spec_path() == path@,
            r matches Err(e) ==> e is RepoOpenFailed,
    {
        match git_client.open_repo(path) {
            Result::Ok(repository) => Result::Ok(
                GitRepository { git_client, repository, path: String::from_str(path) },
            ),
            Result::Err(_) => Result::Err(GitError::RepoOpenFailed),
        }
    }

    /// Whether the repository is bare, per its `core.bare`
    /// configuration: true exactly when the configuration text is
    /// `"true"` after trimming, per `config_value_is_true`; a missing
    /// value counts as not bare and is not an error.
    pub fn is_bare(&self) -> (r: Result<bool, GitError>)
        ensures
            r is Ok,
    {
        match self.git_client.config_get(&self.repository, "core.bare") {
            Result::Ok(v) => Result::Ok(config_value_is_true(v.as_str())),
            Result::Err(_) => Result::Ok(false),
        }
    }

    /// The listing text of the registered worktrees, one
    /// `<path> [<branch>]` line each.
    fn build_worktree_listing(&self) -> (r: Result<String, GitError>) {
        let names = match self.git_client.worktree_names(&self.repository) {
            Result::Ok(n) => n,
            Result::Err(e) => {
                return Result::Err(e);
            },
        };
        let mut out = String::new();
        let mut i: usize = 0;
        while i < names.len()
            decreases names@.len() - i,
        {
            match self.git_client.worktree_line(&self.repository, names[i].as_str()) {
                Option::Some(line) => {
                    out.append(line.as_str());
                    out.append("\n");
                },
                Option::None => {},
            }
            i = i + 1;
        }
        Result::Ok(out)
    }

    /// The work-in-progress worktrees of this repository; a listing
    /// failure yields the empty set rather than an error, and the
    /// primary branches are never among them.
    pub fn list_worktrees(&self) -> (r: Result<Vec<WorktreeInfo>, GitError>)
        ensures
            r is Ok,
            r matches Ok(v) ==> forall|k: int|
                0 <= k < v@.len() ==> (#[trigger] v@[k].branch@) != "main"@ && v@[k].branch@
                    != "master"@,
    {
        let text = match self.build_worktree_listing() {
            Result::Ok(t) => t,
            Result::Err(_) => {
                return Result::Ok(Vec::new());
            },
        };
        Result::Ok(parse_worktrees(text.as_str()))
    }

    /// The local status of the worktree at `worktree_path`: a missing
    /// directory is `Missing` before any git call; otherwise the
    /// porcelain classification of its change records.
    pub fn get_local_status(&self, worktree_path: &str) -> (r: Result<LocalStatus, GitError>)
        ensures
            r matches Err(e) ==> e is RepoOpenFailed,
            r matches Ok(s) ==> s is Missing || exists|p: Seq<char>|
                s == #[trigger] spec_local_status(p),
    {
        if !self.git_client.path_exists(worktree_path) {
            return Result::Ok(LocalStatus::Missing);
        }
        let wt_repo = match self.git_client.open_repo(worktree_path) {
            Result::Ok(x) => x,
            Result::Err(_) => {
                return Result::Err(GitError::RepoOpenFailed);
            },
        };
        let entries = match self.git_client.status_entries(&wt_repo) {
            Result::Ok(e) => e,
            Result::Err(_) => {
                return Result::Ok(LocalStatus::Missing);
            },
        };
        let text = build_porcelain(&entries);
        Result::Ok(parse_local_status(text.as_str()))
    }

    /// The remote status of a branch, classified from its upstream
    /// ahead/behind counts or, with no upstream configured, from the
    /// presence of a same-named branch on the primary remote.
    pub fn get_remote_status(&self, worktree_path: &str, branch: &str) -> (r: Result<
        RemoteStatus,
        GitError,
    >)
        ensures
            r matches Ok(st) ==> exists|c: Option<(usize, usize)>, rb: bool|
                st == #[trigger] spec_classify_remote(c, rb),
    {
        let wt_repo = match self.git_client.open_repo(worktree_path) {
            Result::Ok(x) => x,
            Result::Err(_) => {
                return Result::Err(GitError::RepoOpenFailed);
            },
        };
        let counts = match self.git_client.upstream_ahead_behind(&wt_repo, branch) {
            Result::Ok(c) => c,
            Result::Err(e) => {
                return Result::Err(e);
            },
        };
        match counts {
            Option::Some(c) => Result::Ok(classify_remote_status(Option::Some(c), false)),
            Option::None => {
                let mut full = String::from_str("origin/");
                full.append(branch);
                let rb = self.git_client.remote_branch_exists(&wt_repo, full.as_str());
                Result::Ok(classify_remote_status(Option::None, rb))
            },
        }
    }

    /// The merge heuristic for a branch, from the presence of its
    /// remote-tracking branch and the age of its last commit.
    pub fn get_merge_status(&self, worktree_path: &str, branch: &str, commit_timestamp: i64) -> (r:
        Result<MergeStatus, GitError>)
        ensures
            r matches Ok(st) ==> exists|rb: bool, now: int|
                0 <= now && st == #[trigger] spec_classify_merge(rb, commit_timestamp as int, now),
    {
        let wt_repo = match self.git_client.open_repo(worktree_path) {
            Result::Ok(x) => x,
            Result::Err(_) => {
                return Result::Err(GitError::RepoOpenFailed);
            },
        };
        let mut full = String::from_str("origin/");
        full.append(branch);
        let rb = self.git_client.remote_branch_exists(&wt_repo, full.as_str());
        let now = crate::clock::now_unix_seconds();
        Result::Ok(classify_merge_status(rb, commit_timestamp, now))
    }

    /// The commit time of a branch, resolved in the worktree's own
    /// repository.
    pub fn get_last_commit_timestamp(&self, worktree_path: &str, branch_name: &str) -> (r: Result<
        i64,
        GitError,
    >)
        ensures
            r matches Err(e) ==> e is RepoOpenFailed || e is RevisionNotFound,
    {
        let wt_repo = match self.git_client.open_repo(worktree_path) {
            Result::Ok(x) => x,
            Result::Err(_) => {
                return Result::Err(GitError::RepoOpenFailed);
            },
        };
        self.git_client.commit_time(&wt_repo, branch_name)
    }

    /// The first line of a branch's last commit message, resolved in
    /// the worktree's own repository.
    pub fn get_commit_summary(&self, worktree_path: &str, branch_name: &str) -> (r: Result<
        String,
        GitError,
    >)
        ensures
            r matches Err(e) ==> e is RepoOpenFailed || e is RevisionNotFound,
    {
        let wt_repo = match self.git_client.open_repo(worktree_path) {
            Result::Ok(x) => x,
            Result::Err(_) => {
                return Result::Err(GitError::RepoOpenFailed);
            },
        };
        self.git_client.commit_summary(&wt_repo, branch_name)
    }

    /// The modification time of a worktree's directory.
    pub fn get_directory_mtime(&self, worktree_path: &str) -> (r: Result<i64, GitError>)
        ensures
            r matches Err(e) ==> e is IoFailure,
    {
        self.git_client.dir_mtime(worktree_path)
    }

    /// The creation time of a worktree's directory, where recorded.
    pub fn get_worktree_birth_time(&self, worktree_path: &str) -> (r: Result<Option<i64>, GitError>)
        ensures
            r matches Err(e) ==> e is IoFailure,
    {
        self.git_client.dir_birth_time(worktree_path)
    }

    /// The URL of the `upstream` remote, else of `origin`, else
    /// `None`.
    pub fn get_upstream_remote_url(&self) -> (r: Result<Option<String>, GitError>)
        ensures
            r is Ok,
    {
        match self.git_client.remote_url(&self.repository, "upstream") {
            Option::Some(u) => Result::Ok(Option::Some(u)),
            Option::None => Result::Ok(self.git_client.remote_url(&self.repository, "origin")),
        }
    }

    /// Undo a partly created worktree: prune its registration (which
    /// removes the working directory) and delete whatever of the
    /// directory is left.
    fn rollback_worktree(&self, name: &str, path: &str) {
        let _ = self.git_client.worktree_prune(&self.repository, name);
        if self.git_client.path_exists(path) {
            let _ = self.git_client.remove_dir_recursive(path);
        }
    }

    /// Create a worktree for `branch` at `path`, from `base_branch`
    /// (default `main`). An existing target path fails; an existing
    /// branch fails without `reuse_existing_branch` and is checked
    /// out with it; a fresh branch is created from the base branch,
    /// resolved inside the new worktree's own repository. Any failure
    /// after the worktree directory was created rolls the creation
    /// back before returning.
    pub fn add_worktree(
        &self,
        branch: &str,
        path: &str,
        base_branch: Option<&str>,
        reuse_existing_branch: bool,
    ) -> (r: Result<(), GitError>)
        ensures
            r == Result::<(), GitError>::Err(GitError::BranchExists) ==> !reuse_existing_branch,
            r matches Err(e) ==> e is PathAlreadyExists || e is BranchExists
                || e is SourceBranchNotFound || e is RepoOpenFailed || e is RevisionNotFound
                || e is IoFailure,
    {
        let source_branch: &str = match base_branch {
            Option::Some(b) => b,
            Option::None => "main",
        };
        let mut origin_ref = String::from_str("origin/");
        origin_ref.append(source_branch);
        let path_exists = self.git_client.path_exists(path);
        let branch_exists = self.git_client.local_branch_exists(&self.repository, branch);
        let source_local = self.git_client.local_branch_exists(&self.repository, source_branch);
        let source_remote = self.git_client.remote_branch_exists(
            &self.repository,
            origin_ref.as_str(),
        );
        let plan = plan_add(path_exists, branch_exists, reuse_existing_branch, source_local, source_remote);
        match plan {
            AddPlan::FailPathExists => Result::Err(GitError::PathAlreadyExists),
            AddPlan::FailBranchExists => Result::Err(GitError::BranchExists),
            AddPlan::ReuseExisting => self.add_worktree_on_existing_branch(branch, path),
            AddPlan::FailSourceNotFound => Result::Err(GitError::SourceBranchNotFound),
            AddPlan::CreateNew => self.add_worktree_fresh(branch, path, source_branch, origin_ref.as_str()),
        }
    }

    /// Bind a new worktree to an existing local branch and check it
    /// out.
    fn add_worktree_on_existing_branch(&self, branch: &str, path: &str) -> (r: Result<
        (),
        GitError,
    >)
        ensures
            r matches Err(e) ==> e is RepoOpenFailed || e is RevisionNotFound || e is IoFailure,
    {
        let wt_name = basename_or(path, branch);
        if let Result::Err(e) = self.git_client.worktree_add_on_branch(
            &self.repository,
            wt_name,
            path,
            branch,
        ) {
            return Result::Err(e);
        }
        let wt_repo = match self.git_client.open_repo(path) {
            Result::Ok(x) => x,
            Result::Err(_) => {
                return Result::Err(GitError::RepoOpenFailed);
            },
        };
        self.git_client.checkout_head_force(&wt_repo)
    }

    /// Create a fresh branch from the base branch inside a new
    /// worktree; every failure past the directory's creation rolls
    /// back.
    fn add_worktree_fresh(
        &self,
        branch: &str,
        path: &str,
        source_branch: &str,
        origin_ref: &str,
    ) -> (r: Result<(), GitError>)
        ensures
            r matches Err(e) ==> e is RepoOpenFailed || e is RevisionNotFound || e is IoFailure
                || e is SourceBranchNotFound,
    {
        if let Result::Err(e) = self.git_client.worktree_add(&self.repository, branch, path) {
            return Result::Err(e);
        }
        let wt_repo = match self.git_client.open_repo(path) {
            Result::Ok(x) => x,
            Result::Err(_) => {
                self.rollback_worktree(branch, path);
                return Result::Err(GitError::RepoOpenFailed);
            },
        };
        let local_in_worktree = self.git_client.local_branch_exists(&wt_repo, source_branch);
        let remote_in_worktree = self.git_client.remote_branch_exists(&wt_repo, origin_ref);
        let source_ref: &str = match plan_source_ref(local_in_worktree, remote_in_worktree) {
            SourceRefPlan::UseLocal => source_branch,
            SourceRefPlan::UseOriginRemote => origin_ref,
            SourceRefPlan::NotFound => {
                self.rollback_worktree(branch, path);
                return Result::Err(GitError::SourceBranchNotFound);
            },
        };
        if let Result::Err(e) = self.git_client.branch_create_from(&wt_repo, branch, source_ref) {
            self.rollback_worktree(branch, path);
            return Result::Err(e);
        }
        if let Result::Err(e) = self.git_client.checkout_tree_force(&wt_repo, source_ref) {
            self.rollback_worktree(branch, path);
            return Result::Err(e);
        }
        let mut head_ref = String::from_str("refs/heads/");
        head_ref.append(branch);
        if let Result::Err(e) = self.git_client.set_head(&wt_repo, head_ref.as_str()) {
            self.rollback_worktree(branch, path);
            return Result::Err(e);
        }
        Result::Ok(())
    }

    /// Remove the worktree of `branch`: prune its registration
    /// (forced, directory included); when the registry has no record
    /// but the directory still exists, fall back to removing the
    /// directory. A directory already gone is not an error.
    pub fn remove_worktree(&self, branch_name: &str) -> (r: Result<(), GitError>)
        ensures
            r matches Err(e) ==> e is WorktreeNotFound || e is IoFailure,
    {
        let worktrees = match self.list_worktrees() {
            Result::Ok(w) => w,
            Result::Err(e) => {
                return Result::Err(e);
            },
        };
        let found = find_worktree_branch(&worktrees, branch_name);
        match found {
            Option::Some(ix) => self.remove_worktree_path(worktrees[ix].path.as_str()),
            Option::None => Result::Err(GitError::WorktreeNotFound),
        }
    }

    /// Remove the worktree living at `worktree_path`.
    fn remove_worktree_path(&self, worktree_path: &str) -> (r: Result<(), GitError>)
        ensures
            r matches Err(e) ==> e is IoFailure,
    {
        let name = basename_or(worktree_path, "");
        if name.unicode_len() == 0 {
            return Result::Err(GitError::IoFailure);
        }
        let pruned = self.git_client.worktree_prune(&self.repository, name);
        let dir_exists = self.git_client.path_exists(worktree_path);
        match plan_remove(&pruned, dir_exists) {
            RemovePlan::Done => Result::Ok(()),
            RemovePlan::RemoveDirectory => self.git_client.remove_dir_recursive(worktree_path),
            RemovePlan::NothingLeft => Result::Ok(()),
            RemovePlan::Fail(e) => Result::Err(e),
        }
    }

    /// Fetch every remote of the repository; the first fetch failure
    /// is the result.
    pub fn fetch_remotes(&self) -> (r: Result<(), GitError>)
        ensures
            r matches Err(e) ==> e is IoFailure,
    {
        let names = match self.git_client.remote_names(&self.repository) {
            Result::Ok(n) => n,
            Result::Err(e) => {
                return Result::Err(e);
            },
        };
        let mut i: usize = 0;
        while i < names.len()
            decreases names@.len() - i,
        {
            if let Result::Err(e) = self.git_client.fetch_remote(
                &self.repository,
                names[i].as_str(),
            ) {
                return Result::Err(e);
            }
            i = i + 1;
        }
        Result::Ok(())
    }

    /// Bring the primary checkout up to date: fetch `origin` in the
    /// `main` worktree and fast-forward it when that is all it takes.
    pub fn pull_main(&self) -> (r: Result<(), GitError>)
        ensures
            r matches Err(e) ==> e is RepoOpenFailed || e is RevisionNotFound || e is IoFailure,
    {
        let mut main_path = self.path.clone();
        main_path.append("/main");
        let wt_repo = match self.git_client.open_repo(main_path.as_str()) {
            Result::Ok(x) => x,
            Result::Err(_) => {
                return Result::Err(GitError::RepoOpenFailed);
            },
        };
        if let Result::Err(e) = self.git_client.fetch_remote(&wt_repo, "origin") {
            return Result::Err(e);
        }
        match self.git_client.fast_forward_possible(&wt_repo) {
            Result::Ok(true) => self.git_client.fast_forward_to_fetch_head(
                &wt_repo,
                "refs/heads/main",
            ),
            Result::Ok(false) => Result::Ok(()),
            Result::Err(e) => Result::Err(e),
        }
    }
}

/// The position of the first worktree bound to `branch`, if any.
fn find_worktree_branch(worktrees: &Vec<WorktreeInfo>, branch: &str) -> (r: Option<usize>)
    ensures
        match r {
            Some(i) => i < worktrees@.len() && worktrees@[i as int].branch@ == branch@ && forall|
                k: int,
            | 0 <= k < i ==> (#[trigger] worktrees@[k].branch@) != branch@,
            None => forall|k: int|
                0 <= k < worktrees@.len() ==> (#[trigger] worktrees@[k].branch@) != branch@,
        },
{
    let mut i: usize = 0;
    while i < worktrees.len()
        invariant
            i <= worktrees@.len(),
            forall|k: int| 0 <= k < i ==> (#[trigger] worktrees@[k].branch@) != branch@,
        decreases worktrees@.len() - i,
    {
        if str_eq(worktrees[i].branch.as_str(), branch) {
            return Option::Some(i);
        }
        i = i + 1;
    }
    Option::None
}

} // verus!
