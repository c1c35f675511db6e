//! The GitHub collaborator's data model and the pure logic around it:
//! parsing remote URLs into owner/repository pairs and matching
//! worktree branches to pull requests.

use vstd::prelude::*;

use crate::status::PrStatus;
use crate::strutil::spec_ends_with;
use std::collections::HashMap;

verus! {

/// A GitHub repository: its owner and its name.
#[derive(Debug, PartialEq, Eq, Hash)]
pub struct GitHubRepo {
    pub owner: String,
    pub repo: String,
}

impl Clone for GitHubRepo {
    fn clone(&self) -> (r: Self)
        ensures
            r == *self,
    {
        GitHubRepo { owner: self.owner.clone(), repo: self.repo.clone() }
    }
}

/// One pull request, as far as branch matching needs it.
#[derive(Debug)]
pub struct PrInfo {
    pub number: u64,
    pub head_branch: String,
    pub status: PrStatus,
}

impl Clone for PrInfo {
    fn clone(&self) -> (r: Self)
        ensures
            r == *self,
    {
        PrInfo {
            number: self.number,
            head_branch: self.head_branch.clone(),
            status: self.status.clone(),
        }
    }
}

/// The first index at or after `i` where `pat` occurs in `s`.
pub open spec fn first_occurrence_from(s: Seq<char>, pat: Seq<char>, i: int) -> Option<int>
    decreases s.len() - i,
{
    if i < 0 || i + pat.len() > s.len() {
        None
    } else if pat.len() == 0 {
        Some(i)
    } else if s.subrange(i, i + pat.len()) == pat {
        Some(i)
    } else {
        first_occurrence_from(s, pat, i + 1)
    }
}

/// The first index where `pat` occurs in `s`.
pub open spec fn spec_find_sub(s: Seq<char>, pat: Seq<char>) -> Option<int> {
    first_occurrence_from(s, pat, 0)
}

proof fn lemma_first_occurrence_range(s: Seq<char>, pat: Seq<char>, i: int)
    ensures
        first_occurrence_from(s, pat, i) matches Some(j) ==> i <= j && j + pat.len() <= s.len(),
    decreases s.len() - i,
{
    if !(i < 0 || i + pat.len() > s.len()) && pat.len() > 0 && s.subrange(i, i + pat.len())
        != pat {
        lemma_first_occurrence_range(s, pat, i + 1);
    }
}

/// Find the first occurrence of `pat` in `s`.
fn find_sub(s: &str, pat: &str) -> (r: Option<usize>)
    ensures
        match r {
            Some(i) => spec_find_sub(s@, pat@) == Some(i as int),
            None => spec_find_sub(s@, pat@) is None,
        },
{
    let n = s.unicode_len();
    let m = pat.unicode_len();
    if m > n {
        return Option::None;
    }
    let mut k: usize = 0;
    while k <= n - m
        invariant
            n == s@.len(),
            m == pat@.len(),
            m <= n,
            0 <= k <= n - m + 1,
            spec_find_sub(s@, pat@) == first_occurrence_from(s@, pat@, k as int),
        decreases n - k,
    {
        let mut j: usize = 0;
        while j < m && s.get_char(k + j) == pat.get_char(j)
            invariant
                n == s@.len(),
                m == pat@.len(),
                0 <= k <= n - m,
                0 <= j <= m,
                forall|j2: int| 0 <= j2 < j ==> s@[k + j2] == pat@[j2],
            decreases m - j,
        {
            j = j + 1;
        }
        if j == m {
            assert(s@.subrange(k as int, k + pat@.len()) =~= pat@);
            return Option::Some(k);
        }
        assert(s@.subrange(k as int, k + pat@.len())[j as int] != pat@[j as int]);
        k = k + 1;
    }
    Option::None
}

/// The first index at or after `i` that holds `c`, or the length.
pub open spec fn find_char_from(s: Seq<char>, c: char, i: int) -> int
    decreases s.len() - i,
{
    if 0 <= i < s.len() && s[i] != c {
        find_char_from(s, c, i + 1)
    } else {
        i
    }
}

proof fn lemma_find_char_bounds(s: Seq<char>, c: char, i: int)
    requires
        0 <= i <= s.len(),
    ensures
        i <= find_char_from(s, c, i) <= s.len(),
        find_char_from(s, c, i) < s.len() ==> s[find_char_from(s, c, i)] == c,
    decreases s.len() - i,
{
    if i < s.len() && s[i] != c {
        lemma_find_char_bounds(s, c, i + 1);
    }
}

fn find_char(s: &str, c: char) -> (r: usize)
    ensures
        r == find_char_from(s@, c, 0),
        r <= s@.len(),
        r < s@.len() ==> s@[r as int] == c,
{
    let n = s.unicode_len();
    let mut i: usize = 0;
    while i < n && s.get_char(i) != c
        invariant
            n == s@.len(),
            0 <= i <= n,
            find_char_from(s@, c, 0) == find_char_from(s@, c, i as int),
        decreases n - i,
    {
        i = i + 1;
    }
    proof {
        lemma_find_char_bounds(s@, c, 0);
    }
    i
}

/// What an `<owner>/<repo>` remainder of a remote URL denotes: the
/// owner runs to the first slash, the repository is the rest with at
/// most one trailing `.git` removed; both must be non-empty.
pub open spec fn spec_parse_remote_path(rest: Seq<char>) -> Option<(Seq<char>, Seq<char>)> {
    let sl = find_char_from(rest, '/', 0);
    if sl == rest.len() {
        None
    } else {
        let owner = rest.take(sl);
        let tail = rest.skip(sl + 1);
        if owner.len() == 0 || tail.len() == 0 {
            None
        } else if spec_ends_with(tail, ".git"@) && tail.len() > 4 {
            Some((owner, tail.take(tail.len() - 4)))
        } else {
            Some((owner, tail))
        }
    }
}

/// What a remote URL denotes: the owner and repository after the
/// SSH form's host prefix, or after the HTTPS form's.
pub open spec fn spec_parse_github_url(s: Seq<char>) -> Option<(Seq<char>, Seq<char>)> {
    let ssh = match spec_find_sub(s, "git@github.com:"@) {
        Some(i) => spec_parse_remote_path(s.skip(i + 15)),
        None => None,
    };
    if ssh is Some {
        ssh
    } else {
        match spec_find_sub(s, "https://github.com/"@) {
            Some(i) => spec_parse_remote_path(s.skip(i + 19)),
            None => None,
        }
    }
}

/// Parse the `<owner>/<repo>` remainder of a remote URL.
fn parse_remote_path(rest: &str) -> (r: Option<GitHubRepo>)
    ensures
        match r {
            Some(g) => spec_parse_remote_path(rest@) == Some((g.owner@, g.repo@)),
            None => spec_parse_remote_path(rest@) is None,
        },
{
    let n = rest.unicode_len();
    let sl = find_char(rest, '/');
    if sl == n {
        return Option::None;
    }
    let owner = rest.substring_char(0, sl);
    let tail = rest.substring_char(sl + 1, n);
    assert(owner@ =~= rest@.take(sl as int));
    assert(tail@ =~= rest@.skip(sl + 1));
    if owner.unicode_len() == 0 || tail.unicode_len() == 0 {
        return Option::None;
    }
    let tn = tail.unicode_len();
    let repo_str: &str = if crate::strutil::ends_with(tail, ".git") && tn > 4 {
        let t = tail.substring_char(0, tn - 4);
        assert(t@ =~= tail@.take(tail@.len() - 4));
        t
    } else {
        tail
    };
    Option::Some(
        GitHubRepo { owner: String::from_str(owner), repo: String::from_str(repo_str) },
    )
}

/// Parse a GitHub remote URL, in the SSH form
/// (`git@github.com:owner/repo.git`) or the HTTPS form
/// (`https://github.com/owner/repo`), into owner and repository.
pub fn parse_github_url(url: &str) -> (r: Result<GitHubRepo, String>)
    ensures
        match r {
            Ok(g) => spec_parse_github_url(url@) == Some((g.owner@, g.repo@)),
            Err(_) => spec_parse_github_url(url@) is None,
        },
{
    let n = url.unicode_len();
    match find_sub(url, "git@github.com:") {
        Option::Some(i) => {
            proof {
                lemma_first_occurrence_range(url@, "git@github.com:"@, 0);
                reveal_strlit("git@github.com:");
            }
            let rest = url.substring_char(i + 15, n);
            assert(rest@ =~= url@.skip(i + 15));
            if let Option::Some(g) = parse_remote_path(rest) {
                return Result::Ok(g);
            }
        },
        Option::None => {},
    }
    match find_sub(url, "https://github.com/") {
        Option::Some(i) => {
            proof {
                lemma_first_occurrence_range(url@, "https://github.com/"@, 0);
                reveal_strlit("https://github.com/");
            }
            let rest = url.substring_char(i + 19, n);
            assert(rest@ =~= url@.skip(i + 19));
            if let Option::Some(g) = parse_remote_path(rest) {
                return Result::Ok(g);
            }
        },
        Option::None => {},
    }
    Result::Err(String::from_str("Failed to parse GitHub URL"))
}

/// The status of the first pull request whose head branch is
/// `branch`, if any.
pub open spec fn spec_match_branch(branch: Seq<char>, prs: Seq<PrInfo>) -> Option<PrStatus>
    decreases prs.len(),
{
    if prs.len() == 0 {
        None
    } else if prs.first().head_branch@ == branch {
        Some(prs.first().status)
    } else {
        spec_match_branch(branch, prs.drop_first())
    }
}

/// The status of the first pull request opened from `branch`.
pub fn pr_status_for_branch(branch: &str, prs: &[PrInfo]) -> (r: Option<PrStatus>)
    ensures
        r == spec_match_branch(branch@, prs@),
{
    let mut i: usize = 0;
    proof {
        assert(prs@.skip(0) =~= prs@);
    }
    while i < prs.len()
        invariant
            i <= prs@.len(),
            spec_match_branch(branch@, prs@) == spec_match_branch(branch@, prs@.skip(i as int)),
        decreases prs@.len() - i,
    {
        proof {
            assert(prs@.skip(i as int).first() == prs@[i as int]);
            assert(prs@.skip(i as int).drop_first() =~= prs@.skip(i + 1));
        }
        if crate::strutil::str_eq(prs[i].head_branch.as_str(), branch) {
            return Option::Some(prs[i].status.clone());
        }
        i = i + 1;
    }
    proof {
        assert(prs@.skip(prs@.len() as int) =~= Seq::<PrInfo>::empty());
    }
    Option::None
}

/// One `(branch, status)` pair for every branch with a matching pull
/// request, in branch order; a branch with none contributes nothing.
pub open spec fn spec_pr_pairs(branches: Seq<String>, prs: Seq<PrInfo>) -> Seq<
    (Seq<char>, PrStatus),
>
    decreases branches.len(),
{
    if branches.len() == 0 {
        Seq::empty()
    } else {
        spec_pr_pairs(branches.drop_last(), prs) + match spec_match_branch(
            branches.last()@,
            prs,
        ) {
            Some(st) => seq![(branches.last()@, st)],
            None => Seq::empty(),
        }
    }
}

/// The views of collected branch/status pairs.
pub open spec fn pair_views(v: Seq<(String, PrStatus)>) -> Seq<(Seq<char>, PrStatus)> {
    v.map_values(|p: (String, PrStatus)| (p.0@, p.1))
}

/// Match worktree branches to pull requests by exact branch name:
/// one pair per branch with a matching pull request, carrying the
/// status of the first pull request whose head branch equals it.
pub fn match_worktrees_to_pr_pairs(worktree_branches: &[String], prs: &[PrInfo]) -> (r: Vec<
    (String, PrStatus),
>)
    ensures
        pair_views(r@) == spec_pr_pairs(worktree_branches@, prs@),
{
    let ghost branches = worktree_branches@;
    let mut pairs: Vec<(String, PrStatus)> = Vec::new();
    let mut i: usize = 0;
    proof {
        assert(branches.take(0) =~= Seq::<String>::empty());
        assert(pair_views(pairs@) =~= spec_pr_pairs(branches.take(0), prs@));
    }
    while i < worktree_branches.len()
        invariant
            branches == worktree_branches@,
            i <= branches.len(),
            pair_views(pairs@) == spec_pr_pairs(branches.take(i as int), prs@),
        decreases branches.len() - i,
    {
        let ghost pairs_before = pairs@;
        match pr_status_for_branch(worktree_branches[i].as_str(), prs) {
            Option::Some(st) => {
                pairs.push((worktree_branches[i].clone(), st));
            },
            Option::None => {},
        }
        proof {
            assert(branches.take(i + 1).drop_last() =~= branches.take(i as int));
            assert(branches.take(i + 1).last() == branches[i as int]);
            assert(pair_views(pairs@) =~= spec_pr_pairs(branches.take(i + 1), prs@));
        }
        i = i + 1;
    }
    proof {
        assert(branches.take(branches.len() as int) =~= branches);
    }
    pairs
}

/// The pairs of `match_worktrees_to_pr_pairs` as a map, as callers
/// consume them. What each branch maps to is fixed by the pair
/// function's contract; over a text-keyed map itself nothing provable
/// remains to state in this environment, so this function carries no
/// clauses of its own.
pub fn match_worktrees_to_prs(worktree_branches: &[String], prs: &[PrInfo]) -> (r: HashMap<
    String,
    PrStatus,
>) {
    let pairs = match_worktrees_to_pr_pairs(worktree_branches, prs);
    let mut matches: HashMap<String, PrStatus> = HashMap::new();
    let mut i: usize = 0;
    while i < pairs.len()
        decreases pairs@.len() - i,
    {
        matches.insert(pairs[i].0.clone(), pairs[i].1.clone());
        i = i + 1;
    }
    matches
}

/// The pull-request status of one fetched pull request: merged wins,
/// otherwise open or closed by its state.
pub fn pr_status_from_flags(number: u64, merged: bool, is_open: bool) -> (r: PrStatus)
    ensures
        merged ==> r == PrStatus::Merged(number),
        !merged && is_open ==> r == PrStatus::Open(number, Option::<String>::None),
        !merged && !is_open ==> r == PrStatus::Closed(number),
{
    if merged {
        PrStatus::Merged(number)
    } else if is_open {
        PrStatus::Open(number, Option::None)
    } else {
        PrStatus::Closed(number)
    }
}

/// The next page of a search, if the current page's size says there
/// is one: an empty page ends the search, and only a full page (the
/// hundred-result maximum) promises more.
pub fn next_search_page(page: u32, page_size: usize) -> (r: Option<u32>)
    requires
        page < u32::MAX,
    ensures
        page_size == 0 ==> r is None,
        0 < page_size < 100 ==> r is None,
        page_size >= 100 ==> r == Some((page + 1) as u32),
{
    if page_size >= 100 {
        Option::Some(page + 1)
    } else {
        Option::None
    }
}

/// The status a worktree displays: without the GitHub collaborator
/// every worktree reads `NoGitHub`; with it, an unmatched branch
/// reads `NoPr` and a matched one its pull request's status.
pub fn resolve_pr_status(github_available: bool, matched: Option<PrStatus>) -> (r: PrStatus)
    ensures
        !github_available ==> r == PrStatus::NoGitHub,
        github_available ==> match matched {
            Some(st) => r == st,
            None => r == PrStatus::NoPr,
        },
{
    if !github_available {
        PrStatus::NoGitHub
    } else {
        match matched {
            Option::Some(st) => st,
            Option::None => PrStatus::NoPr,
        }
    }
}

} // verus!
