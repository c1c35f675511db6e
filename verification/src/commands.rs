//! The commands' decision logic: what each command computes from
//! scan results and its own arguments. Argument parsing, printing,
//! prompting and task spawning live outside the library; these
//! methods take plain values and return plain values.

use vstd::prelude::*;

use crate::git::{GitClient, GitError, GitRepository, SystemGitClient};
use crate::model::{
    spec_parse_age, RepoResult, WorktreeFilter, WorktreeResult,
};
use crate::status::{LocalStatus, RemoteStatus};
use crate::strutil::{
    join_strings, lex_sorted, sort_strings, spec_join, str_eq, str_views,
};

verus! {

/// Arguments of the add command.
#[derive(Debug)]
pub struct AddCommand {
    pub repo: String,
    pub branch: String,
    pub base_branch: Option<String>,
    pub path: Option<String>,
    pub dry_run: bool,
    pub reuse: bool,
}

/// The first position whose repository carries `name`.
pub open spec fn spec_find_repo(rs: Seq<RepoResult>, name: Seq<char>) -> Option<int>
    decreases rs.len(),
{
    if rs.len() == 0 {
        None
    } else if rs.first().name@ == name {
        Some(0int)
    } else {
        match spec_find_repo(rs.drop_first(), name) {
            Some(i) => Some(i + 1),
            None => None,
        }
    }
}

/// Find the first repository result with the given name.
fn find_repo_index(repo_results: &[RepoResult], name: &str) -> (r: Option<usize>)
    ensures
        match r {
            Some(i) => i < repo_results@.len() && repo_results@[i as int].name@ == name@ && forall|
                k: int,
            | 0 <= k < i ==> (#[trigger] repo_results@[k].name@) != name@,
            None => forall|k: int|
                0 <= k < repo_results@.len() ==> (#[trigger] repo_results@[k].name@) != name@,
        },
{
    let mut i: usize = 0;
    while i < repo_results.len()
        invariant
            i <= repo_results@.len(),
            forall|k: int| 0 <= k < i ==> (#[trigger] repo_results@[k].name@) != name@,
        decreases repo_results@.len() - i,
    {
        if str_eq(repo_results[i].name.as_str(), name) {
            return Option::Some(i);
        }
        i = i + 1;
    }
    Option::None
}

impl AddCommand {
    /// The position of the repository this command targets, if it was
    /// discovered.
    pub fn find_target_repository(&self, repo_results: &[RepoResult]) -> (r: Result<
        Option<usize>,
        GitError,
    >)
        ensures
            r is Ok,
            r matches Ok(o) ==> match o {
                Some(i) => i < repo_results@.len() && repo_results@[i as int].name@ == self.repo@,
                None => forall|k: int|
                    0 <= k < repo_results@.len() ==> (#[trigger] repo_results@[k].name@)
                        != self.repo@,
            },
    {
        Result::Ok(find_repo_index(repo_results, self.repo.as_str()))
    }

    /// Whether this command's branch already exists as a worktree of
    /// the repository.
    pub fn branch_exists_in_repo(&self, repo_result: &RepoResult) -> (r: Result<bool, GitError>)
        ensures
            r matches Ok(b) && b ==> exists|k: int|
                0 <= k < repo_result.worktrees@.len() && (#[trigger] repo_result.worktrees@[k].branch@)
                    == self.branch@,
            r matches Ok(b) && !b ==> forall|k: int|
                0 <= k < repo_result.worktrees@.len() ==> (#[trigger] repo_result.worktrees@[k].branch@)
                    != self.branch@,
            r is Ok,
    {
        let mut i: usize = 0;
        while i < repo_result.worktrees.len()
            invariant
                i <= repo_result.worktrees@.len(),
                forall|k: int|
                    0 <= k < i ==> (#[trigger] repo_result.worktrees@[k].branch@) != self.branch@,
            decreases repo_result.worktrees@.len() - i,
        {
            if str_eq(repo_result.worktrees[i].branch.as_str(), self.branch.as_str()) {
                return Result::Ok(true);
            }
            i = i + 1;
        }
        Result::Ok(false)
    }

    /// The path of the worktree to create: the branch directory
    /// inside the repository.
    pub fn determine_worktree_path(&self, repo_path: &str) -> (r: Result<String, GitError>)
        ensures
            r matches Ok(p) ==> p@ == repo_path@ + "/"@ + self.branch@,
            r is Ok,
    {
        let mut p = String::from_str(repo_path);
        p.append("/");
        p.append(self.branch.as_str());
        Result::Ok(p)
    }
}

/// Arguments of the switch command.
#[derive(Debug)]
pub struct SwitchCommand {
    pub repo: String,
    pub branch: String,
    pub path: Option<String>,
}

impl SwitchCommand {
    /// The position of the repository this command targets, if it was
    /// discovered.
    pub fn find_target_repository(&self, repo_results: &[RepoResult]) -> (r: Result<
        Option<usize>,
        GitError,
    >)
        ensures
            r is Ok,
            r matches Ok(o) ==> match o {
                Some(i) => i < repo_results@.len() && repo_results@[i as int].name@ == self.repo@,
                None => forall|k: int|
                    0 <= k < repo_results@.len() ==> (#[trigger] repo_results@[k].name@)
                        != self.repo@,
            },
    {
        Result::Ok(find_repo_index(repo_results, self.repo.as_str()))
    }

    /// The resolved path of the target worktree, when the branch is a
    /// worktree of the repository and its directory exists; the
    /// caller (a shell integration) performs the directory change.
    pub fn find_worktree_path(&self, repo_result: &RepoResult) -> (r: Result<
        Option<String>,
        GitError,
    >)
        ensures
            r is Ok,
            r matches Ok(o) ==> match o {
                Some(p) => p@ == repo_result.path@ + "/"@ + self.branch@ && exists|k: int|
                    0 <= k < repo_result.worktrees@.len() && (
                    #[trigger] repo_result.worktrees@[k].branch@) == self.branch@,
                None => true,
            },
    {
        let mut i: usize = 0;
        while i < repo_result.worktrees.len()
            invariant
                i <= repo_result.worktrees@.len(),
            decreases repo_result.worktrees@.len() - i,
        {
            if str_eq(repo_result.worktrees[i].branch.as_str(), self.branch.as_str()) {
                let mut p = repo_result.path.clone();
                p.append("/");
                p.append(self.branch.as_str());
                let client = SystemGitClient;
                if client.path_exists(p.as_str()) {
                    return Result::Ok(Option::Some(p));
                }
                return Result::Ok(Option::None);
            }
            i = i + 1;
        }
        Result::Ok(Option::None)
    }
}

/// Arguments of the remove command.
#[derive(Debug)]
pub struct RemoveCommand {
    pub repo: String,
    pub branch: String,
    pub path: Option<String>,
    pub dry_run: bool,
}

/// Positions `(i, j)` name a worktree of the command's target.
pub open spec fn target_pair(
    rs: Seq<RepoResult>,
    repo: Seq<char>,
    branch: Seq<char>,
    i: int,
    j: int,
) -> bool {
    &&& 0 <= i < rs.len()
    &&& 0 <= j < rs[i].worktrees@.len()
    &&& rs[i].name@ == repo
    &&& rs[i].worktrees@[j].branch@ == branch
}

impl RemoveCommand {
    /// The first `(repository, worktree)` position pair naming this
    /// command's target, if any.
    pub fn find_target_worktree(&self, repo_results: &[RepoResult]) -> (r: Result<
        Option<(usize, usize)>,
        GitError,
    >)
        ensures
            r is Ok,
            r matches Ok(o) ==> match o {
                Some(p) => target_pair(
                    repo_results@,
                    self.repo@,
                    self.branch@,
                    p.0 as int,
                    p.1 as int,
                ) && (forall|i2: int, j2: int|
                    i2 < p.0 ==> !#[trigger] target_pair(
                        repo_results@,
                        self.repo@,
                        self.branch@,
                        i2,
                        j2,
                    )) && (forall|j2: int|
                    0 <= j2 < p.1 ==> (
                    #[trigger] repo_results@[p.0 as int].worktrees@[j2].branch@) != self.branch@),
                None => forall|i: int, j: int|
                    !#[trigger] target_pair(repo_results@, self.repo@, self.branch@, i, j),
            },
    {
        let mut i: usize = 0;
        while i < repo_results.len()
            invariant
                i <= repo_results@.len(),
                forall|i2: int, j2: int|
                    i2 < i ==> !#[trigger] target_pair(
                        repo_results@,
                        self.repo@,
                        self.branch@,
                        i2,
                        j2,
                    ),
            decreases repo_results@.len() - i,
        {
            if str_eq(repo_results[i].name.as_str(), self.repo.as_str()) {
                let mut j: usize = 0;
                while j < repo_results[i].worktrees.len()
                    invariant
                        i < repo_results@.len(),
                        j <= repo_results@[i as int].worktrees@.len(),
                        repo_results@[i as int].name@ == self.repo@,
                        forall|i2: int, j2: int|
                            i2 < i ==> !#[trigger] target_pair(
                                repo_results@,
                                self.repo@,
                                self.branch@,
                                i2,
                                j2,
                            ),
                        forall|j2: int|
                            0 <= j2 < j ==> (
                            #[trigger] repo_results@[i as int].worktrees@[j2].branch@)
                                != self.branch@,
                    decreases repo_results@[i as int].worktrees@.len() - j,
                {
                    if str_eq(
                        repo_results[i].worktrees[j].branch.as_str(),
                        self.branch.as_str(),
                    ) {
                        return Result::Ok(Option::Some((i, j)));
                    }
                    j = j + 1;
                }
                assert forall|j2: int|
                    !#[trigger] target_pair(
                        repo_results@,
                        self.repo@,
                        self.branch@,
                        i as int,
                        j2,
                    ) by {}
            } else {
                assert forall|j2: int|
                    !#[trigger] target_pair(
                        repo_results@,
                        self.repo@,
                        self.branch@,
                        i as int,
                        j2,
                    ) by {}
            }
            i = i + 1;
        }
        Result::Ok(Option::None)
    }
}

/// Arguments of the sync command.
#[derive(Debug)]
pub struct SyncCommand {
    pub path: Option<String>,
}

impl SyncCommand {
    /// Fetch one repository's remotes and bring its primary checkout
    /// up to date; a failed primary pull is tolerated, a failed fetch
    /// is that repository's failure, reported with its name.
    pub fn fetch_repository(repo_path: &str, repo_name: &str) -> (r: Result<
        String,
        (String, String),
    >)
        ensures
            r matches Ok(n) ==> n@ == repo_name@,
            r matches Err(e) ==> e.0@ == repo_name@,
    {
        match GitRepository::new(repo_path, SystemGitClient) {
            Result::Ok(repo) => {
                if let Result::Err(e) = repo.fetch_remotes() {
                    return Result::Err(
                        (String::from_str(repo_name), String::from_str(e.message())),
                    );
                }
                let _ = repo.pull_main();
                Result::Ok(String::from_str(repo_name))
            },
            Result::Err(e) => Result::Err(
                (String::from_str(repo_name), String::from_str(e.message())),
            ),
        }
    }
}

/// Whether a typed confirmation accepts a destructive action: the
/// answer, trimmed of whitespace, starts with `y` in either case.
pub fn confirmation_is_yes(input: &str) -> (r: bool)
    ensures
        r == (crate::strutil::spec_trim(input@).len() > 0 && (crate::strutil::spec_trim(input@)[0]
            == 'y' || crate::strutil::spec_trim(input@)[0] == 'Y')),
{
    let trimmed = crate::strutil::trim_ws(input);
    if trimmed.unicode_len() == 0 {
        return false;
    }
    let c = trimmed.get_char(0);
    c == 'y' || c == 'Y'
}

/// Arguments of the branch-completion command.
#[derive(Debug)]
pub struct CompleteBranchesCommand {
    pub repo: String,
    pub path: Option<String>,
}

impl CompleteBranchesCommand {
    /// The sorted branch names of the named repository's worktrees;
    /// empty when the repository is absent, not a git repository, or
    /// not bare.
    pub fn get_branches(&self, search_path: &str, repo_name: &str) -> (r: Result<
        Vec<String>,
        GitError,
    >)
        ensures
            r matches Ok(v) ==> lex_sorted(str_views(v@)),
            r matches Ok(v) ==> forall|k: int|
                0 <= k < v@.len() ==> (#[trigger] v@[k]@) != "main"@ && v@[k]@ != "master"@,
    {
        let mut repo_path = String::from_str(search_path);
        repo_path.append("/");
        repo_path.append(repo_name);
        let client = SystemGitClient;
        if !client.path_exists(repo_path.as_str()) {
            return Result::Ok(Vec::new());
        }
        let mut git_path = repo_path.clone();
        git_path.append("/.git");
        if !client.path_exists(git_path.as_str()) {
            return Result::Ok(Vec::new());
        }
        let repo = match GitRepository::new(repo_path.as_str(), SystemGitClient) {
            Result::Ok(x) => x,
            Result::Err(e) => {
                return Result::Err(e);
            },
        };
        let bare = match repo.is_bare() {
            Result::Ok(b) => b,
            Result::Err(_) => false,
        };
        if !bare {
            return Result::Ok(Vec::new());
        }
        let worktrees = match repo.list_worktrees() {
            Result::Ok(w) => w,
            Result::Err(e) => {
                return Result::Err(e);
            },
        };
        let mut branch_names: Vec<String> = Vec::new();
        let mut i: usize = 0;
        while i < worktrees.len()
            invariant
                i <= worktrees@.len(),
                forall|k: int|
                    0 <= k < branch_names@.len() ==> (#[trigger] branch_names@[k]@) != "main"@
                        && branch_names@[k]@ != "master"@,
                forall|k: int|
                    0 <= k < worktrees@.len() ==> (#[trigger] worktrees@[k].branch@) != "main"@
                        && worktrees@[k].branch@ != "master"@,
            decreases worktrees@.len() - i,
        {
            let ghost names_before = branch_names@;
            branch_names.push(worktrees[i].branch.clone());
            proof {
                assert forall|k: int|
                    0 <= k < branch_names@.len() implies (#[trigger] branch_names@[k]@)
                    != "main"@ && branch_names@[k]@ != "master"@ by {
                    if k < names_before.len() {
                        assert(branch_names@[k] == names_before[k]);
                    } else {
                        assert(branch_names@[k] == worktrees@[i as int].branch);
                    }
                }
            }
            i = i + 1;
        }
        let sorted = sort_strings(branch_names);
        proof {
            assert forall|k: int|
                0 <= k < sorted@.len() implies (#[trigger] sorted@[k]@) != "main"@ && sorted@[k]@
                != "master"@ by {
                crate::strutil::lemma_view_multiset_member(
                    str_views(sorted@),
                    str_views(branch_names@),
                    k,
                );
                let j = choose|j: int|
                    0 <= j < str_views(branch_names@).len() && str_views(branch_names@)[j]
                        == str_views(sorted@)[k];
                assert(branch_names@[j]@ != "main"@ && branch_names@[j]@ != "master"@);
            }
        }
        Result::Ok(sorted)
    }
}

/// Arguments of the repository-completion command.
#[derive(Debug)]
pub struct CompleteReposCommand {
    pub path: Option<String>,
}

/// Arguments of the work-in-progress overview command.
#[derive(Debug)]
pub struct ShowWipCommand {
    pub path: Option<String>,
    pub fast: bool,
    pub no_emoji: bool,
}

/// Arguments of the garbage-collection command.
#[derive(Debug)]
pub struct GcCommand {
    pub path: Option<String>,
    pub dry_run: bool,
    pub no_emoji: bool,
}

/// Arguments of the cleanup command.
#[derive(Debug)]
pub struct CleanupCommand {
    pub path: Option<String>,
    pub dry_run: bool,
    pub force: bool,
    pub allow_unpushed: bool,
    pub custom_filter: bool,
    pub clean: bool,
    pub likely_merged: bool,
    pub older_than: Option<String>,
}

/// The filter a cleanup command denotes: the prune preset, unless a
/// custom filter was asked for, which takes its pieces from the
/// flags; `None` when the age argument does not parse.
pub open spec fn spec_cleanup_filter(c: CleanupCommand) -> Option<WorktreeFilter> {
    if !c.custom_filter {
        Some(
            WorktreeFilter {
                likely_merged: Some(true),
                clean: Some(true),
                older_than_days: Some(7u32),
                ..WorktreeFilter::spec_empty()
            },
        )
    } else {
        let base = WorktreeFilter {
            clean: if c.clean {
                Some(true)
            } else {
                None
            },
            likely_merged: if c.likely_merged {
                Some(true)
            } else {
                None
            },
            ..WorktreeFilter::spec_empty()
        };
        match c.older_than {
            Some(s) => match spec_parse_age(s@) {
                Some(d) => Some(WorktreeFilter { older_than_days: Some(d as u32), ..base }),
                None => None,
            },
            None => Some(base),
        }
    }
}

/// Why a worktree is unsafe to prune, if it is: uncommitted changes
/// win over unpushed commits; a missing directory is safe, its work
/// is already gone.
pub open spec fn unsafe_reason(w: WorktreeResult) -> Option<Seq<char>> {
    if w.status.local_status is Dirty || w.status.local_status is Staged {
        Some("has uncommitted changes"@)
    } else if w.status.remote_status is NotPushed || w.status.remote_status is Ahead {
        Some("has unpushed commits"@)
    } else {
        None
    }
}

/// The `(repository, branch, reason)` entries of one repository's
/// unsafe worktrees.
pub open spec fn spec_unsafe_in_repo(name: Seq<char>, ws: Seq<WorktreeResult>) -> Seq<
    (Seq<char>, Seq<char>, Seq<char>),
>
    decreases ws.len(),
{
    if ws.len() == 0 {
        Seq::empty()
    } else {
        spec_unsafe_in_repo(name, ws.drop_last()) + match unsafe_reason(ws.last()) {
            Some(reason) => seq![(name, ws.last().branch@, reason)],
            None => Seq::empty(),
        }
    }
}

/// The unsafe entries of all repositories, in order.
pub open spec fn spec_unsafe_entries(rs: Seq<RepoResult>) -> Seq<(Seq<char>, Seq<char>, Seq<char>)>
    decreases rs.len(),
{
    if rs.len() == 0 {
        Seq::empty()
    } else {
        spec_unsafe_entries(rs.drop_last()) + spec_unsafe_in_repo(
            rs.last().name@,
            rs.last().worktrees@,
        )
    }
}

/// The views of collected unsafe entries.
pub open spec fn triple_views(v: Seq<(String, String, String)>) -> Seq<
    (Seq<char>, Seq<char>, Seq<char>),
> {
    v.map_values(|t: (String, String, String)| (t.0@, t.1@, t.2@))
}

proof fn lemma_triple_views_push(v: Seq<(String, String, String)>, x: (String, String, String))
    ensures
        triple_views(v.push(x)) == triple_views(v).push((x.0@, x.1@, x.2@)),
{
    assert(triple_views(v.push(x)) =~= triple_views(v).push((x.0@, x.1@, x.2@)));
}

/// The entry names a worktree of the repository.
pub open spec fn spec_listed(
    entries: Seq<(Seq<char>, Seq<char>, Seq<char>)>,
    name: Seq<char>,
    branch: Seq<char>,
) -> bool {
    exists|k: int|
        0 <= k < entries.len() && (#[trigger] entries[k]).0 == name && entries[k].1 == branch
}

/// The worktrees of one repository not named by the unsafe entries.
pub open spec fn spec_safe_worktrees(
    name: Seq<char>,
    ws: Seq<WorktreeResult>,
    entries: Seq<(Seq<char>, Seq<char>, Seq<char>)>,
) -> Seq<WorktreeResult>
    decreases ws.len(),
{
    if ws.len() == 0 {
        Seq::empty()
    } else {
        let rest = spec_safe_worktrees(name, ws.drop_last(), entries);
        if spec_listed(entries, name, ws.last().branch@) {
            rest
        } else {
            rest.push(ws.last())
        }
    }
}

/// Decide whether the unsafe entries name this worktree.
fn listed(entries: &[(String, String, String)], name: &str, branch: &str) -> (r: bool)
    ensures
        r == spec_listed(triple_views(entries@), name@, branch@),
{
    let mut k: usize = 0;
    while k < entries.len()
        invariant
            k <= entries@.len(),
            forall|k2: int|
                0 <= k2 < k ==> !((#[trigger] triple_views(entries@)[k2]).0 == name@
                    && triple_views(entries@)[k2].1 == branch@),
        decreases entries@.len() - k,
    {
        if str_eq(entries[k].0.as_str(), name) && str_eq(entries[k].1.as_str(), branch) {
            assert((triple_views(entries@)[k as int]).0 == name@ && triple_views(entries@)[
                k as int].1 == branch@);
            return true;
        }
        k = k + 1;
    }
    false
}

impl CleanupCommand {
    /// The filter this command's arguments denote.
    pub fn build_filter(&self) -> (r: Result<WorktreeFilter, String>)
        ensures
            match r {
                Ok(f) => spec_cleanup_filter(*self) == Some(f),
                Err(_) => spec_cleanup_filter(*self) is None,
            },
    {
        if !self.custom_filter {
            return Result::Ok(WorktreeFilter::prune_candidates());
        }
        let mut filter = WorktreeFilter::new();
        if self.clean {
            filter.clean = Option::Some(true);
        }
        if self.likely_merged {
            filter.likely_merged = Option::Some(true);
        }
        match &self.older_than {
            Option::Some(age_str) => match WorktreeFilter::parse_age_to_days(age_str.as_str()) {
                Result::Ok(days) => {
                    filter.older_than_days = Option::Some(days);
                    Result::Ok(filter)
                },
                Result::Err(e) => Result::Err(e),
            },
            Option::None => Result::Ok(filter),
        }
    }

    /// Check the command's arguments; every combination is valid.
    pub fn validate_args(&self) -> (r: Result<(), GitError>)
        ensures
            r is Ok,
    {
        Result::Ok(())
    }

    /// The `(repository, branch, reason)` entries of every candidate
    /// worktree that the safety checks refuse to prune.
    pub fn find_unsafe_branches(&self, candidates: &[RepoResult]) -> (r: Result<
        Vec<(String, String, String)>,
        GitError,
    >)
        ensures
            r is Ok,
            r matches Ok(v) ==> triple_views(v@) == spec_unsafe_entries(candidates@),
    {
        let ghost call = candidates@;
        let mut out: Vec<(String, String, String)> = Vec::new();
        let mut i: usize = 0;
        proof {
            assert(call.take(0) =~= Seq::<RepoResult>::empty());
            assert(triple_views(out@) =~= spec_unsafe_entries(call.take(0)));
        }
        while i < candidates.len()
            invariant
                call == candidates@,
                i <= call.len(),
                triple_views(out@) == spec_unsafe_entries(call.take(i as int)),
            decreases call.len() - i,
        {
            let repo_result = &candidates[i];
            let ghost ws = repo_result.worktrees@;
            let ghost name = repo_result.name@;
            let mut j: usize = 0;
            proof {
                assert(ws.take(0) =~= Seq::<WorktreeResult>::empty());
                assert(spec_unsafe_in_repo(name, ws.take(0)) =~= Seq::<
                    (Seq<char>, Seq<char>, Seq<char>),
                >::empty());
            }
            while j < repo_result.worktrees.len()
                invariant
                    call == candidates@,
                    i < call.len(),
                    repo_result == &candidates@[i as int],
                    ws == repo_result.worktrees@,
                    name == repo_result.name@,
                    j <= ws.len(),
                    triple_views(out@) == spec_unsafe_entries(call.take(i as int))
                        + spec_unsafe_in_repo(name, ws.take(j as int)),
                decreases ws.len() - j,
            {
                let worktree = &repo_result.worktrees[j];
                let ghost out_before = out@;
                let is_dirty = match worktree.status.local_status {
                    LocalStatus::Dirty => true,
                    LocalStatus::Staged => true,
                    _ => false,
                };
                let is_unpushed = match worktree.status.remote_status {
                    RemoteStatus::NotPushed => true,
                    RemoteStatus::Ahead(_) => true,
                    _ => false,
                };
                if is_dirty {
                    let entry = (
                        repo_result.name.clone(),
                        worktree.branch.clone(),
                        String::from_str("has uncommitted changes"),
                    );
                    proof {
                        lemma_triple_views_push(out_before, entry);
                    }
                    out.push(entry);
                } else if is_unpushed {
                    let entry = (
                        repo_result.name.clone(),
                        worktree.branch.clone(),
                        String::from_str("has unpushed commits"),
                    );
                    proof {
                        lemma_triple_views_push(out_before, entry);
                    }
                    out.push(entry);
                }
                proof {
                    assert(ws.take(j + 1).drop_last() =~= ws.take(j as int));
                    assert(ws.take(j + 1).last() == ws[j as int]);
                    assert(triple_views(out@) =~= spec_unsafe_entries(call.take(i as int))
                        + spec_unsafe_in_repo(name, ws.take(j + 1)));
                }
                j = j + 1;
            }
            proof {
                assert(ws.take(ws.len() as int) =~= ws);
                assert(call.take(i + 1).drop_last() =~= call.take(i as int));
                assert(call.take(i + 1).last() == call[i as int]);
            }
            i = i + 1;
        }
        proof {
            assert(call.take(call.len() as int) =~= call);
        }
        Result::Ok(out)
    }

    /// Drop the worktrees the safety checks named, and the
    /// repositories that keeps empty.
    pub fn filter_unsafe_branches(
        &self,
        candidates: Vec<RepoResult>,
        unsafe_branches: &[(String, String, String)],
    ) -> (r: Vec<RepoResult>)
        ensures
            crate::model::repo_views(r@) == spec_safe_results(
                candidates@,
                triple_views(unsafe_branches@),
            ),
    {
        let ghost entries = triple_views(unsafe_branches@);
        let ghost call = candidates@;
        let mut out: Vec<RepoResult> = Vec::new();
        let mut i: usize = 0;
        proof {
            assert(call.take(0) =~= Seq::<RepoResult>::empty());
            assert(crate::model::repo_views(out@) =~= spec_safe_results(
                call.take(0),
                entries,
            ));
        }
        while i < candidates.len()
            invariant
                call == candidates@,
                entries == triple_views(unsafe_branches@),
                i <= call.len(),
                crate::model::repo_views(out@) == spec_safe_results(
                    call.take(i as int),
                    entries,
                ),
            decreases call.len() - i,
        {
            let repo_result = &candidates[i];
            let ghost ws = repo_result.worktrees@;
            let ghost name = repo_result.name@;
            let mut kept: Vec<WorktreeResult> = Vec::new();
            let mut j: usize = 0;
            proof {
                assert(ws.take(0) =~= Seq::<WorktreeResult>::empty());
                assert(kept@ =~= spec_safe_worktrees(name, ws.take(0), entries));
            }
            while j < repo_result.worktrees.len()
                invariant
                    call == candidates@,
                    entries == triple_views(unsafe_branches@),
                    i < call.len(),
                    repo_result == &candidates@[i as int],
                    ws == repo_result.worktrees@,
                    name == repo_result.name@,
                    j <= ws.len(),
                    kept@ == spec_safe_worktrees(name, ws.take(j as int), entries),
                decreases ws.len() - j,
            {
                let worktree = &repo_result.worktrees[j];
                if !listed(
                    unsafe_branches,
                    repo_result.name.as_str(),
                    worktree.branch.as_str(),
                ) {
                    kept.push(worktree.clone());
                }
                proof {
                    assert(ws.take(j + 1).drop_last() =~= ws.take(j as int));
                    assert(ws.take(j + 1).last() == ws[j as int]);
                }
                j = j + 1;
            }
            proof {
                assert(ws.take(ws.len() as int) =~= ws);
                assert(call.take(i + 1).drop_last() =~= call.take(i as int));
                assert(call.take(i + 1).last() == call[i as int]);
            }
            if kept.len() > 0 {
                let ghost out_before = out@;
                out.push(
                    RepoResult {
                        name: repo_result.name.clone(),
                        path: repo_result.path.clone(),
                        worktrees: kept,
                    },
                );
                proof {
                    assert(crate::model::repo_views(out@) =~= crate::model::repo_views(
                        out_before,
                    ).push((name, call[i as int].path@, spec_safe_worktrees(name, ws, entries))));
                }
            }
            i = i + 1;
        }
        proof {
            assert(call.take(call.len() as int) =~= call);
        }
        out
    }

    /// Remove every candidate worktree through the git facade; the
    /// first failure stops the run.
    pub fn cleanup_worktrees(&self, candidates: &[RepoResult]) -> (r: Result<(), GitError>)
        ensures
            r matches Err(e) ==> e is RepoOpenFailed || e is WorktreeNotFound || e is IoFailure,
    {
        let mut i: usize = 0;
        while i < candidates.len()
            decreases candidates@.len() - i,
        {
            let repo_result = &candidates[i];
            let repo = match GitRepository::new(repo_result.path.as_str(), SystemGitClient) {
                Result::Ok(x) => x,
                Result::Err(e) => {
                    return Result::Err(e);
                },
            };
            let mut j: usize = 0;
            while j < repo_result.worktrees.len()
                decreases repo_result.worktrees@.len() - j,
            {
                if let Result::Err(e) = repo.remove_worktree(
                    repo_result.worktrees[j].branch.as_str(),
                ) {
                    return Result::Err(e);
                }
                j = j + 1;
            }
            i = i + 1;
        }
        Result::Ok(())
    }
}

/// The repositories left with at least one safe worktree, with
/// exactly those worktrees.
pub open spec fn spec_safe_results(
    rs: Seq<RepoResult>,
    entries: Seq<(Seq<char>, Seq<char>, Seq<char>)>,
) -> Seq<(Seq<char>, Seq<char>, Seq<WorktreeResult>)>
    decreases rs.len(),
{
    if rs.len() == 0 {
        Seq::empty()
    } else {
        let rest = spec_safe_results(rs.drop_last(), entries);
        let kept = spec_safe_worktrees(rs.last().name@, rs.last().worktrees@, entries);
        if kept.len() > 0 {
            rest.push((rs.last().name@, rs.last().path@, kept))
        } else {
            rest
        }
    }
}

/// Arguments of the list command.
#[derive(Debug)]
pub struct ListCommand {
    pub path: Option<String>,
    pub no_emoji: bool,
    pub prune_candidates: bool,
    pub active: bool,
    pub needs_attention: bool,
    pub stale: bool,
    pub dirty: bool,
    pub clean: bool,
    pub staged: bool,
    pub missing: bool,
    pub ahead: bool,
    pub behind: bool,
    pub diverged: bool,
    pub not_pushed: bool,
    pub not_tracking: bool,
    pub up_to_date: bool,
    pub older_than: Option<String>,
    pub newer_than: Option<String>,
}

/// What an optional age argument denotes: `None` for a value that
/// does not parse, else the optional day count.
pub open spec fn spec_age_field(o: Option<String>) -> Option<Option<u32>> {
    match o {
        Some(s) => match spec_parse_age(s@) {
            Some(d) => Some(Some(d as u32)),
            None => None,
        },
        None => Some(None),
    }
}

/// The filter a list command denotes: a preset when one is asked for
/// (earlier presets win), else the filter assembled from the
/// individual flags; `None` when an age argument does not parse.
pub open spec fn spec_list_filter(c: ListCommand) -> Option<WorktreeFilter> {
    if c.prune_candidates {
        Some(
            WorktreeFilter {
                likely_merged: Some(true),
                clean: Some(true),
                older_than_days: Some(7u32),
                ..WorktreeFilter::spec_empty()
            },
        )
    } else if c.active {
        Some(
            WorktreeFilter {
                not_merged: Some(true),
                newer_than_days: Some(7u32),
                ..WorktreeFilter::spec_empty()
            },
        )
    } else if c.needs_attention {
        Some(WorktreeFilter { is_needs_attention: true, ..WorktreeFilter::spec_empty() })
    } else if c.stale {
        Some(WorktreeFilter { older_than_days: Some(30u32), ..WorktreeFilter::spec_empty() })
    } else {
        match (spec_age_field(c.older_than), spec_age_field(c.newer_than)) {
            (Some(older), Some(newer)) => Some(
                WorktreeFilter {
                    dirty: if c.dirty {
                        Some(true)
                    } else {
                        None
                    },
                    clean: if c.clean {
                        Some(true)
                    } else {
                        None
                    },
                    staged: if c.staged {
                        Some(true)
                    } else {
                        None
                    },
                    missing: if c.missing {
                        Some(true)
                    } else {
                        None
                    },
                    ahead: if c.ahead {
                        Some(true)
                    } else {
                        None
                    },
                    behind: if c.behind {
                        Some(true)
                    } else {
                        None
                    },
                    diverged: if c.diverged {
                        Some(true)
                    } else {
                        None
                    },
                    not_pushed: if c.not_pushed {
                        Some(true)
                    } else {
                        None
                    },
                    not_tracking: if c.not_tracking {
                        Some(true)
                    } else {
                        None
                    },
                    up_to_date: if c.up_to_date {
                        Some(true)
                    } else {
                        None
                    },
                    older_than_days: older,
                    newer_than_days: newer,
                    ..WorktreeFilter::spec_empty()
                },
            ),
            _ => None,
        }
    }
}

/// Some filtering argument is present.
pub open spec fn spec_has_filters(c: ListCommand) -> bool {
    ||| c.prune_candidates
    ||| c.active
    ||| c.needs_attention
    ||| c.stale
    ||| c.dirty
    ||| c.clean
    ||| c.staged
    ||| c.missing
    ||| c.ahead
    ||| c.behind
    ||| c.diverged
    ||| c.not_pushed
    ||| c.not_tracking
    ||| c.up_to_date
    ||| c.older_than is Some
    ||| c.newer_than is Some
}

/// The names of the active filters, in display order.
pub open spec fn spec_filter_names(c: ListCommand) -> Seq<Seq<char>> {
    let l0 = Seq::<Seq<char>>::empty();
    let l1 = if c.prune_candidates {
        l0.push("prune-candidates"@)
    } else {
        l0
    };
    let l2 = if c.active {
        l1.push("active"@)
    } else {
        l1
    };
    let l3 = if c.needs_attention {
        l2.push("needs-attention"@)
    } else {
        l2
    };
    let l4 = if c.stale {
        l3.push("stale"@)
    } else {
        l3
    };
    let l5 = if c.dirty {
        l4.push("dirty"@)
    } else {
        l4
    };
    let l6 = if c.clean {
        l5.push("clean"@)
    } else {
        l5
    };
    let l7 = if c.staged {
        l6.push("staged"@)
    } else {
        l6
    };
    let l8 = if c.missing {
        l7.push("missing"@)
    } else {
        l7
    };
    let l9 = if c.ahead {
        l8.push("ahead"@)
    } else {
        l8
    };
    let l10 = if c.behind {
        l9.push("behind"@)
    } else {
        l9
    };
    let l11 = if c.diverged {
        l10.push("diverged"@)
    } else {
        l10
    };
    let l12 = if c.not_pushed {
        l11.push("not-pushed"@)
    } else {
        l11
    };
    let l13 = if c.not_tracking {
        l12.push("not-tracking"@)
    } else {
        l12
    };
    let l14 = if c.up_to_date {
        l13.push("up-to-date"@)
    } else {
        l13
    };
    let l15 = match c.older_than {
        Some(age) => l14.push("older-than-"@ + age@),
        None => l14,
    };
    match c.newer_than {
        Some(age) => l15.push("newer-than-"@ + age@),
        None => l15,
    }
}

impl ListCommand {
    /// The filter this command's arguments denote.
    pub fn build_filter(&self) -> (r: Result<WorktreeFilter, String>)
        ensures
            match r {
                Ok(f) => spec_list_filter(*self) == Some(f),
                Err(_) => spec_list_filter(*self) is None,
            },
    {
        if self.prune_candidates {
            return Result::Ok(WorktreeFilter::prune_candidates());
        }
        if self.active {
            return Result::Ok(WorktreeFilter::active());
        }
        if self.needs_attention {
            return Result::Ok(WorktreeFilter::needs_attention());
        }
        if self.stale {
            return Result::Ok(WorktreeFilter::stale());
        }
        let mut filter = WorktreeFilter::new();
        if self.dirty {
            filter.dirty = Option::Some(true);
        }
        if self.clean {
            filter.clean = Option::Some(true);
        }
        if self.staged {
            filter.staged = Option::Some(true);
        }
        if self.missing {
            filter.missing = Option::Some(true);
        }
        if self.ahead {
            filter.ahead = Option::Some(true);
        }
        if self.behind {
            filter.behind = Option::Some(true);
        }
        if self.diverged {
            filter.diverged = Option::Some(true);
        }
        if self.not_pushed {
            filter.not_pushed = Option::Some(true);
        }
        if self.not_tracking {
            filter.not_tracking = Option::Some(true);
        }
        if self.up_to_date {
            filter.up_to_date = Option::Some(true);
        }
        if let Option::Some(age_str) = &self.older_than {
            match WorktreeFilter::parse_age_to_days(age_str.as_str()) {
                Result::Ok(days) => {
                    filter.older_than_days = Option::Some(days);
                },
                Result::Err(e) => {
                    return Result::Err(e);
                },
            }
        }
        if let Option::Some(age_str) = &self.newer_than {
            match WorktreeFilter::parse_age_to_days(age_str.as_str()) {
                Result::Ok(days) => {
                    filter.newer_than_days = Option::Some(days);
                },
                Result::Err(e) => {
                    return Result::Err(e);
                },
            }
        }
        Result::Ok(filter)
    }

    /// Whether any filtering argument is present.
    pub fn has_filters(&self) -> (r: bool)
        ensures
            r == spec_has_filters(*self),
    {
        self.prune_candidates || self.active || self.needs_attention || self.stale || self.dirty
            || self.clean || self.staged || self.missing || self.ahead || self.behind
            || self.diverged || self.not_pushed || self.not_tracking || self.up_to_date
            || self.older_than.is_some() || self.newer_than.is_some()
    }

    /// The active filters, named for user feedback, separated by
    /// commas.
    #[verifier::rlimit(100)]
    pub fn describe_filters(&self) -> (r: String)
        ensures
            r@ == spec_join(spec_filter_names(*self), ", "@),
    {
        let mut filters: Vec<String> = Vec::new();
        proof {
            assert(str_views(filters@) =~= Seq::<Seq<char>>::empty());
        }
        if self.prune_candidates {
            push_name(&mut filters, "prune-candidates");
        }
        if self.active {
            push_name(&mut filters, "active");
        }
        if self.needs_attention {
            push_name(&mut filters, "needs-attention");
        }
        if self.stale {
            push_name(&mut filters, "stale");
        }
        if self.dirty {
            push_name(&mut filters, "dirty");
        }
        if self.clean {
            push_name(&mut filters, "clean");
        }
        if self.staged {
            push_name(&mut filters, "staged");
        }
        if self.missing {
            push_name(&mut filters, "missing");
        }
        if self.ahead {
            push_name(&mut filters, "ahead");
        }
        if self.behind {
            push_name(&mut filters, "behind");
        }
        if self.diverged {
            push_name(&mut filters, "diverged");
        }
        if self.not_pushed {
            push_name(&mut filters, "not-pushed");
        }
        if self.not_tracking {
            push_name(&mut filters, "not-tracking");
        }
        if self.up_to_date {
            push_name(&mut filters, "up-to-date");
        }
        if let Option::Some(age) = &self.older_than {
            let ghost before = filters@;
            let mut s = String::from_str("older-than-");
            s.append(age.as_str());
            filters.push(s);
            proof {
                crate::strutil::lemma_str_views_push(before, filters@.last());
            }
        }
        if let Option::Some(age) = &self.newer_than {
            let ghost before = filters@;
            let mut s = String::from_str("newer-than-");
            s.append(age.as_str());
            filters.push(s);
            proof {
                crate::strutil::lemma_str_views_push(before, filters@.last());
            }
        }
        proof {
            assert(str_views(filters@) =~= spec_filter_names(*self));
        }
        join_strings(&filters, ", ")
    }
}

/// Push one filter name.
fn push_name(filters: &mut Vec<String>, name: &str)
    ensures
        str_views(final(filters)@) == str_views(old(filters)@).push(name@),
{
    let ghost before = filters@;
    filters.push(String::from_str(name));
    proof {
        crate::strutil::lemma_str_views_push(before, filters@.last());
    }
}

} // verus!
