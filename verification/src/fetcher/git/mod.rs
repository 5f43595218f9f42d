//! Read-only fetchers over the git repository that contains the working directory.
//! The repository walk itself happens outside this library; these modules take what the
//! walk found and shape it into bodies.

use vstd::prelude::*;
use vstd::string::*;

use crate::fetcher::{
    format_key, keyed, push_format_key, push_shape_key, shape_key, spec_keyed, FetchContext,
    FetchError,
};
use crate::payload::{Body, Payload, TextBlockData, TextData};

pub mod age;
pub mod churn;
pub mod contributors;
pub mod stash_count;
pub mod repo_name;
pub mod latest_tag;
pub mod recent_commits;
pub mod worktrees;
pub mod status;
pub mod commits_activity;
pub mod blame_heatmap;

verus! {

/// Cache key that mixes in the repository root (empty when none was discovered), so two
/// repositories never share an entry, and the shape and format.
pub open spec fn spec_repo_cache_key(name: Seq<char>, root: Seq<char>, ctx: FetchContext) -> Seq<char> {
    spec_keyed(
        name,
        name + "|"@ + root + "|"@ + shape_key(ctx.shape) + "|"@ + format_key(ctx.format),
    )
}

/// Cache key of a git fetcher run in the repository rooted at `root`.
pub fn repo_cache_key(name: &str, root: &str, ctx: &FetchContext) -> (k: String)
    ensures
        k@ == spec_repo_cache_key(name@, root@, *ctx),
{
    let mut raw = String::from_str(name);
    raw.append("|");
    raw.append(root);
    raw.append("|");
    push_shape_key(&mut raw, ctx.shape);
    raw.append("|");
    push_format_key(&mut raw, &ctx.format);
    keyed(name, raw.as_str())
}

/// Wraps a body in an undecorated payload.
pub fn payload(body: Body) -> (p: Payload)
    ensures
        p.icon is None,
        p.status is None,
        p.format is None,
        p.body == body,
{
    Payload { icon: None, status: None, format: None, body }
}

/// A `Text` body.
pub fn text_body(value: &str) -> (b: Body)
    ensures
        b matches Body::Text(d) && d.value@ == value@,
{
    Body::Text(TextData { value: String::from_str(value) })
}

/// A `TextBlock` body.
pub fn text_block_body(values: Vec<String>) -> (b: Body)
    ensures
        b matches Body::TextBlock(d) && d.lines == values,
{
    Body::TextBlock(TextBlockData { lines: values })
}

/// A failed fetch carrying the error's display text.
pub fn fail<E: std::fmt::Display>(e: E) -> (r: FetchError)
    ensures
        r matches FetchError::Failed(m) && to_string_from_display_ensures::<E>(&e, m),
{
    FetchError::Failed(e.to_string())
}


/// The fetchers of the `git_*` family.
#[derive(Debug, Clone, Copy, PartialEq, Eq, Structural)]
pub enum GitFetcher {
    Status,
    StashCount,
    RecentCommits,
    Contributors,
    CommitsActivity,
    LatestTag,
    Worktrees,
    BlameHeatmap,
    RepoName,
    Age,
    Churn,
}

/// Catalog name of a git fetcher.
pub open spec fn spec_git_name(f: GitFetcher) -> Seq<char> {
    match f {
        GitFetcher::Status => "git_status"@,
        GitFetcher::StashCount => "git_stash_count"@,
        GitFetcher::RecentCommits => "git_recent_commits"@,
        GitFetcher::Contributors => "git_contributors"@,
        GitFetcher::CommitsActivity => "git_commits_activity"@,
        GitFetcher::LatestTag => "git_latest_tag"@,
        GitFetcher::Worktrees => "git_worktrees"@,
        GitFetcher::BlameHeatmap => "git_blame_heatmap"@,
        GitFetcher::RepoName => "git_repo_name"@,
        GitFetcher::Age => "git_age"@,
        GitFetcher::Churn => "git_churn"@,
    }
}

impl GitFetcher {
    /// Catalog name.
    pub fn name(&self) -> (r: &'static str)
        ensures
            r@ == spec_git_name(*self),
    {
        match self {
            GitFetcher::Status => status::GitStatus.name(),
            GitFetcher::StashCount => stash_count::GitStashCount.name(),
            GitFetcher::RecentCommits => recent_commits::GitRecentCommits.name(),
            GitFetcher::Contributors => contributors::GitContributors.name(),
            GitFetcher::CommitsActivity => commits_activity::GitCommitsActivity.name(),
            GitFetcher::LatestTag => latest_tag::GitLatestTag.name(),
            GitFetcher::Worktrees => worktrees::GitWorktrees.name(),
            GitFetcher::BlameHeatmap => blame_heatmap::GitBlameHeatmap.name(),
            GitFetcher::RepoName => repo_name::GitRepoName.name(),
            GitFetcher::Age => age::GitAge.name(),
            GitFetcher::Churn => churn::GitChurn.name(),
        }
    }
}

/// The registration order of the family.
pub open spec fn spec_git_fetchers() -> Seq<GitFetcher> {
    seq![GitFetcher::Status, GitFetcher::StashCount, GitFetcher::RecentCommits, GitFetcher::Contributors, GitFetcher::CommitsActivity, GitFetcher::LatestTag, GitFetcher::Worktrees, GitFetcher::BlameHeatmap, GitFetcher::RepoName, GitFetcher::Age, GitFetcher::Churn]
}

/// Every git fetcher, in registration order.
pub fn fetchers() -> (v: Vec<GitFetcher>)
    ensures
        v@ == spec_git_fetchers(),
{
    let v = vec![GitFetcher::Status, GitFetcher::StashCount, GitFetcher::RecentCommits, GitFetcher::Contributors, GitFetcher::CommitsActivity, GitFetcher::LatestTag, GitFetcher::Worktrees, GitFetcher::BlameHeatmap, GitFetcher::RepoName, GitFetcher::Age, GitFetcher::Churn];
    assert(v@ =~= spec_git_fetchers());
    v
}

} // verus!
