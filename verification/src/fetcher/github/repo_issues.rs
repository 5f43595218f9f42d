//! `github_repo_issues` — open issues for one repository, pull requests filtered out.

use vstd::prelude::*;
use vstd::string::*;

use crate::fetcher::FetchContext;
use super::common::{cache_key as keyed_cache_key, spec_cache_key};

use crate::fetcher::forge_items::{forge_body_ok, ForgeRow};
use crate::fetcher::{limit_or, spec_limit, OptionSchema, Safety};
use crate::payload::{spec_shape_of, Body};
use crate::render::{shape_in, Shape};
use crate::samples;
use crate::text::opt_str_view;
use crate::text::{dec, u64_to_string};

use super::common::RepoSlug;
use super::items::{render_items, rows_of_items, IssueItem};

verus! {

/// The `github_repo_issues` fetcher.
pub struct GithubRepoIssues;

/// Widget options.
#[derive(Debug, Default, Clone)]
pub struct Options {
    pub repo: Option<String>,
    pub limit: Option<u32>,
}

/// One row of the issues endpoint, which also lists pull requests.
#[derive(Debug, Clone, Default)]
pub struct RepoIssueItem {
    /// The row carries a `pull_request` block.
    pub is_pull_request: bool,
    pub inner: IssueItem,
}

pub open spec fn spec_shapes() -> Seq<Shape> {
    seq![Shape::LinkedTextBlock, Shape::TextBlock, Shape::Entries, Shape::Timeline]
}

impl GithubRepoIssues {
    /// Cache key: the context plus the target repository (`owner/name`).
    pub fn cache_key(&self, ctx: &FetchContext, repo: &str) -> (k: String)
        ensures
            k@ == spec_cache_key("github_repo_issues"@, *ctx, repo@),
    {
        keyed_cache_key("github_repo_issues", ctx, repo)
    }
}

impl GithubRepoIssues {
    /// Catalog name.
    pub fn name(&self) -> (r: &'static str)
        ensures
            r@ == "github_repo_issues"@,
    {
        "github_repo_issues"
    }

    /// Trust class.
    pub fn safety(&self) -> (r: Safety)
        ensures
            r == Safety::Safe,
    {
        Safety::Safe
    }

    /// One-paragraph catalog description.
    pub fn description(&self) -> (r: &'static str)
        ensures
            r@ == "Open issues for a target repo, sorted by most recently updated, with pull requests filtered out client-side. Use `github_assigned_issues` for the personal queue across all repos."@,
    {
        "Open issues for a target repo, sorted by most recently updated, with pull requests filtered out client-side. Use `github_assigned_issues` for the personal queue across all repos."
    }

    /// Shapes this fetcher can produce.
    pub fn shapes(&self) -> (r: Vec<Shape>)
        ensures
            r@ == spec_shapes(),
    {
        let r = vec![Shape::LinkedTextBlock, Shape::TextBlock, Shape::Entries, Shape::Timeline];
        assert(r@ =~= spec_shapes());
        r
    }

    /// Shape used when the widget names none.
    pub fn default_shape(&self) -> (r: Shape)
        ensures
            r == Shape::LinkedTextBlock,
    {
        Shape::LinkedTextBlock
    }

    /// Documented options.
    pub fn option_schemas(&self) -> (r: Vec<OptionSchema>)
        ensures
            r@.len() == 2,
            r@[0].name@ == "repo"@,
            r@[0].required == false,
            opt_str_view(r@[0].default) == Some("git remote of cwd"@),
            r@[1].name@ == "limit"@,
            r@[1].required == false,
            opt_str_view(r@[1].default) == Some("10"@),
    {
        vec![
            OptionSchema {
                name: "repo",
                type_hint: "\"owner/name\"",
                required: false,
                default: Some("git remote of cwd"),
                description: "Repository to list issues for. Falls back to the current directory's github remote.",
            },
            OptionSchema {
                name: "limit",
                type_hint: "integer (1..=30)",
                required: false,
                default: Some("10"),
                description: "Maximum number of issues to show.",
            },
        ]
    }

}

/// Rows requested: twice the limit (pull requests are dropped client-side), at most 100.
pub open spec fn spec_fetch_size(opts: Options) -> int {
    if 2 * spec_limit(opts.limit, 10, 1, 30) < 100 {
        2 * spec_limit(opts.limit, 10, 1, 30)
    } else {
        100
    }
}

/// Issues endpoint for a repository, over-fetching to make room for pull requests.
pub fn request_path(slug: &RepoSlug, opts: &Options) -> (r: String)
    ensures
        r@ == "/repos/"@ + slug.owner@ + "/"@ + slug.name@
            + "/issues?state=open&sort=updated&direction=desc&per_page="@ + dec(
            spec_fetch_size(*opts) as nat,
        ),
{
    let limit = limit_or(opts.limit, 10, 1, 30);
    let size = if limit * 2 < 100 {
        limit * 2
    } else {
        100
    };
    let mut r = String::from_str("/repos/");
    r.append(slug.owner.as_str());
    r.append("/");
    r.append(slug.name.as_str());
    r.append("/issues?state=open&sort=updated&direction=desc&per_page=");
    let n = u64_to_string(size as u64);
    r.append(n.as_str());
    r
}

/// The issue rows (pull requests dropped) of a response, in order.
pub open spec fn spec_issues_only(items: Seq<RepoIssueItem>) -> Seq<IssueItem>
    decreases items.len(),
{
    if items.len() == 0 {
        Seq::empty()
    } else if items.last().is_pull_request {
        spec_issues_only(items.drop_last())
    } else {
        spec_issues_only(items.drop_last()).push(items.last().inner)
    }
}

/// Keeps the first `limit` rows that are not pull requests, in response order.
pub fn select_issues(items: &[RepoIssueItem], limit: usize) -> (r: Vec<IssueItem>)
    ensures
        r@.len() <= limit,
        r@ == (if spec_issues_only(items@).len() <= limit {
            spec_issues_only(items@)
        } else {
            spec_issues_only(items@).take(limit as int)
        }),
{
    let mut r: Vec<IssueItem> = Vec::new();
    let mut k: usize = 0;
    while k < items.len() && r.len() < limit
        invariant
            k <= items@.len(),
            r@ == spec_issues_only(items@.take(k as int)),
            r@.len() <= limit,
        decreases items@.len() - k,
    {
        assert(items@.take(k + 1).drop_last() =~= items@.take(k as int));
        if !items[k].is_pull_request {
            r.push(items[k].inner.copy());
        }
        k = k + 1;
    }
    proof {
        lemma_issues_only_prefix(items@, k as int);
    }
    r
}

/// Issues of a prefix are a prefix of the issues; once the limit is hit the
/// selection equals the truncated whole.
proof fn lemma_issues_only_prefix(items: Seq<RepoIssueItem>, k: int)
    requires
        0 <= k <= items.len(),
    ensures
        spec_issues_only(items.take(k)).len() <= spec_issues_only(items).len(),
        spec_issues_only(items).take(spec_issues_only(items.take(k)).len() as int)
            == spec_issues_only(items.take(k)),
        k == items.len() ==> spec_issues_only(items.take(k)) == spec_issues_only(items),
    decreases items.len() - k,
{
    if k == items.len() {
        assert(items.take(k) =~= items);
    } else {
        lemma_issues_only_prefix(items, k + 1);
        assert(items.take(k + 1).drop_last() =~= items.take(k));
        let a = spec_issues_only(items.take(k));
        let b = spec_issues_only(items.take(k + 1));
        let c = spec_issues_only(items);
        assert(c.take(a.len() as int) =~= b.take(a.len() as int));
        assert(b.take(a.len() as int) =~= a);
    }
}

/// No pull request survives the selection.
pub proof fn lemma_selection_has_no_pull_requests(items: Seq<RepoIssueItem>, i: int)
    requires
        0 <= i < spec_issues_only(items).len(),
    ensures
        exists|j: int| 0 <= j < items.len() && !items[j].is_pull_request && items[j].inner
            == spec_issues_only(items)[i],
    decreases items.len(),
{
    if items.len() > 0 {
        let rest = items.drop_last();
        if i < spec_issues_only(rest).len() {
            lemma_selection_has_no_pull_requests(rest, i);
            let j = choose|j: int| 0 <= j < rest.len() && !rest[j].is_pull_request && rest[j].inner
                == spec_issues_only(rest)[i];
            assert(items[j] == rest[j]);
        } else {
            assert(items[items.len() - 1] == items.last());
        }
    }
}

/// Body for the selected issues in the requested shape (default
/// `LinkedTextBlock`), labels without the repository.
pub fn render_body(issues: &[IssueItem], shape: Option<Shape>) -> (b: Body)
    requires
        shape != Some(Shape::Badge),
        shape != Some(Shape::ImageLinkedList),
    ensures
        exists|rows: Seq<ForgeRow>|
            rows_of_items(issues@, false, rows) && forge_body_ok(
                rows,
                match shape {
                    Some(s) => s,
                    None => Shape::LinkedTextBlock,
                },
                b,
            ),
{
    let s = match shape {
        Some(s) => s,
        None => Shape::LinkedTextBlock,
    };
    render_items(issues, s, false)
}

impl GithubRepoIssues {
    /// Catalog sample for a supported shape.
    pub fn sample_body(&self, shape: Shape) -> (r: Option<Body>)
        ensures
            r is Some <==> shape_in(shape, spec_shapes()),
            r matches Some(b) ==> spec_shape_of(b) == shape,
    {
        assert(spec_shapes()[0] == Shape::LinkedTextBlock);
        assert(spec_shapes()[1] == Shape::TextBlock);
        assert(spec_shapes()[2] == Shape::Entries);
        assert(spec_shapes()[3] == Shape::Timeline);
        match shape {
            Shape::LinkedTextBlock => Some(
                samples::linked_text_block(
                    &[
                        (
                            "#41 meta: widget catalog & roadmap",
                            Some("https://github.com/unhappychoice/splashboard/issues/41"),
                        ),
                        ("#17 theme system", Some("https://github.com/unhappychoice/splashboard/issues/17")),
                    ],
                ),
            ),
            Shape::TextBlock => Some(
                samples::text_block(&["#41 meta: widget catalog & roadmap", "#17 theme system"]),
            ),
            Shape::Entries => Some(
                samples::entries(&[("#41", "meta: widget catalog"), ("#17", "theme system")]),
            ),
            Shape::Timeline => Some(
                samples::timeline(
                    &[
                        (1_774_000_000, "#41", Some("meta: widget catalog")),
                        (1_773_500_000, "#17", Some("theme system")),
                    ],
                ),
            ),
            _ => None,
        }
    }
}

} // verus!
