//! `github_repo_prs` — open pull requests for one repository.

use vstd::prelude::*;
use vstd::string::*;

use crate::fetcher::FetchContext;
use super::common::{cache_key as keyed_cache_key, spec_cache_key};

use crate::fetcher::forge_items::{dispatch_sample, spec_list_shapes};
use crate::fetcher::{limit_or, spec_limit, OptionSchema, Safety};
use crate::payload::{spec_shape_of, Body};
use crate::render::{shape_in, Shape};
use crate::text::opt_str_view;
use crate::text::{dec, u64_to_string};

use super::common::RepoSlug;
use super::items::sample_rows;

verus! {

/// The `github_repo_prs` fetcher.
pub struct GithubRepoPrs;

/// Widget options.
#[derive(Debug, Default, Clone)]
pub struct Options {
    pub repo: Option<String>,
    pub limit: Option<u32>,
}

pub open spec fn spec_shapes() -> Seq<Shape> {
    seq![Shape::LinkedTextBlock, Shape::TextBlock, Shape::MarkdownTextBlock, Shape::ImageLinkedList, Shape::Entries, Shape::Text, Shape::Bars, Shape::Badge, Shape::Timeline]
}

impl GithubRepoPrs {
    /// Cache key: the context plus the target repository (`owner/name`).
    pub fn cache_key(&self, ctx: &FetchContext, repo: &str) -> (k: String)
        ensures
            k@ == spec_cache_key("github_repo_prs"@, *ctx, repo@),
    {
        keyed_cache_key("github_repo_prs", ctx, repo)
    }
}

impl GithubRepoPrs {
    /// Catalog name.
    pub fn name(&self) -> (r: &'static str)
        ensures
            r@ == "github_repo_prs"@,
    {
        "github_repo_prs"
    }

    /// Trust class.
    pub fn safety(&self) -> (r: Safety)
        ensures
            r == Safety::Safe,
    {
        Safety::Safe
    }

    /// One-paragraph catalog description.
    pub fn description(&self) -> (r: &'static str)
        ensures
            r@ == "Open pull requests for a target repo, sorted by most recently updated. Use `github_my_prs` instead for PRs authored by the authenticated user across all repos."@,
    {
        "Open pull requests for a target repo, sorted by most recently updated. Use `github_my_prs` instead for PRs authored by the authenticated user across all repos."
    }

    /// Shapes this fetcher can produce.
    pub fn shapes(&self) -> (r: Vec<Shape>)
        ensures
            r@ == spec_shapes(),
    {
        let r = vec![Shape::LinkedTextBlock, Shape::TextBlock, Shape::MarkdownTextBlock, Shape::ImageLinkedList, Shape::Entries, Shape::Text, Shape::Bars, Shape::Badge, Shape::Timeline];
        assert(r@ =~= spec_shapes());
        r
    }

    /// Shape used when the widget names none.
    pub fn default_shape(&self) -> (r: Shape)
        ensures
            r == Shape::LinkedTextBlock,
    {
        Shape::LinkedTextBlock
    }

    /// Seconds between background refreshes.
    pub fn refresh_interval(&self) -> (r: u64)
        ensures
            r == 600,
    {
        600
    }

    /// Documented options.
    pub fn option_schemas(&self) -> (r: Vec<OptionSchema>)
        ensures
            r@.len() == 2,
            r@[0].name@ == "repo"@,
            r@[0].required == false,
            opt_str_view(r@[0].default) == Some("git remote of cwd"@),
            r@[1].name@ == "limit"@,
            r@[1].required == false,
            opt_str_view(r@[1].default) == Some("10"@),
    {
        vec![
            OptionSchema {
                name: "repo",
                type_hint: "\"owner/name\"",
                required: false,
                default: Some("git remote of cwd"),
                description: "Repository to list PRs for. Falls back to the current directory's github remote.",
            },
            OptionSchema {
                name: "limit",
                type_hint: "integer (1..=30)",
                required: false,
                default: Some("10"),
                description: "Maximum number of PRs to show.",
            },
        ]
    }

}

/// Pulls endpoint for a repository and the configured limit (default 10, 1..=30).
pub fn request_path(slug: &RepoSlug, opts: &Options) -> (r: String)
    ensures
        r@ == "/repos/"@ + slug.owner@ + "/"@ + slug.name@
            + "/pulls?state=open&sort=updated&direction=desc&per_page="@ + dec(
            spec_limit(opts.limit, 10, 1, 30) as nat,
        ),
{
    let limit = limit_or(opts.limit, 10, 1, 30);
    let mut r = String::from_str("/repos/");
    r.append(slug.owner.as_str());
    r.append("/");
    r.append(slug.name.as_str());
    r.append("/pulls?state=open&sort=updated&direction=desc&per_page=");
    let n = u64_to_string(limit as u64);
    r.append(n.as_str());
    r
}

impl GithubRepoPrs {
    /// Catalog sample: two pull requests through the shared list dispatcher.
    pub fn sample_body(&self, shape: Shape) -> (r: Option<Body>)
        ensures
            r is Some <==> shape_in(shape, spec_list_shapes()),
            r matches Some(b) ==> spec_shape_of(b) == shape,
    {
        let rows = sample_rows(
            &[
                (
                    "#54",
                    "feat(docs): generate widget catalogue",
                    Some("https://github.com/unhappychoice/splashboard/pull/54"),
                    7,
                    1_774_000_000,
                ),
                (
                    "#51",
                    "feat(fetcher): split clock options",
                    Some("https://github.com/unhappychoice/splashboard/pull/51"),
                    2,
                    1_773_800_000,
                ),
            ],
        );
        assert(spec_list_shapes()[7] == Shape::Badge);
        let r = dispatch_sample(rows.as_slice(), shape, "open PR", "open PRs");
        r
    }
}

} // verus!
