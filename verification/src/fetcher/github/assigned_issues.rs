//! `github_assigned_issues` — open issues assigned to the authenticated user across every repo.

use vstd::prelude::*;
use vstd::string::*;

use crate::fetcher::FetchContext;
use super::common::{cache_key as keyed_cache_key, spec_cache_key};

use crate::fetcher::forge_items::{forge_body_ok, ForgeRow};
use crate::fetcher::{limit_or, spec_limit, OptionSchema, Safety};
use crate::payload::{spec_shape_of, Body};
use crate::render::{shape_in, Shape};
use crate::samples;
use crate::text::opt_str_view;
use crate::text::{dec, u64_to_string};

use super::items::{render_items, rows_of_items, IssueItem};

verus! {

/// The `github_assigned_issues` fetcher.
pub struct GithubAssignedIssues;

/// Widget options.
#[derive(Debug, Default, Clone)]
pub struct Options {
    pub limit: Option<u32>,
}

pub open spec fn spec_shapes() -> Seq<Shape> {
    seq![Shape::LinkedTextBlock, Shape::TextBlock, Shape::Entries, Shape::Timeline]
}

impl GithubAssignedIssues {
    /// Cache key: the context alone.
    pub fn cache_key(&self, ctx: &FetchContext) -> (k: String)
        ensures
            k@ == spec_cache_key("github_assigned_issues"@, *ctx, ""@),
    {
        keyed_cache_key("github_assigned_issues", ctx, "")
    }
}

impl GithubAssignedIssues {
    /// Catalog name.
    pub fn name(&self) -> (r: &'static str)
        ensures
            r@ == "github_assigned_issues"@,
    {
        "github_assigned_issues"
    }

    /// Trust class.
    pub fn safety(&self) -> (r: Safety)
        ensures
            r == Safety::Safe,
    {
        Safety::Safe
    }

    /// One-paragraph catalog description.
    pub fn description(&self) -> (r: &'static str)
        ensures
            r@ == "Open issues assigned to the authenticated user across every repo. Pairs with `github_my_prs`, `github_review_requests`, and `github_notifications` to cover the personal queue."@,
    {
        "Open issues assigned to the authenticated user across every repo. Pairs with `github_my_prs`, `github_review_requests`, and `github_notifications` to cover the personal queue."
    }

    /// Shapes this fetcher can produce.
    pub fn shapes(&self) -> (r: Vec<Shape>)
        ensures
            r@ == spec_shapes(),
    {
        let r = vec![Shape::LinkedTextBlock, Shape::TextBlock, Shape::Entries, Shape::Timeline];
        assert(r@ =~= spec_shapes());
        r
    }

    /// Shape used when the widget names none.
    pub fn default_shape(&self) -> (r: Shape)
        ensures
            r == Shape::LinkedTextBlock,
    {
        Shape::LinkedTextBlock
    }

    /// Documented options.
    pub fn option_schemas(&self) -> (r: Vec<OptionSchema>)
        ensures
            r@.len() == 1,
            r@[0].name@ == "limit"@,
            r@[0].required == false,
            opt_str_view(r@[0].default) == Some("10"@),
    {
        vec![
            OptionSchema {
                name: "limit",
                type_hint: "integer (1..=30)",
                required: false,
                default: Some("10"),
                description: "Maximum number of issues to show.",
            },
        ]
    }

}

/// Search path for the configured limit (default 10, clamped to 1..=30).
pub fn request_path(opts: &Options) -> (r: String)
    ensures
        r@ == "/search/issues?q=is%3Aissue+is%3Aopen+assignee%3A%40me&per_page="@ + dec(spec_limit(opts.limit, 10, 1, 30) as nat) + "&sort=updated"@,
{
    let limit = limit_or(opts.limit, 10, 1, 30);
    let mut r = String::from_str("/search/issues?q=is%3Aissue+is%3Aopen+assignee%3A%40me&per_page=");
    let n = u64_to_string(limit as u64);
    r.append(n.as_str());
    r.append("&sort=updated");
    r
}

/// Body for the search results in the requested shape (default
/// `LinkedTextBlock`), labels carrying the repository.
pub fn render_body(items: &[IssueItem], shape: Option<Shape>) -> (b: Body)
    requires
        shape != Some(Shape::Badge),
        shape != Some(Shape::ImageLinkedList),
    ensures
        exists|rows: Seq<ForgeRow>|
            rows_of_items(items@, true, rows) && forge_body_ok(
                rows,
                match shape {
                    Some(s) => s,
                    None => Shape::LinkedTextBlock,
                },
                b,
            ),
{
    let s = match shape {
        Some(s) => s,
        None => Shape::LinkedTextBlock,
    };
    render_items(items, s, true)
}

impl GithubAssignedIssues {
    /// Catalog sample for a supported shape.
    pub fn sample_body(&self, shape: Shape) -> (r: Option<Body>)
        ensures
            r is Some <==> shape_in(shape, spec_shapes()),
            r matches Some(b) ==> spec_shape_of(b) == shape,
    {
        assert(spec_shapes()[0] == Shape::LinkedTextBlock);
        assert(spec_shapes()[1] == Shape::TextBlock);
        assert(spec_shapes()[2] == Shape::Entries);
        assert(spec_shapes()[3] == Shape::Timeline);
        match shape {
            Shape::LinkedTextBlock => Some(
                samples::linked_text_block(
                    &[
                (
                    "unhappychoice/splashboard#41 meta: widget catalog & roadmap",
                    Some("https://github.com/unhappychoice/splashboard/issues/41"),
                ),
                (
                    "unhappychoice/splashboard#17 theme system",
                    Some("https://github.com/unhappychoice/splashboard/issues/17"),
                ),
                    ],
                ),
            ),
            Shape::TextBlock => Some(samples::text_block(&["unhappychoice/splashboard#41 meta: widget catalog & roadmap", "unhappychoice/splashboard#17 theme system"])),
            Shape::Entries => Some(samples::entries(&[("splashboard #41", "meta: widget catalog"), ("splashboard #17", "theme system")])),
            Shape::Timeline => Some(samples::timeline(&[(1774000000, "splashboard#41", Some("meta: widget catalog")), (1773500000, "splashboard#17", Some("theme system"))])),
            _ => None,
        }
    }
}

} // verus!
