//! `github_good_first_issues` — open issues labelled for newcomers.

use vstd::prelude::*;
use vstd::string::*;

use crate::fetcher::FetchContext;
use super::common::{cache_key as keyed_cache_key, spec_cache_key};

use crate::fetcher::forge_items::{forge_body_ok, ForgeRow};
use crate::fetcher::{limit_or, spec_limit, FetchError, OptionSchema, Safety};
use crate::payload::{spec_shape_of, Body};
use crate::render::{shape_in, Shape};
use crate::samples;
use crate::text::opt_str_view;
use crate::text::{dec, replace_char, replace_char_str, u64_to_string};

use super::common::{debug_quote, invalid_repo_message, spec_parse_slug, RepoSlug};
use super::items::{render_items, rows_of_items, IssueItem};

verus! {

/// The `github_good_first_issues` fetcher.
pub struct GithubGoodFirstIssues;

/// Widget options.
#[derive(Debug, Default, Clone)]
pub struct Options {
    pub repo: Option<String>,
    pub limit: Option<u32>,
    pub label: Option<String>,
}

pub open spec fn spec_shapes() -> Seq<Shape> {
    seq![Shape::LinkedTextBlock, Shape::TextBlock, Shape::Entries, Shape::Timeline]
}

impl GithubGoodFirstIssues {
    /// Cache key: the context plus the target repository (`owner/name`).
    pub fn cache_key(&self, ctx: &FetchContext, repo: &str) -> (k: String)
        ensures
            k@ == spec_cache_key("github_good_first_issues"@, *ctx, repo@),
    {
        keyed_cache_key("github_good_first_issues", ctx, repo)
    }
}

impl GithubGoodFirstIssues {
    /// Catalog name.
    pub fn name(&self) -> (r: &'static str)
        ensures
            r@ == "github_good_first_issues"@,
    {
        "github_good_first_issues"
    }

    /// Trust class.
    pub fn safety(&self) -> (r: Safety)
        ensures
            r == Safety::Safe,
    {
        Safety::Safe
    }

    /// One-paragraph catalog description.
    pub fn description(&self) -> (r: &'static str)
        ensures
            r@ == "Open issues labelled good-first-issue, either across all of GitHub or scoped to one repo via the `repo` option. Aimed at onboarding contributors and idle-browsing for something to pick up."@,
    {
        "Open issues labelled good-first-issue, either across all of GitHub or scoped to one repo via the `repo` option. Aimed at onboarding contributors and idle-browsing for something to pick up."
    }

    /// Shapes this fetcher can produce.
    pub fn shapes(&self) -> (r: Vec<Shape>)
        ensures
            r@ == spec_shapes(),
    {
        let r = vec![Shape::LinkedTextBlock, Shape::TextBlock, Shape::Entries, Shape::Timeline];
        assert(r@ =~= spec_shapes());
        r
    }

    /// Shape used when the widget names none.
    pub fn default_shape(&self) -> (r: Shape)
        ensures
            r == Shape::LinkedTextBlock,
    {
        Shape::LinkedTextBlock
    }

    /// Documented options.
    pub fn option_schemas(&self) -> (r: Vec<OptionSchema>)
        ensures
            r@.len() == 3,
            r@[0].name@ == "repo"@,
            r@[0].required == false,
            r@[0].default is None,
            r@[1].name@ == "limit"@,
            r@[1].required == false,
            opt_str_view(r@[1].default) == Some("10"@),
            r@[2].name@ == "label"@,
            r@[2].required == false,
            opt_str_view(r@[2].default) == Some("\"good first issue\""@),
    {
        vec![
            OptionSchema {
                name: "repo",
                type_hint: "\"owner/name\"",
                required: false,
                default: None,
                description: "Restrict the search to one repo. Omit to search across all of GitHub.",
            },
            OptionSchema {
                name: "limit",
                type_hint: "integer (1..=30)",
                required: false,
                default: Some("10"),
                description: "Maximum number of issues to show.",
            },
            OptionSchema {
                name: "label",
                type_hint: "string",
                required: false,
                default: Some("\"good first issue\""),
                description: "Label to search for. Defaults to the canonical good-first-issue label.",
            },
        ]
    }

}

/// The label searched for, spaces encoded as `+`.
pub open spec fn spec_label(opts: Options) -> Seq<char> {
    replace_char(
        match opts.label {
            Some(l) => l@,
            None => "good first issue"@,
        },
        ' ',
        '+',
    )
}

/// The search path: label and state filters, an optional repo filter, the limit
/// (default 10, 1..=30). Errors when `repo` is not `owner/name`.
pub open spec fn path_ok(opts: Options, r: Result<String, FetchError>) -> bool {
    let head = "/search/issues?q="@ + "label%3A%22"@ + spec_label(opts) + "%22+is%3Aissue+is%3Aopen"@;
    let n_limit = dec(spec_limit(opts.limit, 10, 1, 30) as nat);
    match opts.repo {
        None => r matches Ok(p) && p@ == head + "&sort=updated&per_page="@ + n_limit,
        Some(raw) => match spec_parse_slug(raw@) {
            Some((o, n)) => r matches Ok(p) && p@ == head + "+repo%3A"@ + o + "%2F"@ + n
                + "&sort=updated&per_page="@ + n_limit,
            None => r matches Err(FetchError::Failed(m)) && m@ == invalid_repo_message(raw@),
        },
    }
}

/// Builds the search path for the options.
pub fn request_path(opts: &Options) -> (r: Result<String, FetchError>)
    ensures
        path_ok(*opts, r),
{
    let limit = limit_or(opts.limit, 10, 1, 30);
    let label = match &opts.label {
        Some(l) => replace_char_str(l.as_str(), ' ', '+'),
        None => replace_char_str("good first issue", ' ', '+'),
    };
    let mut p = String::from_str("/search/issues?q=");
    p.append("label%3A%22");
    p.append(label.as_str());
    p.append("%22+is%3Aissue+is%3Aopen");
    match &opts.repo {
        Some(raw) => match RepoSlug::parse(raw.as_str()) {
            Some(slug) => {
                p.append("+repo%3A");
                p.append(slug.owner.as_str());
                p.append("%2F");
                p.append(slug.name.as_str());
            },
            None => {
                let mut m = String::from_str("invalid repo option: ");
                let q = debug_quote(raw.as_str());
                m.append(q.as_str());
                return Err(FetchError::Failed(m));
            },
        },
        None => {},
    }
    p.append("&sort=updated&per_page=");
    let n = u64_to_string(limit as u64);
    p.append(n.as_str());
    Ok(p)
}

/// Body for the results in the requested shape (default `LinkedTextBlock`);
/// labels carry the repository only for the all-of-GitHub search.
pub fn render_body(items: &[IssueItem], opts: &Options, shape: Option<Shape>) -> (b: Body)
    requires
        shape != Some(Shape::Badge),
        shape != Some(Shape::ImageLinkedList),
    ensures
        exists|rows: Seq<ForgeRow>|
            #[trigger] rows_of_items(items@, opts.repo is None, rows) && forge_body_ok(
                rows,
                match shape {
                    Some(s) => s,
                    None => Shape::LinkedTextBlock,
                },
                b,
            ),
{
    let s = match shape {
        Some(s) => s,
        None => Shape::LinkedTextBlock,
    };
    render_items(items, s, opts.repo.is_none())
}

impl GithubGoodFirstIssues {
    /// Catalog sample for a supported shape.
    pub fn sample_body(&self, shape: Shape) -> (r: Option<Body>)
        ensures
            r is Some <==> shape_in(shape, spec_shapes()),
            r matches Some(b) ==> spec_shape_of(b) == shape,
            shape == Shape::LinkedTextBlock ==> (r matches Some(b) && samples::links_are(
                b,
                seq![
                    (
                        "ratatui/ratatui#999 improve docs for Paragraph"@,
                        Some("https://github.com/ratatui/ratatui/issues/999"@),
                    ),
                    (
                        "tokio-rs/console#123 add quickstart section"@,
                        Some("https://github.com/tokio-rs/console/issues/123"@),
                    ),
                ],
            )),
            shape == Shape::TextBlock ==> (r matches Some(b) && samples::lines_are(
                b,
                seq![
                    "ratatui/ratatui#999 improve docs for Paragraph"@,
                    "tokio-rs/console#123 add quickstart section"@,
                ],
            )),
            shape == Shape::Entries ==> (r matches Some(b) && samples::entries_are(
                b,
                seq![
                    ("ratatui #999"@, "improve docs for Paragraph"@),
                    ("console #123"@, "add quickstart section"@),
                ],
            )),
            shape == Shape::Timeline ==> (r matches Some(b) && samples::events_are(
                b,
                seq![
                    (1_774_000_000i64, "ratatui/ratatui#999"@, Some("improve docs for Paragraph"@)),
                    (1_773_500_000i64, "tokio-rs/console#123"@, Some("add quickstart section"@)),
                ],
            )),
    {
        assert(spec_shapes()[0] == Shape::LinkedTextBlock);
        assert(spec_shapes()[1] == Shape::TextBlock);
        assert(spec_shapes()[2] == Shape::Entries);
        assert(spec_shapes()[3] == Shape::Timeline);
        match shape {
            Shape::LinkedTextBlock => Some(
                samples::linked_text_block(
                    &[
                        (
                            "ratatui/ratatui#999 improve docs for Paragraph",
                            Some("https://github.com/ratatui/ratatui/issues/999"),
                        ),
                        (
                            "tokio-rs/console#123 add quickstart section",
                            Some("https://github.com/tokio-rs/console/issues/123"),
                        ),
                    ],
                ),
            ),
            Shape::TextBlock => Some(
                samples::text_block(
                    &[
                        "ratatui/ratatui#999 improve docs for Paragraph",
                        "tokio-rs/console#123 add quickstart section",
                    ],
                ),
            ),
            Shape::Entries => Some(
                samples::entries(
                    &[
                        ("ratatui #999", "improve docs for Paragraph"),
                        ("console #123", "add quickstart section"),
                    ],
                ),
            ),
            Shape::Timeline => Some(
                samples::timeline(
                    &[
                        (1_774_000_000, "ratatui/ratatui#999", Some("improve docs for Paragraph")),
                        (1_773_500_000, "tokio-rs/console#123", Some("add quickstart section")),
                    ],
                ),
            ),
            _ => None,
        }
    }
}

} // verus!
