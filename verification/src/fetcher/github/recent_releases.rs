//! `github_recent_releases` — latest published releases of a repository.

use vstd::prelude::*;
use vstd::string::*;

use crate::fetcher::FetchContext;
use super::common::{cache_key as keyed_cache_key, spec_cache_key};

use crate::fetcher::{limit_or, spec_limit, OptionSchema, Safety};
use crate::payload::{
    spec_shape_of, Body, EntriesData, Entry, LinkedLine, LinkedTextBlockData, TextBlockData,
    TimelineData, TimelineEvent,
};
use crate::render::{shape_in, Shape};
use crate::samples;
use crate::text::{opt_str_view, opt_string_view};
use crate::text::{before_first, before_first_char, clone_opt, dec, u64_to_string};

use super::common::{parse_timestamp, rfc3339_seconds, RepoSlug};

verus! {

/// The `github_recent_releases` fetcher.
pub struct GithubRecentReleases;

/// Widget options.
#[derive(Debug, Default, Clone)]
pub struct Options {
    pub repo: Option<String>,
    pub limit: Option<u32>,
}

/// One published release.
#[derive(Debug, Clone)]
pub struct Release {
    pub tag_name: String,
    pub name: Option<String>,
    pub published_at: Option<String>,
    pub html_url: String,
}

pub open spec fn spec_shapes() -> Seq<Shape> {
    seq![Shape::LinkedTextBlock, Shape::TextBlock, Shape::Entries, Shape::Timeline]
}

impl GithubRecentReleases {
    /// Cache key: the context plus the target repository (`owner/name`).
    pub fn cache_key(&self, ctx: &FetchContext, repo: &str) -> (k: String)
        ensures
            k@ == spec_cache_key("github_recent_releases"@, *ctx, repo@),
    {
        keyed_cache_key("github_recent_releases", ctx, repo)
    }
}

impl GithubRecentReleases {
    /// Catalog name.
    pub fn name(&self) -> (r: &'static str)
        ensures
            r@ == "github_recent_releases"@,
    {
        "github_recent_releases"
    }

    /// Trust class.
    pub fn safety(&self) -> (r: Safety)
        ensures
            r == Safety::Safe,
    {
        Safety::Safe
    }

    /// One-paragraph catalog description.
    pub fn description(&self) -> (r: &'static str)
        ensures
            r@ == "Latest published releases for a repo with their tags and dates. Good for the cd-into-project view of what shipped recently."@,
    {
        "Latest published releases for a repo with their tags and dates. Good for the cd-into-project view of what shipped recently."
    }

    /// Shapes this fetcher can produce.
    pub fn shapes(&self) -> (r: Vec<Shape>)
        ensures
            r@ == spec_shapes(),
    {
        let r = vec![Shape::LinkedTextBlock, Shape::TextBlock, Shape::Entries, Shape::Timeline];
        assert(r@ =~= spec_shapes());
        r
    }

    /// Shape used when the widget names none.
    pub fn default_shape(&self) -> (r: Shape)
        ensures
            r == Shape::LinkedTextBlock,
    {
        Shape::LinkedTextBlock
    }

    /// Documented options.
    pub fn option_schemas(&self) -> (r: Vec<OptionSchema>)
        ensures
            r@.len() == 2,
            r@[0].name@ == "repo"@,
            r@[0].required == false,
            opt_str_view(r@[0].default) == Some("git remote of cwd"@),
            r@[1].name@ == "limit"@,
            r@[1].required == false,
            opt_str_view(r@[1].default) == Some("5"@),
    {
        vec![
            OptionSchema {
                name: "repo",
                type_hint: "\"owner/name\"",
                required: false,
                default: Some("git remote of cwd"),
                description: "Repository to query.",
            },
            OptionSchema {
                name: "limit",
                type_hint: "integer (1..=20)",
                required: false,
                default: Some("5"),
                description: "Maximum number of releases to show.",
            },
        ]
    }

}

/// Releases endpoint for a repository and the configured limit (default 5, 1..=20).
pub fn request_path(slug: &RepoSlug, opts: &Options) -> (r: String)
    ensures
        r@ == "/repos/"@ + slug.owner@ + "/"@ + slug.name@ + "/releases?per_page="@ + dec(
            spec_limit(opts.limit, 5, 1, 20) as nat,
        ),
{
    let limit = limit_or(opts.limit, 5, 1, 20);
    let mut r = String::from_str("/repos/");
    r.append(slug.owner.as_str());
    r.append("/");
    r.append(slug.name.as_str());
    r.append("/releases?per_page=");
    let n = u64_to_string(limit as u64);
    r.append(n.as_str());
    r
}

/// Calendar date of the publish time: the text before its `T` (empty when unpublished).
pub open spec fn spec_release_date(r: Release) -> Seq<char> {
    match r.published_at {
        Some(p) => before_first(p@, 'T'),
        None => Seq::empty(),
    }
}

/// Date part of the release's publish time.
pub fn release_date(r: &Release) -> (s: String)
    ensures
        s@ == spec_release_date(*r),
{
    match &r.published_at {
        Some(p) => before_first_char(p.as_str(), 'T'),
        None => String::new(),
    }
}

/// The release page, unless the API left it empty.
pub fn link_for(r: &Release) -> (u: Option<String>)
    ensures
        u == (if r.html_url@.len() == 0 { None } else { Some(r.html_url) }),
{
    if r.html_url.unicode_len() == 0 {
        None
    } else {
        Some(r.html_url.clone())
    }
}

/// `tag  date`.
pub open spec fn release_line(r: Release) -> Seq<char> {
    r.tag_name@ + "  "@ + spec_release_date(r)
}

fn release_line_of(r: &Release) -> (s: String)
    ensures
        s@ == release_line(*r),
{
    let mut s = r.tag_name.clone();
    s.append("  ");
    let d = release_date(r);
    s.append(d.as_str());
    s
}

/// What `render_body` yields for each shape.
pub open spec fn releases_body_ok(items: Seq<Release>, shape: Shape, b: Body) -> bool {
    match shape {
        Shape::Entries => b matches Body::Entries(d) && d.items@.len() == items.len() && forall|i: int|
            0 <= i < items.len() ==> #[trigger] d.items@[i].key == items[i].tag_name
                && opt_string_view(d.items@[i].value) == Some(spec_release_date(items[i]))
                && d.items@[i].status is None,
        Shape::LinkedTextBlock => b matches Body::LinkedTextBlock(d) && d.items@.len() == items.len()
            && forall|i: int|
            0 <= i < items.len() ==> #[trigger] d.items@[i].text@ == release_line(items[i])
                && d.items@[i].url == (if items[i].html_url@.len() == 0 {
                    None
                } else {
                    Some(items[i].html_url)
                }),
        Shape::Timeline => b matches Body::Timeline(d) && d.events@.len() == items.len() && forall|i: int|
            0 <= i < items.len() ==> #[trigger] d.events@[i].title == items[i].tag_name
                && d.events@[i].detail == items[i].name && d.events@[i].timestamp == (
                match items[i].published_at {
                    Some(p) => match rfc3339_seconds(p@) {
                        Some(s) => s,
                        None => 0,
                    },
                    None => 0,
                }) && d.events@[i].status is None,
        _ => b matches Body::TextBlock(d) && d.lines@.len() == items.len() && forall|i: int|
            0 <= i < items.len() ==> #[trigger] d.lines@[i]@ == release_line(items[i]),
    }
}

/// Renders releases in the requested shape; unlisted shapes fall back to text lines.
pub fn render_body(items: &[Release], shape: Shape) -> (b: Body)
    ensures
        releases_body_ok(items@, shape, b),
{
    match shape {
        Shape::Entries => {
            let mut out: Vec<Entry> = Vec::new();
            let mut i: usize = 0;
            while i < items.len()
                invariant
                    i <= items@.len(),
                    out@.len() == i,
                    forall|j: int|
                        0 <= j < i ==> #[trigger] out@[j].key == items@[j].tag_name && opt_string_view(
                            out@[j].value,
                        ) == Some(spec_release_date(items@[j])) && out@[j].status is None,
                decreases items@.len() - i,
            {
                let d = release_date(&items[i]);
                out.push(Entry { key: items[i].tag_name.clone(), value: Some(d), status: None });
                assert(opt_string_view(out@[i as int].value) == Some(spec_release_date(items@[i as int])));
                i = i + 1;
            }
            Body::Entries(EntriesData { items: out })
        },
        Shape::LinkedTextBlock => {
            let mut out: Vec<LinkedLine> = Vec::new();
            let mut i: usize = 0;
            while i < items.len()
                invariant
                    i <= items@.len(),
                    out@.len() == i,
                    forall|j: int|
                        0 <= j < i ==> #[trigger] out@[j].text@ == release_line(items@[j]) && out@[j].url
                            == (if items@[j].html_url@.len() == 0 {
                            None
                        } else {
                            Some(items@[j].html_url)
                        }),
                decreases items@.len() - i,
            {
                out.push(LinkedLine { text: release_line_of(&items[i]), url: link_for(&items[i]) });
                i = i + 1;
            }
            Body::LinkedTextBlock(LinkedTextBlockData { items: out })
        },
        Shape::Timeline => {
            let mut out: Vec<TimelineEvent> = Vec::new();
            let mut i: usize = 0;
            while i < items.len()
                invariant
                    i <= items@.len(),
                    out@.len() == i,
                    forall|j: int|
                        0 <= j < i ==> #[trigger] out@[j].title == items@[j].tag_name && out@[j].detail
                            == items@[j].name && out@[j].timestamp == (match items@[j].published_at {
                            Some(p) => match rfc3339_seconds(p@) {
                                Some(s) => s,
                                None => 0,
                            },
                            None => 0,
                        }) && out@[j].status is None,
                decreases items@.len() - i,
            {
                let ts = match &items[i].published_at {
                    Some(p) => parse_timestamp(p.as_str()),
                    None => 0,
                };
                out.push(
                    TimelineEvent {
                        timestamp: ts,
                        title: items[i].tag_name.clone(),
                        detail: clone_opt(&items[i].name),
                        status: None,
                    },
                );
                assert(out@[i as int].timestamp == (match items@[i as int].published_at {
                    Some(p) => match rfc3339_seconds(p@) {
                        Some(s) => s,
                        None => 0,
                    },
                    None => 0,
                }));
                i = i + 1;
            }
            Body::Timeline(TimelineData { events: out })
        },
        _ => {
            let mut out: Vec<String> = Vec::new();
            let mut i: usize = 0;
            while i < items.len()
                invariant
                    i <= items@.len(),
                    out@.len() == i,
                    forall|j: int| 0 <= j < i ==> #[trigger] out@[j]@ == release_line(items@[j]),
                decreases items@.len() - i,
            {
                out.push(release_line_of(&items[i]));
                i = i + 1;
            }
            Body::TextBlock(TextBlockData { lines: out })
        },
    }
}

impl GithubRecentReleases {
    /// Catalog sample for a supported shape.
    pub fn sample_body(&self, shape: Shape) -> (r: Option<Body>)
        ensures
            r is Some <==> shape_in(shape, spec_shapes()),
            r matches Some(b) ==> spec_shape_of(b) == shape,
    {
        assert(spec_shapes()[0] == Shape::LinkedTextBlock);
        assert(spec_shapes()[1] == Shape::TextBlock);
        assert(spec_shapes()[2] == Shape::Entries);
        assert(spec_shapes()[3] == Shape::Timeline);
        match shape {
            Shape::LinkedTextBlock => Some(
                samples::linked_text_block(
                    &[
                        (
                            "v0.3.0  2026-04-10",
                            Some("https://github.com/unhappychoice/splashboard/releases/tag/v0.3.0"),
                        ),
                        (
                            "v0.2.1  2026-03-05",
                            Some("https://github.com/unhappychoice/splashboard/releases/tag/v0.2.1"),
                        ),
                    ],
                ),
            ),
            Shape::TextBlock => Some(samples::text_block(&["v0.3.0  2026-04-10", "v0.2.1  2026-03-05"])),
            Shape::Entries => Some(
                samples::entries(&[("v0.3.0", "2026-04-10"), ("v0.2.1", "2026-03-05")]),
            ),
            Shape::Timeline => Some(
                samples::timeline(
                    &[(1_776_000_000, "v0.3.0", Some("latest")), (1_773_800_000, "v0.2.1", None)],
                ),
            ),
            _ => None,
        }
    }
}

} // verus!
