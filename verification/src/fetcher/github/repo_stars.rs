//! `github_repo_stars` — social counters of a repository.

use vstd::prelude::*;
use vstd::string::*;

use crate::fetcher::FetchContext;
use super::common::{cache_key as keyed_cache_key, spec_cache_key};

use crate::fetcher::{OptionSchema, Safety};
use crate::payload::{
    spec_shape_of, BadgeData, Bar, BarsData, Body, EntriesData, Entry, MarkdownTextBlockData,
    Status, TextBlockData, TextData,
};
use crate::render::{contains_shape, shape_in, Shape};
use crate::text::{opt_str_view, opt_string_view};
use crate::text::{dec, u64_to_string};

use super::common::RepoSlug;

verus! {

/// The `github_repo_stars` fetcher.
pub struct GithubRepoStars;

/// Widget options.
#[derive(Debug, Default, Clone)]
pub struct Options {
    pub repo: Option<String>,
}

/// The counters of a repository.
#[derive(Debug, Clone, Copy, Default, PartialEq, Eq)]
pub struct RepoInfo {
    pub stargazers_count: u64,
    pub forks_count: u64,
    pub subscribers_count: u64,
    pub open_issues_count: u64,
}

pub open spec fn spec_shapes() -> Seq<Shape> {
    seq![Shape::Text, Shape::TextBlock, Shape::MarkdownTextBlock, Shape::Entries, Shape::Bars, Shape::Badge]
}

impl GithubRepoStars {
    /// Cache key: the context plus the target repository (`owner/name`).
    pub fn cache_key(&self, ctx: &FetchContext, repo: &str) -> (k: String)
        ensures
            k@ == spec_cache_key("github_repo_stars"@, *ctx, repo@),
    {
        keyed_cache_key("github_repo_stars", ctx, repo)
    }
}

impl GithubRepoStars {
    /// Catalog name.
    pub fn name(&self) -> (r: &'static str)
        ensures
            r@ == "github_repo_stars"@,
    {
        "github_repo_stars"
    }

    /// Trust class.
    pub fn safety(&self) -> (r: Safety)
        ensures
            r == Safety::Safe,
    {
        Safety::Safe
    }

    /// One-paragraph catalog description.
    pub fn description(&self) -> (r: &'static str)
        ensures
            r@ == "Social counters for a repo: stargazers, forks, watchers, and open-issue count. Use `github_repo` instead for the identity fields (slug, description, license)."@,
    {
        "Social counters for a repo: stargazers, forks, watchers, and open-issue count. Use `github_repo` instead for the identity fields (slug, description, license)."
    }

    /// Shapes this fetcher can produce.
    pub fn shapes(&self) -> (r: Vec<Shape>)
        ensures
            r@ == spec_shapes(),
    {
        let r = vec![Shape::Text, Shape::TextBlock, Shape::MarkdownTextBlock, Shape::Entries, Shape::Bars, Shape::Badge];
        assert(r@ =~= spec_shapes());
        r
    }

    /// Shape used when the widget names none.
    pub fn default_shape(&self) -> (r: Shape)
        ensures
            r == Shape::Text,
    {
        Shape::Text
    }

    /// Seconds between background refreshes.
    pub fn refresh_interval(&self) -> (r: u64)
        ensures
            r == 3600,
    {
        3600
    }

    /// Documented options.
    pub fn option_schemas(&self) -> (r: Vec<OptionSchema>)
        ensures
            r@.len() == 1,
            r@[0].name@ == "repo"@,
            r@[0].required == false,
            opt_str_view(r@[0].default) == Some("git remote of cwd"@),
    {
        vec![
            OptionSchema {
                name: "repo",
                type_hint: "\"owner/name\"",
                required: false,
                default: Some("git remote of cwd"),
                description: "Repository to query. Falls back to the current directory's github remote.",
            },
        ]
    }

}

/// Repository endpoint.
pub fn request_path(slug: &RepoSlug) -> (r: String)
    ensures
        r@ == "/repos/"@ + slug.owner@ + "/"@ + slug.name@,
{
    let mut r = String::from_str("/repos/");
    r.append(slug.owner.as_str());
    r.append("/");
    r.append(slug.name.as_str());
    r
}

fn labelled(prefix: &str, n: u64) -> (r: String)
    ensures
        r@ == prefix@ + dec(n as nat),
{
    let mut r = String::from_str(prefix);
    let d = u64_to_string(n);
    r.append(d.as_str());
    r
}

fn counter_entry(key: &str, n: u64) -> (e: Entry)
    ensures
        e.key@ == key@,
        opt_string_view(e.value) == Some(dec(n as nat)),
        e.status is None,
{
    Entry { key: String::from_str(key), value: Some(u64_to_string(n)), status: None }
}

fn counter_bar(label: &str, n: u64) -> (b: Bar)
    ensures
        b.label@ == label@,
        b.value == n,
        b.value_label is None,
{
    Bar { label: String::from_str(label), value: n, value_label: None }
}

/// The markdown list of the four counters.
pub open spec fn stars_markdown(i: RepoInfo) -> Seq<char> {
    "- **★ stars** "@ + dec(i.stargazers_count as nat) + "\n- **🍴 forks** "@ + dec(i.forks_count as nat)
        + "\n- **👁 watchers** "@ + dec(i.subscribers_count as nat) + "\n- **🔓 open issues** "@ + dec(
        i.open_issues_count as nat,
    )
}

/// What `render_body` yields for each shape.
pub open spec fn stars_body_ok(i: RepoInfo, shape: Shape, b: Body) -> bool {
    match shape {
        Shape::TextBlock => b matches Body::TextBlock(d) && d.lines@.len() == 4 && d.lines@[0]@
            == "★ "@ + dec(i.stargazers_count as nat) && d.lines@[1]@ == "🍴 "@ + dec(
            i.forks_count as nat,
        ) && d.lines@[2]@ == "👁 "@ + dec(i.subscribers_count as nat) && d.lines@[3]@ == "🔓 "@
            + dec(i.open_issues_count as nat),
        Shape::MarkdownTextBlock => b matches Body::MarkdownTextBlock(d) && d.value@ == stars_markdown(i),
        Shape::Entries => b matches Body::Entries(d) && d.items@.len() == 4 && d.items@[0].key@
            == "stars"@ && opt_string_view(d.items@[0].value) == Some(dec(i.stargazers_count as nat))
            && d.items@[1].key@ == "forks"@ && opt_string_view(d.items@[1].value) == Some(
            dec(i.forks_count as nat),
        ) && d.items@[2].key@ == "watchers"@ && opt_string_view(d.items@[2].value) == Some(
            dec(i.subscribers_count as nat),
        ) && d.items@[3].key@ == "open_issues"@ && opt_string_view(d.items@[3].value) == Some(
            dec(i.open_issues_count as nat),
        ) && forall|k: int| 0 <= k < 4 ==> (#[trigger] d.items@[k]).status is None,
        Shape::Bars => b matches Body::Bars(d) && d.bars@.len() == 4 && d.bars@[0].label@ == "stars"@
            && d.bars@[0].value == i.stargazers_count && d.bars@[1].label@ == "forks"@
            && d.bars@[1].value == i.forks_count && d.bars@[2].label@ == "watchers"@
            && d.bars@[2].value == i.subscribers_count && d.bars@[3].label@ == "open_issues"@
            && d.bars@[3].value == i.open_issues_count && forall|k: int| 0 <= k < 4
            ==> (#[trigger] d.bars@[k]).value_label is None,
        Shape::Badge => b matches Body::Badge(d) && d.status == Status::Okay && d.label@ == "★ "@
            + dec(i.stargazers_count as nat),
        _ => b matches Body::Text(d) && d.value@ == "★ "@ + dec(i.stargazers_count as nat),
    }
}

/// Renders the counters; unlisted shapes fall back to the star count as text.
pub fn render_body(info: &RepoInfo, shape: Shape) -> (b: Body)
    ensures
        stars_body_ok(*info, shape, b),
{
    match shape {
        Shape::TextBlock => {
            let a = labelled("★ ", info.stargazers_count);
            let f = labelled("🍴 ", info.forks_count);
            let w = labelled("👁 ", info.subscribers_count);
            let o = labelled("🔓 ", info.open_issues_count);
            let lines = vec![a, f, w, o];
            assert(lines@[0]@ == "★ "@ + dec(info.stargazers_count as nat));
            assert(lines@[1]@ == "🍴 "@ + dec(info.forks_count as nat));
            assert(lines@[2]@ == "👁 "@ + dec(info.subscribers_count as nat));
            assert(lines@[3]@ == "🔓 "@ + dec(info.open_issues_count as nat));
            assert(lines@.len() == 4);
            let b = Body::TextBlock(TextBlockData { lines });
            assert(stars_body_ok(*info, Shape::TextBlock, b));
            b
        },
        Shape::MarkdownTextBlock => {
            let mut v = labelled("- **★ stars** ", info.stargazers_count);
            v.append("\n- **🍴 forks** ");
            let f = u64_to_string(info.forks_count);
            v.append(f.as_str());
            v.append("\n- **👁 watchers** ");
            let w = u64_to_string(info.subscribers_count);
            v.append(w.as_str());
            v.append("\n- **🔓 open issues** ");
            let o = u64_to_string(info.open_issues_count);
            v.append(o.as_str());
            let b = Body::MarkdownTextBlock(MarkdownTextBlockData { value: v });
            assert(stars_body_ok(*info, Shape::MarkdownTextBlock, b));
            b
        },
        Shape::Entries => {
            let a = counter_entry("stars", info.stargazers_count);
            let f = counter_entry("forks", info.forks_count);
            let w = counter_entry("watchers", info.subscribers_count);
            let o = counter_entry("open_issues", info.open_issues_count);
            let items = vec![a, f, w, o];
            assert(items@[0] == a && items@[1] == f && items@[2] == w && items@[3] == o);
            Body::Entries(EntriesData { items })
        },
        Shape::Bars => {
            let a = counter_bar("stars", info.stargazers_count);
            let f = counter_bar("forks", info.forks_count);
            let w = counter_bar("watchers", info.subscribers_count);
            let o = counter_bar("open_issues", info.open_issues_count);
            let bars = vec![a, f, w, o];
            assert(bars@[0] == a && bars@[1] == f && bars@[2] == w && bars@[3] == o);
            Body::Bars(BarsData { bars })
        },
        Shape::Badge => Body::Badge(
            BadgeData { status: Status::Okay, label: labelled("★ ", info.stargazers_count) },
        ),
        _ => Body::Text(TextData { value: labelled("★ ", info.stargazers_count) }),
    }
}

impl GithubRepoStars {
    /// Catalog sample: fixed counters rendered in a supported shape.
    pub fn sample_body(&self, shape: Shape) -> (r: Option<Body>)
        ensures
            r is Some <==> shape_in(shape, spec_shapes()),
            r matches Some(b) ==> stars_body_ok(
                RepoInfo {
                    stargazers_count: 142,
                    forks_count: 9,
                    subscribers_count: 12,
                    open_issues_count: 7,
                },
                shape,
                b,
            ),
    {
        let shapes = self.shapes();
        if !contains_shape(&shapes, shape) {
            return None;
        }
        let info = RepoInfo {
            stargazers_count: 142,
            forks_count: 9,
            subscribers_count: 12,
            open_issues_count: 7,
        };
        Some(render_body(&info, shape))
    }
}

} // verus!
