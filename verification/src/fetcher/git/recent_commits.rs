//! `git_recent_commits` — the newest commits on `HEAD`, ten unless the format names another
//! positive number. `Timeline` shows one event per commit; `TextBlock` a flat
//! `<short> <summary>` list.

use vstd::prelude::*;
use vstd::string::*;

use crate::fetcher::{FetchContext, OptionSchema, Safety};
use crate::payload::{Body, TimelineData, TimelineEvent};
use crate::render::Shape;
use crate::samples;
use crate::text::{opt_str_view, opt_string_view};
use crate::text::{parse_u64, spec_parse_u64, trim, trim_str, views};

use super::{repo_cache_key, spec_repo_cache_key, text_block_body};

verus! {

/// The `git_recent_commits` fetcher.
pub struct GitRecentCommits;

/// Commits shown when the format names no positive number.
pub const DEFAULT_LIMIT: usize = 10;

/// A commit as the history walk reports it.
#[derive(Debug, Clone)]
pub struct CommitInfo {
    pub short_hash: String,
    pub summary: String,
    pub timestamp: i64,
}

pub open spec fn spec_shapes() -> Seq<Shape> {
    seq![Shape::Timeline, Shape::TextBlock]
}

impl GitRecentCommits {
    /// Catalog name.
    pub fn name(&self) -> (r: &'static str)
        ensures
            r@ == "git_recent_commits"@,
    {
        "git_recent_commits"
    }

    /// Trust class.
    pub fn safety(&self) -> (r: Safety)
        ensures
            r == Safety::Safe,
    {
        Safety::Safe
    }

    /// One-paragraph catalog description.
    pub fn description(&self) -> (r: &'static str)
        ensures
            r@ == "Newest commits on HEAD, defaulting to ten (override with `format = \"N\"`). `Timeline` shows relative-ago labels; `TextBlock` is a flat `<short> <summary>` list."@,
    {
        "Newest commits on HEAD, defaulting to ten (override with `format = \"N\"`). `Timeline` shows relative-ago labels; `TextBlock` is a flat `<short> <summary>` list."
    }

    /// Shapes this fetcher can produce.
    pub fn shapes(&self) -> (r: Vec<Shape>)
        ensures
            r@ == spec_shapes(),
    {
        let r = vec![Shape::Timeline, Shape::TextBlock];
        assert(r@ =~= spec_shapes());
        r
    }

    /// Shape used when the widget names none.
    pub fn default_shape(&self) -> (r: Shape)
        ensures
            r == Shape::Timeline,
    {
        Shape::Timeline
    }

    /// Documented options.
    pub fn option_schemas(&self) -> (r: Vec<OptionSchema>)
        ensures
            r@.len() == 0,
    {
        vec![

        ]
    }

}


impl GitRecentCommits {
    /// Cache key for the repository rooted at `root`.
    pub fn cache_key(&self, ctx: &FetchContext, root: &str) -> (k: String)
        ensures
            k@ == spec_repo_cache_key("git_recent_commits"@, root@, *ctx),
    {
        repo_cache_key("git_recent_commits", root, ctx)
    }

    /// Canned body per supported shape.
    pub fn sample_body(&self, shape: Shape) -> (r: Option<Body>)
        ensures
            shape == Shape::Timeline ==> (r matches Some(Body::Timeline(d)) && d.events@.len() == 3),
            shape == Shape::TextBlock ==> (r matches Some(Body::TextBlock(d)) && d.lines@.len()
                == 3),
            !(shape == Shape::Timeline || shape == Shape::TextBlock) ==> r is None,
    {
        match shape {
            Shape::Timeline => Some(
                samples::timeline(
                    &[
                        (1_700_000_000, "feat(render): add heatmap", Some("a1b2c3d")),
                        (1_699_990_000, "fix(fetcher): tz fallback", Some("d4e5f6a")),
                        (1_699_900_000, "chore: bump ratatui", Some("e7f8a9b")),
                    ],
                ),
            ),
            Shape::TextBlock => Some(
                samples::text_block(
                    &[
                        "a1b2c3d feat(render): add heatmap",
                        "d4e5f6a fix(fetcher): tz fallback",
                        "e7f8a9b chore: bump ratatui",
                    ],
                ),
            ),
            _ => None,
        }
    }
}

/// Commits to show: the trimmed format as a positive number, else ten.
pub open spec fn spec_parse_limit(format: Option<Seq<char>>) -> usize {
    match format {
        Some(f) => match spec_parse_u64(trim(f)) {
            Some(n) => if n > 0 && n <= usize::MAX {
                n as usize
            } else {
                DEFAULT_LIMIT
            },
            None => DEFAULT_LIMIT,
        },
        None => DEFAULT_LIMIT,
    }
}

/// The number of commits named by the format.
pub fn parse_limit(format: Option<&str>) -> (n: usize)
    ensures
        n == spec_parse_limit(opt_str_view(format)),
        n > 0,
{
    match format {
        Some(f) => {
            let t = trim_str(f);
            match parse_u64(t.as_str()) {
                Some(n) => if n > 0 && n <= usize::MAX as u64 {
                    n as usize
                } else {
                    DEFAULT_LIMIT
                },
                None => DEFAULT_LIMIT,
            }
        },
        None => DEFAULT_LIMIT,
    }
}

/// `<short hash> <summary>`.
pub open spec fn commit_line(c: CommitInfo) -> Seq<char> {
    c.short_hash@ + " "@ + c.summary@
}

/// One event per commit: its time, summary as title and short hash as detail.
pub open spec fn commit_event_ok(c: CommitInfo, e: TimelineEvent) -> bool {
    e.timestamp == c.timestamp && e.title@ == c.summary@ && opt_string_view(e.detail) == Some(
        c.short_hash@,
    ) && e.status is None
}

/// What the commits render as: `TextBlock` lines, else a timeline.
pub open spec fn commits_body_ok(commits: Seq<CommitInfo>, shape: Shape, b: Body) -> bool {
    if shape == Shape::TextBlock {
        b matches Body::TextBlock(d) && views(d.lines@) == Seq::new(
            commits.len(),
            |i: int| commit_line(commits[i]),
        )
    } else {
        b matches Body::Timeline(d) && d.events@.len() == commits.len() && forall|i: int|
            0 <= i < commits.len() ==> commit_event_ok(commits[i], #[trigger] d.events@[i])
    }
}

/// Renders the commits, newest first as the walk found them.
pub fn render_body(commits: &Vec<CommitInfo>, shape: Shape) -> (b: Body)
    ensures
        commits_body_ok(commits@, shape, b),
{
    let n = commits.len();
    match shape {
        Shape::TextBlock => {
            let mut lines: Vec<String> = Vec::new();
            let mut i: usize = 0;
            while i < n
                invariant
                    n == commits@.len(),
                    i <= n,
                    lines@.len() == i,
                    forall|k: int| 0 <= k < i ==> #[trigger] lines@[k]@ == commit_line(commits@[k]),
                decreases n - i,
            {
                let mut s = String::from_str(commits[i].short_hash.as_str());
                s.append(" ");
                s.append(commits[i].summary.as_str());
                lines.push(s);
                i += 1;
            }
            assert(views(lines@) =~= Seq::new(commits@.len(), |k: int| commit_line(commits@[k])));
            text_block_body(lines)
        },
        _ => {
            let mut events: Vec<TimelineEvent> = Vec::new();
            let mut i: usize = 0;
            while i < n
                invariant
                    n == commits@.len(),
                    i <= n,
                    events@.len() == i,
                    forall|k: int| 0 <= k < i ==> commit_event_ok(commits@[k], #[trigger] events@[k]),
                decreases n - i,
            {
                let e = TimelineEvent {
                    timestamp: commits[i].timestamp,
                    title: String::from_str(commits[i].summary.as_str()),
                    detail: Some(String::from_str(commits[i].short_hash.as_str())),
                    status: None,
                };
                assert(commit_event_ok(commits@[i as int], e));
                events.push(e);
                i += 1;
            }
            Body::Timeline(TimelineData { events })
        },
    }
}

} // verus!
