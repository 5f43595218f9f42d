//! `github_action_history` — recent workflow runs as a pass/fail number series (1 for a
//! success, 0 otherwise, oldest first), a timeline of the runs, or a scatter of run
//! durations.

use vstd::prelude::*;
use vstd::string::*;

use crate::fetcher::FetchContext;
use super::common::{cache_key as keyed_cache_key, spec_cache_key};

use crate::fetcher::{limit_or, spec_limit, OptionSchema, Safety};
use crate::payload::{
    Body, NumberSeriesData, PointSeries, PointSeriesData, Status, TimelineData, TimelineEvent,
};
use crate::render::Shape;
use crate::samples;
use crate::text::{opt_str_view, opt_string_view};
use crate::text::{dec, str_eq, u64_to_string};

use super::action_status::branch_filter;
use super::common::{parse_timestamp, rfc3339_seconds, RepoSlug};

verus! {

/// The `github_action_history` fetcher.
pub struct GithubActionHistory;

/// Widget options.
#[derive(Debug, Default, Clone)]
pub struct Options {
    pub repo: Option<String>,
    pub limit: Option<u32>,
    pub branch: Option<String>,
}

/// The fields of a workflow run that the history reads.
#[derive(Debug, Clone)]
pub struct WorkflowRun {
    pub run_number: u64,
    pub status: String,
    pub conclusion: Option<String>,
    pub head_branch: Option<String>,
    pub created_at: String,
    pub updated_at: String,
}

pub open spec fn spec_shapes() -> Seq<Shape> {
    seq![Shape::NumberSeries, Shape::Timeline, Shape::PointSeries]
}

impl GithubActionHistory {
    /// Cache key: the context plus the target repository (`owner/name`).
    pub fn cache_key(&self, ctx: &FetchContext, repo: &str) -> (k: String)
        ensures
            k@ == spec_cache_key("github_action_history"@, *ctx, repo@),
    {
        keyed_cache_key("github_action_history", ctx, repo)
    }
}

impl GithubActionHistory {
    /// Catalog name.
    pub fn name(&self) -> (r: &'static str)
        ensures
            r@ == "github_action_history"@,
    {
        "github_action_history"
    }

    /// Trust class.
    pub fn safety(&self) -> (r: Safety)
        ensures
            r == Safety::Safe,
    {
        Safety::Safe
    }

    /// One-paragraph catalog description.
    pub fn description(&self) -> (r: &'static str)
        ensures
            r@ == "Recent CI workflow runs as a pass/fail sparkline (`NumberSeries`), a timeline of the last N runs, or a duration scatter plot of `(run_number, seconds)` for spotting CI slowdowns (`PointSeries`). Use `github_action_status` instead for just the current main-branch state."@,
    {
        "Recent CI workflow runs as a pass/fail sparkline (`NumberSeries`), a timeline of the last N runs, or a duration scatter plot of `(run_number, seconds)` for spotting CI slowdowns (`PointSeries`). Use `github_action_status` instead for just the current main-branch state."
    }

    /// Shapes this fetcher can produce.
    pub fn shapes(&self) -> (r: Vec<Shape>)
        ensures
            r@ == spec_shapes(),
    {
        let r = vec![Shape::NumberSeries, Shape::Timeline, Shape::PointSeries];
        assert(r@ =~= spec_shapes());
        r
    }

    /// Shape used when the widget names none.
    pub fn default_shape(&self) -> (r: Shape)
        ensures
            r == Shape::NumberSeries,
    {
        Shape::NumberSeries
    }

    /// Documented options.
    pub fn option_schemas(&self) -> (r: Vec<OptionSchema>)
        ensures
            r@.len() == 3,
            r@[0].name@ == "repo"@,
            r@[0].required == false,
            opt_str_view(r@[0].default) == Some("git remote of cwd"@),
            r@[1].name@ == "limit"@,
            r@[1].required == false,
            opt_str_view(r@[1].default) == Some("30"@),
            r@[2].name@ == "branch"@,
            r@[2].required == false,
            r@[2].default is None,
    {
        vec![
            OptionSchema {
                name: "repo",
                type_hint: "\"owner/name\"",
                required: false,
                default: Some("git remote of cwd"),
                description: "Repository to query.",
            },
            OptionSchema {
                name: "limit",
                type_hint: "integer (1..=100)",
                required: false,
                default: Some("30"),
                description: "Number of recent runs to return.",
            },
            OptionSchema {
                name: "branch",
                type_hint: "string",
                required: false,
                default: None,
                description: "Branch filter. Omit for runs across all branches.",
            },
        ]
    }

}


/// Runs endpoint for the configured limit (default 30, 1..=100) and optional branch.
pub fn request_path(slug: &RepoSlug, opts: &Options) -> (r: String)
    ensures
        r@ == "/repos/"@ + slug.owner@ + "/"@ + slug.name@ + "/actions/runs?per_page="@ + dec(
            spec_limit(opts.limit, 30, 1, 100) as nat,
        ) + branch_filter(opts.branch),
{
    let limit = limit_or(opts.limit, 30, 1, 100);
    let mut r = String::from_str("/repos/");
    r.append(slug.owner.as_str());
    r.append("/");
    r.append(slug.name.as_str());
    r.append("/actions/runs?per_page=");
    let n = u64_to_string(limit as u64);
    r.append(n.as_str());
    match &opts.branch {
        Some(b) => {
            r.append("&branch=");
            r.append(b.as_str());
        },
        None => {},
    }
    r
}

/// Tone of a run: completed runs by their conclusion, anything else warns.
pub open spec fn spec_status_of(r: WorkflowRun) -> Status {
    if r.status@ == "completed"@ {
        match opt_string_view(r.conclusion) {
            Some(c) => if c == "success"@ {
                Status::Okay
            } else if c == "failure"@ || c == "timed_out"@ || c == "startup_failure"@ {
                Status::Error
            } else {
                Status::Warn
            },
            None => Status::Warn,
        }
    } else {
        Status::Warn
    }
}

/// Tone of a workflow run.
pub fn status_of(r: &WorkflowRun) -> (s: Status)
    ensures
        s == spec_status_of(*r),
{
    if str_eq(r.status.as_str(), "completed") {
        match &r.conclusion {
            Some(c) => {
                let c = c.as_str();
                if str_eq(c, "success") {
                    Status::Okay
                } else if str_eq(c, "failure") || str_eq(c, "timed_out") || str_eq(
                    c,
                    "startup_failure",
                ) {
                    Status::Error
                } else {
                    Status::Warn
                }
            },
            None => Status::Warn,
        }
    } else {
        Status::Warn
    }
}

/// Detail word of a run: the conclusion of a completed run (`completed` when it has
/// none), else the run's status.
pub open spec fn spec_label(r: WorkflowRun) -> Seq<char> {
    if r.status@ == "completed"@ {
        match r.conclusion {
            Some(c) => c@,
            None => "completed"@,
        }
    } else {
        r.status@
    }
}

/// Detail word of a workflow run.
pub fn label(r: &WorkflowRun) -> (s: String)
    ensures
        s@ == spec_label(*r),
{
    if str_eq(r.status.as_str(), "completed") {
        match &r.conclusion {
            Some(c) => String::from_str(c.as_str()),
            None => String::from_str("completed"),
        }
    } else {
        String::from_str(r.status.as_str())
    }
}

/// Seconds between two parsed timestamps; none unless both are positive and in order.
pub open spec fn spec_duration(start: i64, end: i64) -> Option<i64> {
    if start <= 0 || end <= 0 || end < start {
        None
    } else {
        Some((end - start) as i64)
    }
}

/// Duration between a run's start and end timestamps.
pub fn duration_between(start: i64, end: i64) -> (r: Option<i64>)
    ensures
        r == spec_duration(start, end),
{
    if start <= 0 || end <= 0 || end < start {
        None
    } else {
        Some(end - start)
    }
}

/// A timestamp as `parse_timestamp` reads it: `0` when it does not parse.
pub open spec fn ts(raw: Seq<char>) -> i64 {
    match rfc3339_seconds(raw) {
        Some(s) => s,
        None => 0,
    }
}

pub open spec fn spec_duration_of(r: WorkflowRun) -> Option<i64> {
    spec_duration(ts(r.created_at@), ts(r.updated_at@))
}

/// How long a run took, from its created and updated timestamps.
pub fn duration_seconds(r: &WorkflowRun) -> (d: Option<i64>)
    ensures
        d == spec_duration_of(*r),
{
    let start = parse_timestamp(r.created_at.as_str());
    let end = parse_timestamp(r.updated_at.as_str());
    duration_between(start, end)
}

/// The run number as a point's x, saturated into `i64`.
pub open spec fn point_x(r: WorkflowRun) -> i64 {
    if r.run_number <= i64::MAX as u64 {
        r.run_number as i64
    } else {
        i64::MAX
    }
}

/// Duration points, newest run last in the input, oldest first in the output; runs
/// without a duration are left out.
pub open spec fn spec_points(runs: Seq<WorkflowRun>) -> Seq<(i64, i64)>
    decreases runs.len(),
{
    if runs.len() == 0 {
        Seq::empty()
    } else {
        let rest = spec_points(runs.drop_first());
        match spec_duration_of(runs[0]) {
            Some(d) => rest.push((point_x(runs[0]), d)),
            None => rest,
        }
    }
}

/// Pass (1) or anything else (0), oldest run first.
pub open spec fn spec_pass_values(runs: Seq<WorkflowRun>) -> Seq<u64> {
    Seq::new(
        runs.len(),
        |i: int|
            if opt_string_view(runs[runs.len() - 1 - i].conclusion) == Some("success"@) {
                1u64
            } else {
                0u64
            },
    )
}

/// `#<run_number> <branch>`, with `?` for a run without a branch.
pub open spec fn spec_title(r: WorkflowRun) -> Seq<char> {
    "#"@ + dec(r.run_number as nat) + " "@ + match r.head_branch {
        Some(b) => b@,
        None => "?"@,
    }
}

pub open spec fn event_ok(r: WorkflowRun, e: TimelineEvent) -> bool {
    &&& e.timestamp == ts(r.updated_at@)
    &&& e.title@ == spec_title(r)
    &&& opt_string_view(e.detail) == Some(spec_label(r))
    &&& e.status == Some(spec_status_of(r))
}

pub open spec fn events_ok(runs: Seq<WorkflowRun>, events: Seq<TimelineEvent>) -> bool {
    &&& events.len() == runs.len()
    &&& forall|i: int| 0 <= i < runs.len() ==> event_ok(runs[i], #[trigger] events[i])
}

/// What the runs render as in each shape (`NumberSeries` for every shape not listed).
pub open spec fn history_body_ok(runs: Seq<WorkflowRun>, shape: Shape, b: Body) -> bool {
    if shape == Shape::Timeline {
        b matches Body::Timeline(d) && events_ok(runs, d.events@)
    } else if shape == Shape::PointSeries {
        &&& b matches Body::PointSeries(d)
        &&& d.series@.len() == 1
        &&& d.series@[0].name@ == "ci duration (s)"@
        &&& d.series@[0].points@ == spec_points(runs)
    } else {
        b matches Body::NumberSeries(d) && d.values@ == spec_pass_values(runs)
    }
}

fn title_of(r: &WorkflowRun) -> (s: String)
    ensures
        s@ == spec_title(*r),
{
    let mut s = String::from_str("#");
    let n = u64_to_string(r.run_number);
    s.append(n.as_str());
    s.append(" ");
    match &r.head_branch {
        Some(b) => s.append(b.as_str()),
        None => s.append("?"),
    }
    s
}

fn timeline_events(runs: &Vec<WorkflowRun>) -> (v: Vec<TimelineEvent>)
    ensures
        events_ok(runs@, v@),
{
    let mut v: Vec<TimelineEvent> = Vec::new();
    let mut i: usize = 0;
    while i < runs.len()
        invariant
            i <= runs@.len(),
            v@.len() == i,
            forall|k: int| 0 <= k < i ==> event_ok(runs@[k], #[trigger] v@[k]),
        decreases runs@.len() - i,
    {
        let r = &runs[i];
        let e = TimelineEvent {
            timestamp: parse_timestamp(r.updated_at.as_str()),
            title: title_of(r),
            detail: Some(label(r)),
            status: Some(status_of(r)),
        };
        assert(event_ok(runs@[i as int], e));
        v.push(e);
        i += 1;
    }
    v
}

fn duration_points(runs: &Vec<WorkflowRun>) -> (v: Vec<(i64, i64)>)
    ensures
        v@ == spec_points(runs@),
{
    let mut v: Vec<(i64, i64)> = Vec::new();
    let mut k: usize = runs.len();
    proof {
        assert(runs@.subrange(k as int, runs@.len() as int) =~= Seq::<WorkflowRun>::empty());
    }
    while k > 0
        invariant
            k <= runs@.len(),
            v@ == spec_points(runs@.subrange(k as int, runs@.len() as int)),
        decreases k,
    {
        k -= 1;
        let r = &runs[k];
        let ghost tail = runs@.subrange(k as int, runs@.len() as int);
        assert(tail.drop_first() =~= runs@.subrange(k + 1, runs@.len() as int));
        assert(tail[0] == runs@[k as int]);
        match duration_seconds(r) {
            Some(d) => {
                let x: i64 = if r.run_number <= 9223372036854775807u64 {
                    r.run_number as i64
                } else {
                    9223372036854775807i64
                };
                v.push((x, d));
            },
            None => {},
        }
    }
    assert(runs@.subrange(0, runs@.len() as int) =~= runs@);
    v
}

fn pass_values(runs: &Vec<WorkflowRun>) -> (v: Vec<u64>)
    ensures
        v@ == spec_pass_values(runs@),
{
    let mut v: Vec<u64> = Vec::new();
    let n = runs.len();
    let mut i: usize = 0;
    while i < n
        invariant
            n == runs@.len(),
            i <= n,
            v@.len() == i,
            forall|k: int| 0 <= k < i ==> #[trigger] v@[k] == spec_pass_values(runs@)[k],
        decreases n - i,
    {
        let r = &runs[n - 1 - i];
        let pass = match &r.conclusion {
            Some(c) => str_eq(c.as_str(), "success"),
            None => false,
        };
        v.push(if pass { 1u64 } else { 0u64 });
        i += 1;
    }
    assert(v@ =~= spec_pass_values(runs@));
    v
}

/// Renders the runs (newest first, as the API lists them) into the requested shape.
pub fn render_body(runs: &Vec<WorkflowRun>, shape: Shape) -> (b: Body)
    ensures
        history_body_ok(runs@, shape, b),
{
    match shape {
        Shape::Timeline => Body::Timeline(TimelineData { events: timeline_events(runs) }),
        Shape::PointSeries => {
            let points = duration_points(runs);
            let series = vec![
                PointSeries { name: String::from_str("ci duration (s)"), points },
            ];
            Body::PointSeries(PointSeriesData { series })
        },
        _ => Body::NumberSeries(NumberSeriesData { values: pass_values(runs) }),
    }
}

impl GithubActionHistory {
    /// Canned body per supported shape.
    pub fn sample_body(&self, shape: Shape) -> (r: Option<Body>)
        ensures
            shape == Shape::NumberSeries ==> (r matches Some(Body::NumberSeries(d)) && d.values@
                == seq![1u64, 1, 0, 1, 1, 1, 0, 1, 1, 1, 1, 0, 1, 1]),
            shape == Shape::Timeline ==> (r matches Some(Body::Timeline(d)) && d.events@.len()
                == 3 && d.events@[0].title@ == "#4235 main"@ && opt_string_view(
                d.events@[1].detail,
            ) == Some("failing"@)),
            shape == Shape::PointSeries ==> (r matches Some(Body::PointSeries(d))
                && d.series@.len() == 1 && d.series@[0].name@ == "ci duration (s)"@
                && d.series@[0].points@ == seq![
                (4233i64, 142i64),
                (4234i64, 168i64),
                (4235i64, 138i64),
                (4236i64, 220i64),
                (4237i64, 145i64),
            ]),
            !(shape == Shape::NumberSeries || shape == Shape::Timeline || shape
                == Shape::PointSeries) ==> r is None,
    {
        match shape {
            Shape::NumberSeries => Some(
                samples::number_series(&[1, 1, 0, 1, 1, 1, 0, 1, 1, 1, 1, 0, 1, 1]),
            ),
            Shape::Timeline => {
                let b = samples::timeline(
                    &[
                        (1_776_000_000, "#4235 main", Some("passing")),
                        (1_775_800_000, "#4234 feat/a", Some("failing")),
                        (1_775_600_000, "#4233 main", Some("passing")),
                    ],
                );
                assert(b matches Body::Timeline(d) ==> d.events@[0].timestamp == 1_776_000_000
                    && d.events@[1].timestamp == 1_775_800_000);
                assert(b matches Body::Timeline(d) ==> d.events@[0].title@ == "#4235 main"@
                    && opt_string_view(d.events@[1].detail) == Some("failing"@));
                Some(b)
            },
            Shape::PointSeries => {
                let points = vec![
                    (4233i64, 142i64),
                    (4234i64, 168i64),
                    (4235i64, 138i64),
                    (4236i64, 220i64),
                    (4237i64, 145i64),
                ];
                let series = vec![
                    PointSeries { name: String::from_str("ci duration (s)"), points },
                ];
                Some(Body::PointSeries(PointSeriesData { series }))
            },
            _ => None,
        }
    }
}

} // verus!
