//! `github_action_status` — the current CI state of a repository as a single badge or
//! a short text line, taken from the latest workflow run.

use vstd::prelude::*;
use vstd::string::*;

use crate::fetcher::FetchContext;
use super::common::{cache_key as keyed_cache_key, spec_cache_key};

use crate::fetcher::{OptionSchema, Safety};
use crate::payload::{BadgeData, Body, Status, TextData};
use crate::render::Shape;
use crate::samples;
use crate::text::opt_str_view;
use crate::text::str_eq;

use super::common::RepoSlug;

verus! {

/// The `github_action_status` fetcher.
pub struct GithubActionStatus;

/// Widget options.
#[derive(Debug, Default, Clone)]
pub struct Options {
    pub repo: Option<String>,
    pub branch: Option<String>,
}

/// The fields of a workflow run that decide the badge.
#[derive(Debug, Clone)]
pub struct WorkflowRun {
    pub status: String,
    pub conclusion: Option<String>,
    pub head_branch: Option<String>,
}

pub open spec fn spec_shapes() -> Seq<Shape> {
    seq![Shape::Badge, Shape::Text]
}

impl GithubActionStatus {
    /// Cache key: the context plus the target repository (`owner/name`).
    pub fn cache_key(&self, ctx: &FetchContext, repo: &str) -> (k: String)
        ensures
            k@ == spec_cache_key("github_action_status"@, *ctx, repo@),
    {
        keyed_cache_key("github_action_status", ctx, repo)
    }
}

impl GithubActionStatus {
    /// Catalog name.
    pub fn name(&self) -> (r: &'static str)
        ensures
            r@ == "github_action_status"@,
    {
        "github_action_status"
    }

    /// Trust class.
    pub fn safety(&self) -> (r: Safety)
        ensures
            r == Safety::Safe,
    {
        Safety::Safe
    }

    /// One-paragraph catalog description.
    pub fn description(&self) -> (r: &'static str)
        ensures
            r@ == "The latest CI workflow run for a repo as a pass/fail badge or short text line. Use `github_action_history` for a series of recent runs rather than the single most recent one."@,
    {
        "The latest CI workflow run for a repo as a pass/fail badge or short text line. Use `github_action_history` for a series of recent runs rather than the single most recent one."
    }

    /// Shapes this fetcher can produce.
    pub fn shapes(&self) -> (r: Vec<Shape>)
        ensures
            r@ == spec_shapes(),
    {
        let r = vec![Shape::Badge, Shape::Text];
        assert(r@ =~= spec_shapes());
        r
    }

    /// Shape used when the widget names none.
    pub fn default_shape(&self) -> (r: Shape)
        ensures
            r == Shape::Badge,
    {
        Shape::Badge
    }

    /// Documented options.
    pub fn option_schemas(&self) -> (r: Vec<OptionSchema>)
        ensures
            r@.len() == 2,
            r@[0].name@ == "repo"@,
            r@[0].required == false,
            opt_str_view(r@[0].default) == Some("git remote of cwd"@),
            r@[1].name@ == "branch"@,
            r@[1].required == false,
            r@[1].default is None,
    {
        vec![
            OptionSchema {
                name: "repo",
                type_hint: "\"owner/name\"",
                required: false,
                default: Some("git remote of cwd"),
                description: "Repository to query.",
            },
            OptionSchema {
                name: "branch",
                type_hint: "string",
                required: false,
                default: None,
                description: "Branch to filter the latest run by. Omit for the most recent run on any branch.",
            },
        ]
    }

}


/// `&branch=<b>` for a configured branch, nothing otherwise.
pub open spec fn branch_filter(branch: Option<String>) -> Seq<char> {
    match branch {
        Some(b) => "&branch="@ + b@,
        None => Seq::empty(),
    }
}

/// Runs endpoint: the most recent run, filtered by branch when one is configured.
pub fn request_path(slug: &RepoSlug, opts: &Options) -> (r: String)
    ensures
        r@ == "/repos/"@ + slug.owner@ + "/"@ + slug.name@ + "/actions/runs?per_page=1"@ + branch_filter(opts.branch),
{
    let mut r = String::from_str("/repos/");
    r.append(slug.owner.as_str());
    r.append("/");
    r.append(slug.name.as_str());
    r.append("/actions/runs?per_page=1");
    match &opts.branch {
        Some(b) => {
            r.append("&branch=");
            r.append(b.as_str());
        },
        None => {},
    }
    r
}

/// Tone and word for a run: completed runs by their conclusion, anything else is running.
pub open spec fn spec_classify(status: Seq<char>, conclusion: Option<Seq<char>>) -> (Status, Seq<char>) {
    if status == "completed"@ {
        match conclusion {
            Some(c) => if c == "success"@ {
                (Status::Okay, "passing"@)
            } else if c == "failure"@ || c == "timed_out"@ || c == "startup_failure"@ {
                (Status::Error, "failing"@)
            } else if c == "cancelled"@ {
                (Status::Warn, "cancelled"@)
            } else if c == "neutral"@ || c == "skipped"@ {
                (Status::Warn, "skipped"@)
            } else {
                (Status::Warn, "completed"@)
            },
            None => (Status::Warn, "completed"@),
        }
    } else {
        (Status::Warn, "running"@)
    }
}

/// How runs read: only a completed run that succeeded passes; a completed run that failed,
/// timed out or failed to start reads `failing` with an error tone, all three alike; a
/// cancelled one reads `cancelled`, a neutral or skipped one `skipped`; a run that has not
/// completed reads `running`. No other run gets the error or the passing tone.
pub proof fn lemma_classify_reads(status: Seq<char>, conclusion: Option<Seq<char>>)
    ensures
        (spec_classify(status, conclusion).0 == Status::Okay) <==> (status == "completed"@
            && conclusion == Some("success"@)),
        (spec_classify(status, conclusion).0 == Status::Error) <==> (status == "completed"@ && (
        conclusion == Some("failure"@) || conclusion == Some("timed_out"@) || conclusion == Some(
            "startup_failure"@,
        ))),
        spec_classify(status, conclusion).0 == Status::Error ==> spec_classify(status, conclusion).1
            == "failing"@,
        spec_classify(status, conclusion).0 == Status::Okay ==> spec_classify(status, conclusion).1
            == "passing"@,
        status == "completed"@ ==> spec_classify(status, Some("timed_out"@)) == spec_classify(
            status,
            Some("failure"@),
        ) && spec_classify(status, Some("startup_failure"@)) == spec_classify(
            status,
            Some("failure"@),
        ),
        status == "completed"@ && conclusion == Some("cancelled"@) ==> spec_classify(
            status,
            conclusion,
        ) == (Status::Warn, "cancelled"@),
        status == "completed"@ && (conclusion == Some("neutral"@) || conclusion == Some(
            "skipped"@,
        )) ==> spec_classify(status, conclusion) == (Status::Warn, "skipped"@),
        status != "completed"@ ==> spec_classify(status, conclusion) == (Status::Warn, "running"@),
{
    reveal_strlit("completed");
    reveal_strlit("success");
    reveal_strlit("failure");
    reveal_strlit("timed_out");
    reveal_strlit("startup_failure");
    reveal_strlit("cancelled");
    reveal_strlit("neutral");
    reveal_strlit("skipped");
    reveal_strlit("passing");
    reveal_strlit("failing");
    reveal_strlit("running");
    assert("completed"@[0] == 'c' && "completed"@[1] == 'o' && "completed"@.len() == 9);
    assert("success"@[0] == 's' && "success"@[1] == 'u' && "success"@.len() == 7);
    assert("failure"@[0] == 'f' && "failure"@[1] == 'a' && "failure"@.len() == 7);
    assert("timed_out"@[0] == 't' && "timed_out"@[1] == 'i' && "timed_out"@.len() == 9);
    assert("startup_failure"@[0] == 's' && "startup_failure"@[1] == 't' && "startup_failure"@.len() == 15);
    assert("cancelled"@[0] == 'c' && "cancelled"@[1] == 'a' && "cancelled"@.len() == 9);
    assert("neutral"@[0] == 'n' && "neutral"@[1] == 'e' && "neutral"@.len() == 7);
    assert("skipped"@[0] == 's' && "skipped"@[1] == 'k' && "skipped"@.len() == 7);
    if status == "completed"@ {
        assert(spec_classify(status, Some("timed_out"@)) == (Status::Error, "failing"@));
        assert(spec_classify(status, Some("startup_failure"@)) == (Status::Error, "failing"@));
        assert(spec_classify(status, Some("failure"@)) == (Status::Error, "failing"@));
    }
}

pub open spec fn run_classification(run: WorkflowRun) -> (Status, Seq<char>) {
    spec_classify(
        run.status@,
        match run.conclusion {
            Some(c) => Some(c@),
            None => None,
        },
    )
}

/// Tone and word describing a workflow run.
pub fn classify(run: &WorkflowRun) -> (r: (Status, &'static str))
    ensures
        r.0 == run_classification(*run).0,
        r.1@ == run_classification(*run).1,
{
    if str_eq(run.status.as_str(), "completed") {
        match &run.conclusion {
            Some(c) => {
                let c = c.as_str();
                if str_eq(c, "success") {
                    (Status::Okay, "passing")
                } else if str_eq(c, "failure") || str_eq(c, "timed_out") || str_eq(
                    c,
                    "startup_failure",
                ) {
                    (Status::Error, "failing")
                } else if str_eq(c, "cancelled") {
                    (Status::Warn, "cancelled")
                } else if str_eq(c, "neutral") || str_eq(c, "skipped") {
                    (Status::Warn, "skipped")
                } else {
                    (Status::Warn, "completed")
                }
            },
            None => (Status::Warn, "completed"),
        }
    } else {
        (Status::Warn, "running")
    }
}

/// `"<branch> · <word>"`, with `?` for a run without a branch.
pub open spec fn run_label(run: WorkflowRun) -> Seq<char> {
    let branch = match run.head_branch {
        Some(b) => b@,
        None => "?"@,
    };
    branch + " · "@ + run_classification(run).1
}

/// What a run renders as: a `Text` line for `Text`, a toned badge for every other shape.
pub open spec fn run_body_ok(run: WorkflowRun, shape: Shape, b: Body) -> bool {
    if shape == Shape::Text {
        b matches Body::Text(d) && d.value@ == run_label(run)
    } else {
        b matches Body::Badge(d) && d.status == run_classification(run).0 && d.label@ == run_label(run)
    }
}

/// Renders the latest run.
pub fn render_body(run: &WorkflowRun, shape: Shape) -> (b: Body)
    ensures
        run_body_ok(*run, shape, b),
{
    let (status, word) = classify(run);
    let mut label = match &run.head_branch {
        Some(b) => String::from_str(b.as_str()),
        None => String::from_str("?"),
    };
    label.append(" · ");
    label.append(word);
    match shape {
        Shape::Text => Body::Text(TextData { value: label }),
        _ => Body::Badge(BadgeData { status, label }),
    }
}

/// The body for a runs listing: the latest run, or a `no runs` warning badge when empty.
pub fn runs_body(runs: &Vec<WorkflowRun>, shape: Shape) -> (b: Body)
    ensures
        runs@.len() == 0 ==> (b matches Body::Badge(d) && d.status == Status::Warn && d.label@
            == "no runs"@),
        runs@.len() > 0 ==> run_body_ok(runs@[0], shape, b),
{
    if runs.len() == 0 {
        Body::Badge(BadgeData { status: Status::Warn, label: String::from_str("no runs") })
    } else {
        render_body(&runs[0], shape)
    }
}

impl GithubActionStatus {
    /// Canned body per supported shape.
    pub fn sample_body(&self, shape: Shape) -> (r: Option<Body>)
        ensures
            shape == Shape::Badge ==> (r matches Some(Body::Badge(d)) && d.status == Status::Okay
                && d.label@ == "ci passing"@),
            shape == Shape::Text ==> (r matches Some(Body::Text(d)) && d.value@
                == "main · passing"@),
            shape != Shape::Badge && shape != Shape::Text ==> r is None,
    {
        match shape {
            Shape::Badge => Some(samples::badge(Status::Okay, "ci passing")),
            Shape::Text => Some(samples::text("main · passing")),
            _ => None,
        }
    }
}

} // verus!
