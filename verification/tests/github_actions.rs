use splashboard::fetcher::github::action_status::{classify, WorkflowRun};
use splashboard::fetcher::github::action_history::{
    duration_between, duration_seconds, label, render_body, status_of, GithubActionHistory, Options,
    WorkflowRun as HistoryRun,
};
use splashboard::fetcher::Safety;
use splashboard::payload::{Body, Status};
use splashboard::render::Shape;

fn run(status: &str, conclusion: Option<&str>) -> WorkflowRun {
    WorkflowRun {
        status: status.into(),
        conclusion: conclusion.map(String::from),
        head_branch: Some("main".into()),
    }
}

#[test]
fn completed_success_is_ok() {
    assert_eq!(classify(&run("completed", Some("success"))).0, Status::Okay);
}

#[test]
fn completed_failure_is_error() {
    assert_eq!(
        classify(&run("completed", Some("failure"))).0,
        Status::Error
    );
}

#[test]
fn in_progress_is_warn() {
    assert_eq!(classify(&run("in_progress", None)).0, Status::Warn);
}

fn history_run(num: u64, created: &str, updated: &str, conclusion: Option<&str>) -> HistoryRun {
    HistoryRun {
        run_number: num,
        status: "completed".into(),
        conclusion: conclusion.map(String::from),
        head_branch: Some("main".into()),
        created_at: created.into(),
        updated_at: updated.into(),
    }
}

fn workflow_run(num: u64, status: &str, conclusion: Option<&str>, branch: Option<&str>) -> HistoryRun {
    HistoryRun {
        run_number: num,
        status: status.into(),
        conclusion: conclusion.map(String::from),
        head_branch: branch.map(String::from),
        created_at: "2026-04-22T10:00:00Z".into(),
        updated_at: "2026-04-22T10:02:30Z".into(),
    }
}

#[test]
fn action_history_options_default_to_none() {
    let opts = Options::default();
    assert!(opts.repo.is_none());
    assert!(opts.limit.is_none());
    assert!(opts.branch.is_none());
}

#[test]
fn action_history_fetcher_metadata_and_samples_cover_supported_shapes() {
    let fetcher = GithubActionHistory;
    assert_eq!(fetcher.name(), "github_action_history");
    assert_eq!(fetcher.safety(), Safety::Safe);
    assert!(fetcher.description().contains("Recent CI workflow runs"));
    assert_eq!(
        fetcher.shapes(),
        vec![Shape::NumberSeries, Shape::Timeline, Shape::PointSeries]
    );
    assert_eq!(fetcher.default_shape(), Shape::NumberSeries);

    let names = fetcher
        .option_schemas()
        .iter()
        .map(|schema| schema.name)
        .collect::<Vec<_>>();
    assert_eq!(names, vec!["repo", "limit", "branch"]);

    let Some(Body::NumberSeries(number_series)) = fetcher.sample_body(Shape::NumberSeries)
    else {
        panic!("expected number series sample");
    };
    assert_eq!(number_series.values[0], 1);
    assert_eq!(number_series.values[2], 0);

    let Some(Body::Timeline(timeline)) = fetcher.sample_body(Shape::Timeline) else {
        panic!("expected timeline sample");
    };
    assert_eq!(timeline.events[0].title, "#4235 main");
    assert_eq!(timeline.events[1].detail.as_deref(), Some("failing"));

    let Some(Body::PointSeries(point_series)) = fetcher.sample_body(Shape::PointSeries) else {
        panic!("expected point series sample");
    };
    assert_eq!(point_series.series.len(), 1);
    assert_eq!(point_series.series[0].name, "ci duration (s)");
    let p = point_series.series[0].points[3];
    assert_eq!((p.0 as f64, p.1 as f64), (4236.0, 220.0));
    assert!(fetcher.sample_body(Shape::Text).is_none());
}

#[test]
fn status_and_label_cover_success_error_and_in_progress_states() {
    let success = workflow_run(7, "completed", Some("success"), Some("main"));
    let failure = workflow_run(8, "completed", Some("startup_failure"), Some("release"));
    let neutral = workflow_run(9, "completed", None, Some("main"));
    let queued = workflow_run(10, "queued", Some("failure"), None);

    assert_eq!(status_of(&success), Status::Okay);
    assert_eq!(label(&success), "success");
    assert_eq!(status_of(&failure), Status::Error);
    assert_eq!(label(&failure), "startup_failure");
    assert_eq!(status_of(&neutral), Status::Warn);
    assert_eq!(label(&neutral), "completed");
    assert_eq!(status_of(&queued), Status::Warn);
    assert_eq!(label(&queued), "queued");
}

#[test]
fn number_series_body_reverses_runs_and_marks_only_successes() {
    let runs = vec![
        history_run(3, "2026-04-22T10:04:00Z", "2026-04-22T10:05:00Z", Some("success")),
        history_run(2, "2026-04-22T10:02:00Z", "2026-04-22T10:03:00Z", Some("failure")),
        history_run(1, "2026-04-22T10:00:00Z", "2026-04-22T10:01:00Z", None),
    ];
    let Body::NumberSeries(data) = render_body(&runs, Shape::NumberSeries) else {
        panic!("expected number series");
    };
    assert_eq!(data.values, vec![0, 0, 1]);
}

#[test]
fn timeline_body_uses_branch_fallback_label_and_status() {
    let runs = vec![
        workflow_run(10, "queued", Some("failure"), None),
        workflow_run(9, "completed", None, Some("main")),
        workflow_run(8, "completed", Some("timed_out"), Some("release")),
    ];
    let Body::Timeline(data) = render_body(&runs, Shape::Timeline) else {
        panic!("expected timeline");
    };
    assert_eq!(data.events.len(), 3);
    assert_eq!(data.events[0].title, "#10 ?");
    assert_eq!(data.events[0].detail.as_deref(), Some("queued"));
    assert_eq!(data.events[0].status, Some(Status::Warn));
    assert_eq!(data.events[1].detail.as_deref(), Some("completed"));
    assert_eq!(data.events[1].status, Some(Status::Warn));
    assert_eq!(data.events[2].title, "#8 release");
    assert_eq!(data.events[2].status, Some(Status::Error));
    assert_eq!(data.events[2].timestamp, 1_776_852_150);
}

#[test]
fn point_series_body_filters_out_runs_without_duration() {
    let runs = vec![
        history_run(1, "2026-04-22T10:00:00Z", "2026-04-22T10:01:40Z", Some("success")),
        history_run(2, "", "", None),
        history_run(3, "2026-04-22T10:00:00Z", "2026-04-22T10:03:00Z", Some("success")),
    ];
    let body = render_body(&runs, Shape::PointSeries);
    let Body::PointSeries(d) = body else {
        panic!("expected point series");
    };
    assert_eq!(d.series.len(), 1);
    let pts = &d.series[0].points;
    assert_eq!(pts.len(), 2);
    // Newest-first input is reversed: oldest first by run_number.
    assert_eq!(pts[0].0 as f64, 3.0);
    assert_eq!(pts[0].1 as f64, 180.0);
    assert_eq!(pts[1].0 as f64, 1.0);
    assert_eq!(pts[1].1 as f64, 100.0);
}

#[test]
fn duration_between_needs_both_timestamps_in_order() {
    assert_eq!(duration_between(100, 250), Some(150));
    assert_eq!(duration_between(0, 250), None);
    assert_eq!(duration_between(250, 100), None);
    assert_eq!(duration_between(-5, 100), None);
}

#[test]
fn duration_seconds_returns_delta_when_both_timestamps_parse() {
    let r = history_run(10, "2026-04-22T10:00:00Z", "2026-04-22T10:02:30Z", Some("success"));
    assert_eq!(duration_seconds(&r), Some(150));
}

#[test]
fn duration_seconds_returns_none_for_missing_or_inverted_timestamps() {
    let bad = history_run(11, "", "2026-04-22T10:02:30Z", None);
    assert!(duration_seconds(&bad).is_none());
    let inverted = history_run(12, "2026-04-22T10:02:30Z", "2026-04-22T10:00:00Z", None);
    assert!(duration_seconds(&inverted).is_none());
}
