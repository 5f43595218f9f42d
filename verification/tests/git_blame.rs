use chrono::Datelike;
use splashboard::fetcher::git::blame_heatmap::{
    changed_path, churn, render_body, short_path, week_col, ChangedEntry, Churn, CommitChanges,
    GitBlameHeatmap, WEEKS,
};
use splashboard::fetcher::git::commits_activity::grid_start_date;
use splashboard::fetcher::{FetchContext, Safety};
use splashboard::payload::Body;
use splashboard::render::Shape;
use splashboard::samples;
use splashboard::time::Date;

fn ymd(year: i32, month: u32, day: u32) -> Date {
    Date { year, month, day }
}

fn naive(d: Date) -> chrono::NaiveDate {
    chrono::NaiveDate::from_ymd_opt(d.year, d.month, d.day).unwrap()
}

fn from_naive(n: chrono::NaiveDate) -> Date {
    ymd(n.year(), n.month(), n.day())
}

fn today() -> Date {
    ymd(2026, 4, 22)
}

fn touching(date: Date, path: &str) -> Option<CommitChanges> {
    Some(CommitChanges {
        date,
        changes: vec![ChangedEntry {
            location: path.into(),
            is_tree: false,
        }],
    })
}

fn ctx(shape: Option<Shape>) -> FetchContext {
    FetchContext {
        shape,
        ..FetchContext::default()
    }
}

#[test]
fn blame_heatmap_fetcher_contract_and_samples_cover_supported_shapes() {
    let fetcher = GitBlameHeatmap;
    let default_key = fetcher.cache_key(&ctx(None), "/repo");
    let text_key = fetcher.cache_key(&ctx(Some(Shape::Text)), "/repo");

    assert_eq!(fetcher.name(), "git_blame_heatmap");
    assert_eq!(fetcher.safety(), Safety::Safe);
    assert!(fetcher.description().contains("Per-file churn"));
    assert_eq!(fetcher.shapes(), vec![Shape::Heatmap, Shape::Text]);
    assert_eq!(fetcher.default_shape(), Shape::Heatmap);
    assert!(default_key.starts_with("git_blame_heatmap-"));
    assert_ne!(default_key, text_key);
    assert_eq!(
        fetcher.sample_body(Shape::Heatmap),
        Some(samples::heatmap_grid(5, 10))
    );
    assert_eq!(
        fetcher.sample_body(Shape::Text),
        Some(samples::text(
            "src/main.rs (18), src/render/mod.rs (12), src/fetcher/mod.rs (9)",
        ))
    );
    assert!(fetcher.sample_body(Shape::Entries).is_none());
}

#[test]
fn blame_heatmap_empty_repo_returns_empty() {
    let c = churn(&[], today());
    assert!(c.files.is_empty());
}

#[test]
fn top_files_ranked_by_commit_count() {
    let t = today();
    let commits = vec![
        touching(t, "a.rs"),
        touching(t, "a.rs"),
        touching(t, "a.rs"),
        touching(t, "b.rs"),
    ];
    let c = churn(&commits, t);
    assert_eq!(c.files[0], "a.rs");
    assert_eq!(c.totals[0], 3);
    assert_eq!(c.files[1], "b.rs");
    assert_eq!(c.totals[1], 1);
}

#[test]
fn current_week_lands_in_rightmost_column() {
    let t = today();
    let c = churn(&[touching(t, "a.rs")], t);
    assert_eq!(c.grid[0][WEEKS - 1], 1);
}

#[test]
fn text_shape_summarises_with_counts() {
    let t = today();
    let body = render_body(churn(&[touching(t, "dir/deep/name.rs")], t), Shape::Text);
    assert!(matches!(&body, Body::Text(_)));
    if let Body::Text(d) = body {
        assert!(
            d.value.starts_with("name.rs ("),
            "unexpected text: {:?}",
            d.value
        );
    }
}

#[test]
fn heatmap_shape_carries_row_labels() {
    let t = today();
    let body = render_body(churn(&[touching(t, "x.rs")], t), Shape::Heatmap);
    assert!(matches!(&body, Body::Heatmap(_)));
    if let Body::Heatmap(d) = body {
        assert_eq!(d.row_labels.as_ref().unwrap(), &vec!["x.rs".to_string()]);
        assert_eq!(d.cells[0].len(), WEEKS);
    }
}

#[test]
fn blame_heatmap_short_path_returns_basename() {
    assert_eq!(short_path("a.rs"), "a.rs");
    assert_eq!(short_path("src/foo/bar.rs"), "bar.rs");
}

#[test]
fn week_col_rejects_dates_outside_the_heatmap_window() {
    let today = ymd(2026, 4, 22);
    let start = grid_start_date(today);

    assert_eq!(week_col(start, start), Some(0));
    assert_eq!(week_col(today, start), Some(WEEKS - 1));
    let before = from_naive(naive(start) - chrono::Duration::days(1));
    let past_end = from_naive(naive(start) + chrono::Duration::days((WEEKS * 7) as i64));
    assert!(week_col(before, start).is_none());
    assert!(week_col(past_end, start).is_none());
}

// ---- further cases ----

#[test]
fn directories_and_unnamed_entries_are_not_files() {
    let dir = ChangedEntry {
        location: "src".into(),
        is_tree: true,
    };
    let unnamed = ChangedEntry {
        location: String::new(),
        is_tree: false,
    };
    let file = ChangedEntry {
        location: "src/lib.rs".into(),
        is_tree: false,
    };
    assert_eq!(changed_path(&dir), None);
    assert_eq!(changed_path(&unnamed), None);
    assert_eq!(changed_path(&file).as_deref(), Some("src/lib.rs"));
}

#[test]
fn ranking_keeps_seven_files_ties_by_path_and_skips_old_or_unread_commits() {
    let t = today();
    let mut commits: Vec<Option<CommitChanges>> = Vec::new();
    for name in ["h.rs", "g.rs", "f.rs", "e.rs", "d.rs", "c.rs", "b.rs", "a.rs"] {
        commits.push(touching(t, name));
    }
    commits.push(touching(t, "z.rs"));
    commits.push(touching(t, "z.rs"));
    commits.push(None);
    commits.push(touching(ymd(2020, 1, 1), "old.rs"));
    let c = churn(&commits, t);
    assert_eq!(
        c.files,
        vec!["z.rs", "a.rs", "b.rs", "c.rs", "d.rs", "e.rs", "f.rs"]
    );
    assert_eq!(c.totals, vec![2, 1, 1, 1, 1, 1, 1]);
    assert_eq!(c.grid.len(), 7);
}

#[test]
fn only_the_first_five_hundred_walked_commits_count() {
    let t = today();
    let mut commits: Vec<Option<CommitChanges>> = vec![None; 500];
    commits.push(touching(t, "late.rs"));
    let c = churn(&commits, t);
    assert!(c.files.is_empty());
}

#[test]
fn text_joins_every_ranked_file() {
    let c = Churn {
        files: vec!["src/main.rs".into(), "lib.rs".into()],
        totals: vec![4, 2],
        grid: vec![vec![0; WEEKS], vec![0; WEEKS]],
    };
    let Body::Text(d) = render_body(c, Shape::Text) else {
        panic!("expected Text");
    };
    assert_eq!(d.value, "main.rs (4), lib.rs (2)");
}
