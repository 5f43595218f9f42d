use chrono::Datelike;
use splashboard::fetcher::git::commits_activity::{
    cell_of, commits_grid, flatten_by_day, grid_start_date, month_labels, render_body,
    GitCommitsActivity, DAYS_PER_WEEK, WEEKS,
};
use splashboard::fetcher::Safety;
use splashboard::payload::Body;
use splashboard::render::Shape;
use splashboard::time::{weekday_from_sunday, Date};

fn ymd(year: i32, month: u32, day: u32) -> Date {
    Date { year, month, day }
}

fn naive(d: Date) -> chrono::NaiveDate {
    chrono::NaiveDate::from_ymd_opt(d.year, d.month, d.day).unwrap()
}

fn from_naive(n: chrono::NaiveDate) -> Date {
    ymd(n.year(), n.month(), n.day())
}

fn any_weekday() -> Date {
    ymd(2026, 4, 22)
}

#[test]
fn empty_repo_grid_is_all_zero() {
    let grid = commits_grid(&[], any_weekday());
    assert_eq!(grid.len(), DAYS_PER_WEEK);
    assert!(grid.iter().all(|row| row.len() == WEEKS));
    assert!(grid.iter().flatten().all(|v| *v == 0));
}

#[test]
fn today_commit_lands_in_rightmost_column() {
    let today = any_weekday();
    let grid = commits_grid(&[today], today);
    let row = weekday_from_sunday(today) as usize;
    assert_eq!(grid[row][WEEKS - 1], 1, "today should be in last column");
}

#[test]
fn grid_start_is_a_sunday() {
    let today = ymd(2026, 4, 22); // Wednesday
    let start = grid_start_date(today);
    assert_eq!(weekday_from_sunday(start), 0);
    assert_eq!(
        (naive(today) - naive(start)).num_days(),
        (WEEKS as i64 - 1) * 7 + 3
    );
}

#[test]
fn cell_of_past_anchor_in_first_column() {
    let today = ymd(2026, 4, 22);
    let start = grid_start_date(today);
    // The start date itself should be (row=0 Sun, col=0)
    assert_eq!(cell_of(start, start, today), Some((0, 0)));
}

#[test]
fn cell_of_out_of_range_returns_none() {
    let today = ymd(2026, 4, 22);
    let start = grid_start_date(today);
    let before = from_naive(naive(start) - chrono::Duration::days(1));
    let after = from_naive(naive(today) + chrono::Duration::days(1));
    assert!(cell_of(before, start, today).is_none());
    assert!(cell_of(after, start, today).is_none());
}

#[test]
fn number_series_flatten_is_chronological() {
    let mut grid = vec![vec![0u32; WEEKS]; DAYS_PER_WEEK];
    grid[0][0] = 1; // Sunday, first week
    grid[1][0] = 2; // Monday, first week
    grid[0][1] = 3; // Sunday, second week
    let series = flatten_by_day(&grid);
    assert_eq!(series.len(), WEEKS * DAYS_PER_WEEK);
    assert_eq!(series[0], 1);
    assert_eq!(series[1], 2);
    assert_eq!(series[7], 3);
}

#[test]
fn text_shape_summary() {
    let mut grid = vec![vec![0u32; WEEKS]; DAYS_PER_WEEK];
    grid[0][0] = 5;
    let body = render_body(grid, any_weekday(), Shape::Text);
    match body {
        Body::Text(d) => assert!(d.value.contains("5 commits")),
        _ => panic!(),
    }
}

#[test]
fn heatmap_shape_carries_month_labels() {
    let grid = vec![vec![0u32; WEEKS]; DAYS_PER_WEEK];
    let body = render_body(grid, any_weekday(), Shape::Heatmap);
    match body {
        Body::Heatmap(d) => {
            assert_eq!(d.cells.len(), DAYS_PER_WEEK);
            assert_eq!(d.col_labels.as_ref().unwrap().len(), WEEKS);
        }
        _ => panic!(),
    }
}

// ---- further cases ----

#[test]
fn commits_activity_fetcher_surface() {
    let f = GitCommitsActivity;
    assert_eq!(f.name(), "git_commits_activity");
    assert_eq!(f.safety(), Safety::Safe);
    assert_eq!(f.default_shape(), Shape::Heatmap);
    assert_eq!(
        f.shapes(),
        vec![Shape::Heatmap, Shape::NumberSeries, Shape::Text]
    );
    assert!(f.sample_body(Shape::Entries).is_none());
    assert!(f.sample_body(Shape::NumberSeries).is_some());
}

#[test]
fn commits_are_counted_per_day_and_out_of_window_ones_dropped() {
    let today = ymd(2026, 4, 22);
    let start = grid_start_date(today);
    let monday = ymd(2026, 4, 20);
    let old = ymd(2024, 1, 1);
    let grid = commits_grid(&[monday, monday, start, old], today);
    assert_eq!(grid[1][WEEKS - 1], 2);
    assert_eq!(grid[0][0], 1);
    let total: u32 = grid.iter().flatten().sum();
    assert_eq!(total, 3);
}

#[test]
fn empty_grid_text_is_empty() {
    let grid = vec![vec![0u32; WEEKS]; DAYS_PER_WEEK];
    let Body::Text(d) = render_body(grid, any_weekday(), Shape::Text) else {
        panic!("expected Text");
    };
    assert_eq!(d.value, "");
}

#[test]
fn month_labels_mark_the_week_each_month_starts() {
    let start = grid_start_date(ymd(2026, 4, 22));
    assert_eq!(start, ymd(2025, 4, 27));
    let labels = month_labels(start);
    assert_eq!(labels.len(), WEEKS);
    let marked: Vec<(usize, &str)> = labels
        .iter()
        .enumerate()
        .filter(|(_, l)| !l.is_empty())
        .map(|(i, l)| (i, l.as_str()))
        .collect();
    assert_eq!(
        marked,
        vec![
            (0, "May"),
            (5, "Jun"),
            (9, "Jul"),
            (13, "Aug"),
            (18, "Sep"),
            (22, "Oct"),
            (26, "Nov"),
            (31, "Dec"),
            (35, "Jan"),
            (40, "Feb"),
            (44, "Mar"),
            (48, "Apr"),
        ]
    );
}
