use splashboard::fetcher::github::contributions::{
    month_labels, to_heatmap, weekday_index, Calendar, Day, Week,
};
use splashboard::time::{iso_date, weekday_from_sunday, Date};

fn day(date: &str, count: u32) -> Day {
    Day {
        date: date.into(),
        contribution_count: count,
    }
}

fn week(days: Vec<Day>) -> Week {
    Week {
        contribution_days: days,
    }
}

#[test]
fn heatmap_has_seven_rows_and_week_count_columns() {
    let cal = Calendar {
        weeks: vec![week(vec![day("2026-04-19", 1), day("2026-04-20", 2)])],
    };
    let h = to_heatmap(&cal);
    assert_eq!(h.cells.len(), 7);
    assert!(h.cells.iter().all(|r| r.len() == 1));
}

#[test]
fn sunday_lands_in_row_zero() {
    // 2026-04-19 is a Sunday.
    let cal = Calendar {
        weeks: vec![week(vec![day("2026-04-19", 9)])],
    };
    let h = to_heatmap(&cal);
    assert_eq!(h.cells[0][0], 9);
}

#[test]
fn month_labels_mark_the_week_where_a_month_starts() {
    let cal = Calendar {
        weeks: vec![
            week(vec![day("2026-04-26", 0), day("2026-04-30", 1)]),
            week(vec![day("2026-05-01", 2), day("2026-05-02", 0)]),
            week(vec![day("2026-05-03", 3)]),
        ],
    };
    assert_eq!(month_labels(&cal), vec!["", "May", ""]);
    assert_eq!(weekday_index("2026-05-01"), Some(5));
    assert_eq!(weekday_index("not a date"), None);
}

#[test]
fn weekday_and_iso_rendering_cover_the_calendar_edges() {
    assert_eq!(weekday_from_sunday(Date { year: 1970, month: 1, day: 1 }), 4);
    assert_eq!(weekday_from_sunday(Date { year: 2000, month: 2, day: 29 }), 2);
    assert_eq!(weekday_from_sunday(Date { year: -1, month: 12, day: 31 }), 5);
    assert_eq!(iso_date(Date { year: 5, month: 3, day: 7 }), "0005-03-07");
    assert_eq!(iso_date(Date { year: -42, month: 1, day: 1 }), "-0042-01-01");
    assert_eq!(iso_date(Date { year: 12345, month: 12, day: 31 }), "+12345-12-31");
}
