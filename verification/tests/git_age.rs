use splashboard::fetcher::git::age::{
    age_body,
    badge_body, bars_body, build, calendar_body, format_duration, format_long_duration,
    format_text, linked_body, markdown_body, number_series_body, text_block_body, timeline_body,
    Age, GitAge,
};
use splashboard::payload::{Body, Status};
use splashboard::render::Shape;
use splashboard::time::{date_of_seconds, Date};

fn ymd(y: i32, m: u32, d: u32) -> Date {
    Date { year: y, month: m, day: d }
}

fn fixed_age() -> Age {
    Age {
        years: 2,
        months: 3,
        days: 12,
    }
}

fn fixed_first() -> Date {
    ymd(2024, 1, 15)
}

#[test]
fn empty_repo_text_is_empty() {
        let body = build(None, ymd(2026, 4, 27), Shape::Text, None);
    match body {
        Body::Text(d) => assert!(d.value.is_empty()),
        _ => panic!(),
    }
}

#[test]
fn empty_repo_emits_empty_for_each_structural_shape() {
        let today = ymd(2026, 4, 27);
    for shape in [
        Shape::TextBlock,
        Shape::LinkedTextBlock,
        Shape::Entries,
        Shape::NumberSeries,
        Shape::Bars,
        Shape::Timeline,
    ] {
        let body = build(None, today, shape, None);
        assert!(
            is_structurally_empty(&body),
            "expected empty body for {shape:?}, got {body:?}"
        );
    }
}

#[test]
fn empty_repo_badge_says_no_commits() {
        let body = build(None, ymd(2026, 4, 27), Shape::Badge, None);
    match body {
        Body::Badge(d) => {
            assert_eq!(d.status, Status::Warn);
            assert_eq!(d.label, "no commits");
        }
        _ => panic!(),
    }
}

#[test]
fn single_commit_today_renders_today() {
        let now = chrono::Utc::now();
    let today = date_of_seconds(now.timestamp()).unwrap();
    let body = build(Some(now.timestamp()), today, Shape::Text, None);
    match body {
        Body::Text(d) => assert_eq!(d.value, "today"),
        _ => panic!(),
    }
}

#[test]
fn entries_shape_has_expected_keys() {
        let now = chrono::Utc::now();
    let today = date_of_seconds(now.timestamp()).unwrap();
    let body = build(Some(now.timestamp()), today, Shape::Entries, None);
    match body {
        Body::Entries(d) => {
            let keys: Vec<_> = d.items.iter().map(|e| e.key.as_str()).collect();
            assert_eq!(keys, ["years", "months", "days", "first_commit_date"]);
        }
        _ => panic!(),
    }
}

#[test]
fn age_between_handles_full_years_and_months() {
    let age = Age::between(ymd(2024, 1, 15), ymd(2026, 4, 27));
    assert_eq!(age, fixed_age());
}

#[test]
fn age_borrows_from_month_when_day_is_negative() {
    let age = Age::between(ymd(2024, 2, 28), ymd(2024, 4, 5));
    assert_eq!(
        age,
        Age {
            years: 0,
            months: 1,
            days: 8
        }
    );
}

#[test]
fn age_borrows_from_year_when_month_is_negative() {
    let age = Age::between(ymd(2024, 6, 15), ymd(2025, 4, 15));
    assert_eq!(
        age,
        Age {
            years: 0,
            months: 10,
            days: 0
        }
    );
}

#[test]
fn age_clamps_to_zero_when_first_is_in_the_future() {
    let age = Age::between(ymd(2030, 1, 1), ymd(2026, 4, 27));
    assert_eq!(age, Age::zero());
}

#[test]
fn format_duration_today_for_zero() {
    assert_eq!(format_duration(&Age::zero()), "today");
}

#[test]
fn format_duration_years_only() {
    let age = Age {
        years: 2,
        months: 0,
        days: 5,
    };
    assert_eq!(format_duration(&age), "2y");
}

#[test]
fn format_duration_years_and_months() {
    assert_eq!(format_duration(&fixed_age()), "2y 3m");
}

#[test]
fn format_duration_months_and_days() {
    let age = Age {
        years: 0,
        months: 5,
        days: 12,
    };
    assert_eq!(format_duration(&age), "5m 12d");
}

#[test]
fn format_duration_days_only() {
    let age = Age {
        years: 0,
        months: 0,
        days: 5,
    };
    assert_eq!(format_duration(&age), "5d");
}

#[test]
fn format_long_duration_lists_every_nonzero() {
    assert_eq!(format_long_duration(&fixed_age()), "2y 3m 12d");
}

#[test]
fn format_text_since_uses_date() {
    let s = format_text(&fixed_age(), fixed_first(), Some("since"));
    assert_eq!(s, "since 2024-01-15");
}

#[test]
fn format_text_full_combines_duration_and_date() {
    let s = format_text(&fixed_age(), fixed_first(), Some("full"));
    assert_eq!(s, "2y 3m · since 2024-01-15");
}

#[test]
fn format_text_unknown_format_falls_back_to_duration() {
    let age = Age {
        years: 1,
        months: 0,
        days: 0,
    };
    assert_eq!(format_text(&age, fixed_first(), Some("nope")), "1y");
}

#[test]
fn text_block_body_has_four_labelled_lines() {
    let body = text_block_body(&fixed_age(), fixed_first());
    match body {
        Body::TextBlock(d) => {
            assert_eq!(d.lines.len(), 4);
            assert!(d.lines[0].contains("Years"));
            assert!(d.lines[3].contains("2024-01-15"));
        }
        _ => panic!(),
    }
}

#[test]
fn markdown_body_inlines_duration_and_date() {
    let body = markdown_body(&fixed_age(), fixed_first());
    match body {
        Body::MarkdownTextBlock(d) => {
            assert!(d.value.contains("2y 3m 12d"));
            assert!(d.value.contains("2024-01-15"));
        }
        _ => panic!(),
    }
}

#[test]
fn linked_body_emits_two_unlinked_rows() {
    let body = linked_body(&fixed_age(), fixed_first());
    match body {
        Body::LinkedTextBlock(d) => {
            assert_eq!(d.items.len(), 2);
            assert!(d.items.iter().all(|i| i.url.is_none()));
        }
        _ => panic!(),
    }
}

#[test]
fn number_series_carries_years_months_days() {
    let body = number_series_body(&fixed_age());
    match body {
        Body::NumberSeries(d) => assert_eq!(d.values, vec![2, 3, 12]),
        _ => panic!(),
    }
}

#[test]
fn bars_body_emits_three_labelled_bars() {
    let body = bars_body(&fixed_age());
    match body {
        Body::Bars(d) => {
            let labels: Vec<_> = d.bars.iter().map(|b| b.label.as_str()).collect();
            assert_eq!(labels, ["years", "months", "days"]);
        }
        _ => panic!(),
    }
}

#[test]
fn calendar_body_pins_first_commit_day() {
    let body = calendar_body(fixed_first());
    match body {
        Body::Calendar(d) => {
            assert_eq!(d.year, 2024);
            assert_eq!(d.month, 1);
            assert_eq!(d.day, Some(15));
        }
        _ => panic!(),
    }
}

#[test]
fn badge_tier_thresholds() {
    let cases = [
        (
            Age {
                years: 0,
                months: 0,
                days: 5,
            },
            5,
            "fresh",
        ),
        (
            Age {
                years: 0,
                months: 4,
                days: 0,
            },
            120,
            "young",
        ),
        (
            Age {
                years: 2,
                months: 0,
                days: 0,
            },
            731,
            "mature",
        ),
        (
            Age {
                years: 7,
                months: 0,
                days: 0,
            },
            2557,
            "ancient",
        ),
    ];
    for (age, elapsed, expected) in cases {
        let body = badge_body(&age, elapsed);
        match body {
            Body::Badge(d) => assert!(
                d.label.starts_with(expected),
                "expected tier {expected}, got label {}",
                d.label
            ),
            _ => panic!(),
        }
    }
}

#[test]
fn timeline_body_carries_first_commit_event() {
    let body = timeline_body(fixed_first(), 1_705_276_800);
    match body {
        Body::Timeline(d) => {
            assert_eq!(d.events.len(), 1);
            assert_eq!(d.events[0].title, "First commit");
            assert_eq!(d.events[0].timestamp, 1_705_276_800);
        }
        _ => panic!(),
    }
}

#[test]
fn age_sample_body_covers_every_supported_shape() {
    for shape in GitAge.shapes() {
        assert!(GitAge.sample_body(shape).is_some(), "missing sample for {shape:?}");
    }
}

fn is_structurally_empty(body: &Body) -> bool {
    match body {
        Body::TextBlock(d) => d.lines.is_empty(),
        Body::LinkedTextBlock(d) => d.items.is_empty(),
        Body::Entries(d) => d.items.is_empty(),
        Body::NumberSeries(d) => d.values.is_empty(),
        Body::Bars(d) => d.bars.is_empty(),
        Body::Timeline(d) => d.events.is_empty(),
        _ => false,
    }
}

#[test]
fn badge_tier_turns_young_at_thirty_days() {
    let first = Date { year: 2024, month: 1, day: 1 };
    let label = |today: Date| match age_body(first, 1_704_067_200, today, Shape::Badge, None) {
        Body::Badge(d) => d.label,
        _ => panic!("expected badge"),
    };
    assert!(label(Date { year: 2024, month: 1, day: 30 }).starts_with("fresh"));
    assert!(label(Date { year: 2024, month: 1, day: 31 }).starts_with("young"));
}
