use std::collections::BTreeMap;

use splashboard::fetcher::github::languages::{
    build_body, format_percent, markdown_text, text_headline, to_entries, top_n,
};
use splashboard::payload::Body;
use splashboard::render::Shape;

fn raw(pairs: &[(&str, u64)]) -> Vec<(String, u64)> {
    let map: BTreeMap<String, u64> = pairs.iter().map(|(k, v)| ((*k).into(), *v)).collect();
    map.into_iter().collect()
}

#[test]
fn top_n_sorts_by_size_descending() {
    let input = raw(&[("TOML", 100), ("Rust", 1000), ("Shell", 50)]);
    let sorted = top_n(&input, 10);
    assert_eq!(
        sorted,
        vec![
            ("Rust".into(), 1000),
            ("TOML".into(), 100),
            ("Shell".into(), 50)
        ]
    );
}

#[test]
fn top_n_folds_tail_into_other() {
    // 4 items, cap 3 → top 2 kept verbatim, the remaining 2 collapse into "other".
    let input = raw(&[("A", 1000), ("B", 500), ("C", 100), ("D", 50)]);
    let sorted = top_n(&input, 3);
    assert_eq!(sorted[0], ("A".into(), 1000));
    assert_eq!(sorted[1], ("B".into(), 500));
    assert_eq!(sorted[2], ("other".into(), 150));
}

#[test]
fn top_n_skips_other_when_no_tail() {
    let input = raw(&[("A", 100), ("B", 50)]);
    let sorted = top_n(&input, 5);
    assert_eq!(sorted.len(), 2);
    assert!(sorted.iter().all(|(k, _)| k != "other"));
}

#[test]
fn format_percent_renders_one_decimal() {
    assert_eq!(format_percent(87, 100), "87.0%");
    assert_eq!(format_percent(1, 3), "33.3%");
}

#[test]
fn format_percent_guards_zero_total() {
    assert_eq!(format_percent(0, 0), "0%");
}

#[test]
fn entries_include_percent_values() {
    let sorted: Vec<(String, u64)> = vec![("Rust".into(), 750), ("TOML".into(), 250)];
    let entries = to_entries(&sorted);
    assert_eq!(entries[0].value.as_deref(), Some("75.0%"));
    assert_eq!(entries[1].value.as_deref(), Some("25.0%"));
}

#[test]
fn text_headline_collapses_to_one_line_with_rounded_percents() {
    let sorted: Vec<(String, u64)> = vec![
        ("Rust".into(), 870),
        ("TOML".into(), 80),
        ("Shell".into(), 50),
    ];
    assert_eq!(text_headline(&sorted), "Rust 87% · TOML 8% · Shell 5%");
}

#[test]
fn markdown_text_emits_one_bullet_per_language() {
    let sorted: Vec<(String, u64)> = vec![("Rust".into(), 750), ("TOML".into(), 250)];
    let md = markdown_text(&sorted);
    assert!(md.contains("- **Rust** — 75.0%"));
    assert!(md.contains("- **TOML** — 25.0%"));
}

#[test]
fn build_body_text_emits_text_value() {
    let body = build_body(&raw(&[("Rust", 870), ("TOML", 130)]), Shape::Text, 10);
    match body {
        Body::Text(d) => assert!(d.value.contains("Rust") && d.value.contains("87%")),
        _ => panic!("expected text"),
    }
}

#[test]
fn build_body_bars_preserves_top_n_order() {
    let body = build_body(&raw(&[("A", 500), ("B", 1000), ("C", 100)]), Shape::Bars, 10);
    match body {
        Body::Bars(d) => {
            assert_eq!(d.bars[0].label, "B");
            assert_eq!(d.bars[1].label, "A");
            assert_eq!(d.bars[2].label, "C");
        }
        _ => panic!("expected bars"),
    }
}
