use splashboard::fetcher::git::contributors::{
    parse_days, rank_authors, render_body, GitContributors, DEFAULT_DAYS, MAX_ENTRIES,
};
use splashboard::fetcher::git::text_body;
use splashboard::fetcher::{FetchContext, Safety};
use splashboard::payload::{Bar, BarsData, Body, EntriesData, Entry, MarkdownTextBlockData, TextBlockData};
use splashboard::render::Shape;
use splashboard::samples;

fn ctx(shape: Option<Shape>, format: Option<&str>) -> FetchContext {
    FetchContext {
        shape,
        format: format.map(str::to_string),
        ..FetchContext::default()
    }
}

#[test]
fn contributors_fetcher_contract_and_samples_cover_supported_shapes() {
    let fetcher = GitContributors;
    let text_key = fetcher.cache_key(&ctx(Some(Shape::Text), Some("7")), "");
    let bars_key = fetcher.cache_key(&ctx(Some(Shape::Bars), Some("30")), "");

    assert_eq!(fetcher.name(), "git_contributors");
    assert_eq!(fetcher.safety(), Safety::Safe);
    assert!(fetcher.description().contains("Top commit authors"));
    assert_eq!(
        fetcher.shapes(),
        vec![Shape::Bars, Shape::Entries, Shape::TextBlock, Shape::MarkdownTextBlock, Shape::Text]
    );
    assert_eq!(fetcher.default_shape(), Shape::Bars);
    assert!(text_key.starts_with("git_contributors-"));
    assert_ne!(text_key, bars_key);
    assert_eq!(
        fetcher.sample_body(Shape::Bars),
        Some(samples::bars(&[
            ("alice", 42),
            ("bob", 28),
            ("charlie", 17),
            ("dave", 9),
        ]))
    );
    assert_eq!(
        fetcher.sample_body(Shape::Entries),
        Some(samples::entries(&[
            ("alice", "42"),
            ("bob", "28"),
            ("charlie", "17"),
            ("dave", "9"),
        ]))
    );
    assert_eq!(
        fetcher.sample_body(Shape::TextBlock),
        Some(samples::text_block(&[
            "alice  42",
            "bob  28",
            "charlie  17",
            "dave  9",
        ]))
    );
    assert_eq!(
        fetcher.sample_body(Shape::MarkdownTextBlock),
        Some(samples::markdown(
            "1. **alice** — 42\n2. **bob** — 28\n3. **charlie** — 17\n4. **dave** — 9",
        ))
    );
    assert_eq!(
        fetcher.sample_body(Shape::Text),
        Some(samples::text(
            "alice (42), bob (28), charlie (17), dave (9)"
        ))
    );
    assert!(fetcher.sample_body(Shape::Badge).is_none());
}

#[test]
fn contributors_empty_repo_returns_empty() {
    assert!(rank_authors(&Vec::new()).is_empty());
}

#[test]
fn tallies_authors_in_rank_order() {
    let authors: Vec<String> = vec!["alice".into(), "bob".into(), "alice".into(), "alice".into()];
    let ranked = rank_authors(&authors);
    assert_eq!(ranked, vec![("alice".into(), 3u64), ("bob".into(), 1u64)]);
}

#[test]
fn bars_shape_from_ranking() {
    assert_eq!(
        render_body(&vec![("alice".into(), 3), ("bob".into(), 1)], Shape::Bars),
        Body::Bars(BarsData {
            bars: vec![
                Bar {
                    label: "alice".into(),
                    value: 3,
                    value_label: None,
                },
                Bar {
                    label: "bob".into(),
                    value: 1,
                    value_label: None,
                },
            ],
        })
    );
}

#[test]
fn entries_shape_uses_name_count_rows() {
    assert_eq!(
        render_body(&vec![("alice".into(), 3), ("bob".into(), 1)], Shape::Entries),
        Body::Entries(EntriesData {
            items: vec![
                Entry {
                    key: "alice".into(),
                    value: Some("3".into()),
                    status: None,
                },
                Entry {
                    key: "bob".into(),
                    value: Some("1".into()),
                    status: None,
                },
            ],
        })
    );
}

#[test]
fn contributors_text_shape_empty_when_empty() {
    assert_eq!(render_body(&Vec::new(), Shape::Text), text_body(""));
}

#[test]
fn text_shape_joins_with_counts() {
    assert_eq!(
        render_body(&vec![("alice".into(), 3), ("bob".into(), 1)], Shape::Text),
        text_body("alice (3), bob (1)")
    );
}

#[test]
fn text_block_lists_one_row_per_contributor() {
    assert_eq!(
        render_body(&vec![("alice".into(), 3), ("bob".into(), 1)],
            Shape::TextBlock
        ),
        Body::TextBlock(TextBlockData {
            lines: vec!["alice  3".into(), "bob  1".into()],
        })
    );
}

#[test]
fn markdown_text_block_emits_numbered_ranking() {
    assert_eq!(
        render_body(&vec![("alice".into(), 3), ("bob".into(), 1)],
            Shape::MarkdownTextBlock,
        ),
        Body::MarkdownTextBlock(MarkdownTextBlockData {
            value: "1. **alice** — 3\n2. **bob** — 1".into(),
        })
    );
}

#[test]
fn ranking_tie_breaks_alphabetically_and_truncates() {
    let authors: Vec<String> = [
        "zoe", "amy", "luz", "bob", "kai", "eve", "mia", "ian", "ned", "uma", "zzz",
    ]
    .into_iter()
    .map(String::from)
    .collect();

    let ranked = rank_authors(&authors);
    let names: Vec<_> = ranked.into_iter().map(|(name, _)| name).collect();

    assert_eq!(names.len(), MAX_ENTRIES);
    assert_eq!(
        names,
        vec![
            "amy", "bob", "eve", "ian", "kai", "luz", "mia", "ned", "uma", "zoe",
        ]
    );
}

#[test]
fn contributors_parse_days_defaults_and_parses() {
    assert_eq!(parse_days(None), DEFAULT_DAYS);
    assert_eq!(parse_days(Some("0")), DEFAULT_DAYS);
    assert_eq!(parse_days(Some(" 14 ")), 14);
    assert_eq!(parse_days(Some("7")), 7);
}
