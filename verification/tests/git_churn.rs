use splashboard::fetcher::git::churn::{
    parse_days, rank_changes, render_body, short_path, GitChurn, DEFAULT_DAYS, TOP_FILES,
};
use splashboard::fetcher::{FetchContext, Safety};
use splashboard::payload::{Body, EntriesData, Entry};
use splashboard::render::Shape;
use splashboard::samples;

fn ctx(shape: Option<Shape>, format: Option<&str>) -> FetchContext {
    FetchContext {
        shape,
        format: format.map(str::to_string),
        ..FetchContext::default()
    }
}

#[test]
fn churn_fetcher_contract_and_samples_cover_supported_shapes() {
    let fetcher = GitChurn;
    let default_key = fetcher.cache_key(&ctx(None, None), "");
    let text_key = fetcher.cache_key(&ctx(Some(Shape::Text), Some("7")), "");
    let bars_key = fetcher.cache_key(&ctx(Some(Shape::Bars), Some("30")), "");

    assert_eq!(fetcher.name(), "git_churn");
    assert_eq!(fetcher.safety(), Safety::Safe);
    assert!(fetcher.description().contains("Top files by change count"));
    assert_eq!(
        fetcher.shapes(),
        vec![Shape::Entries, Shape::Bars, Shape::TextBlock, Shape::MarkdownTextBlock, Shape::Text]
    );
    assert_eq!(fetcher.default_shape(), Shape::Entries);
    assert!(default_key.starts_with("git_churn-"));
    assert_ne!(default_key, text_key);
    assert_ne!(text_key, bars_key);
    assert_eq!(
        fetcher.sample_body(Shape::Entries),
        Some(samples::entries(&[
            ("src/main.rs", "42"),
            ("src/lib.rs", "31"),
            ("src/render/mod.rs", "18"),
            ("src/fetcher/mod.rs", "12"),
        ]))
    );
    assert_eq!(
        fetcher.sample_body(Shape::Bars),
        Some(samples::bars(&[
            ("src/main.rs", 42),
            ("src/lib.rs", 31),
            ("src/render/mod.rs", 18),
            ("src/fetcher/mod.rs", 12),
        ]))
    );
    assert_eq!(
        fetcher.sample_body(Shape::TextBlock),
        Some(samples::text_block(&[
            "src/main.rs (42)",
            "src/lib.rs (31)",
            "src/render/mod.rs (18)",
            "src/fetcher/mod.rs (12)",
        ]))
    );
    assert_eq!(
        fetcher.sample_body(Shape::MarkdownTextBlock),
        Some(samples::markdown(
            "1. `src/main.rs` — 42\n2. `src/lib.rs` — 31\n3. `src/render/mod.rs` — 18\n4. `src/fetcher/mod.rs` — 12",
        ))
    );
    assert_eq!(
        fetcher.sample_body(Shape::Text),
        Some(samples::text("main.rs (42), lib.rs (31), mod.rs (18)"))
    );
    assert!(fetcher.sample_body(Shape::Badge).is_none());
}

#[test]
fn churn_empty_repo_returns_empty() {
    assert!(rank_changes(&Vec::new()).is_empty());
}

#[test]
fn ranks_files_by_commit_count() {
    let changes: Vec<String> = vec!["a.rs".into(), "a.rs".into(), "a.rs".into(), "b.rs".into()];
    let ranked = rank_changes(&changes);
    assert_eq!(ranked[0], ("a.rs".to_string(), 3));
    assert_eq!(ranked[1], ("b.rs".to_string(), 1));
}

#[test]
fn truncates_to_top_n() {
    let changes: Vec<String> = (0..(TOP_FILES + 5)).map(|i| format!("f{i}.rs")).collect();
    let ranked = rank_changes(&changes);
    assert_eq!(ranked.len(), TOP_FILES);
}

#[test]
fn entries_shape_uses_full_path() {
    let body = render_body(&vec![("src/foo/bar.rs".into(), 5)], Shape::Entries);
    match body {
        Body::Entries(d) => {
            assert_eq!(d.items[0].key, "src/foo/bar.rs");
            assert_eq!(d.items[0].value.as_deref(), Some("5"));
        }
        _ => panic!(),
    }
}

#[test]
fn bars_shape_carries_full_path_and_count() {
    let body = render_body(&vec![("src/main.rs".into(), 7), ("src/lib.rs".into(), 3)],
        Shape::Bars,
    );
    match body {
        Body::Bars(d) => {
            assert_eq!(d.bars.len(), 2);
            assert_eq!(d.bars[0].label, "src/main.rs");
            assert_eq!(d.bars[0].value, 7);
        }
        _ => panic!(),
    }
}

#[test]
fn text_block_shape_one_line_per_file() {
    let body = render_body(&vec![("src/foo.rs".into(), 3), ("src/bar.rs".into(), 1)],
        Shape::TextBlock,
    );
    match body {
        Body::TextBlock(d) => {
            assert_eq!(d.lines, vec!["src/foo.rs (3)", "src/bar.rs (1)"]);
        }
        _ => panic!(),
    }
}

#[test]
fn text_block_shape_empty_when_empty() {
    let body = render_body(&Vec::new(), Shape::TextBlock);
    match body {
        Body::TextBlock(d) => assert!(d.lines.is_empty()),
        _ => panic!(),
    }
}

#[test]
fn text_shape_shortens_paths_and_joins() {
    let body = render_body(&vec![("src/foo.rs".into(), 3), ("src/dir/bar.rs".into(), 1)],
        Shape::Text,
    );
    match body {
        Body::Text(d) => assert_eq!(d.value, "foo.rs (3), bar.rs (1)"),
        _ => panic!(),
    }
}

#[test]
fn churn_text_shape_empty_when_empty() {
    let body = render_body(&Vec::new(), Shape::Text);
    match body {
        Body::Text(d) => assert!(d.value.is_empty()),
        _ => panic!(),
    }
}

#[test]
fn markdown_text_block_emits_numbered_list_with_inline_code() {
    let body = render_body(&vec![("src/foo.rs".into(), 3), ("src/bar.rs".into(), 1)],
        Shape::MarkdownTextBlock,
    );
    match body {
        Body::MarkdownTextBlock(d) => {
            assert!(d.value.contains("1. `src/foo.rs` — 3"));
            assert!(d.value.contains("2. `src/bar.rs` — 1"));
        }
        _ => panic!(),
    }
}

#[test]
fn unsupported_shape_falls_back_to_entries() {
    let body = render_body(&vec![("src/foo.rs".into(), 3)], Shape::Badge);
    assert_eq!(
        body,
        Body::Entries(EntriesData {
            items: vec![Entry {
                key: "src/foo.rs".into(),
                value: Some("3".into()),
                status: None,
            }],
        })
    );
}

#[test]
fn churn_parse_days_defaults_and_parses() {
    assert_eq!(parse_days(None), DEFAULT_DAYS);
    assert_eq!(parse_days(Some("0")), DEFAULT_DAYS);
    assert_eq!(parse_days(Some(" invalid ")), DEFAULT_DAYS);
    assert_eq!(parse_days(Some(" 14 ")), 14);
    assert_eq!(parse_days(Some("7")), 7);
}

#[test]
fn churn_short_path_returns_basename() {
    assert_eq!(short_path("a.rs"), "a.rs");
    assert_eq!(short_path("src/foo/bar.rs"), "bar.rs");
}

