use splashboard::fetcher::deariary::client::{
    cache_extra, entry_url, error_message, resolve_token, retry_wait_seconds, token_scope,
    ApiEntry,
};
use splashboard::fetcher::deariary::fetchers;
use splashboard::fetcher::deariary::on_this_day::{
    anchor_date, anchor_dates, anchors, gather_hits, render_body as on_this_day_body,
    DeariaryOnThisDay,
};
use splashboard::fetcher::deariary::recent::{
    render_body as recent_body, row_limit, short_date, DeariaryRecent, Options as RecentOptions,
};
use splashboard::fetcher::deariary::today::{
    fresh_latest_date, is_today_or_yesterday, relative_day, render_body as today_body,
    DeariaryToday,
};
use splashboard::fetcher::github::common::parse_timestamp;
use splashboard::fetcher::{FetchContext, FetchError, Safety};
use splashboard::payload::{
    BadgeData, Body, EntriesData, LinkedTextBlockData, MarkdownTextBlockData, Status,
    TextBlockData, TextData,
};
use splashboard::render::Shape;
use splashboard::time::Date;

fn ymd(year: i32, month: u32, day: u32) -> Date {
    Date { year, month, day }
}

fn bare(date: &str, title: &str) -> ApiEntry {
    ApiEntry {
        date: date.into(),
        title: title.into(),
        content: None,
        tags: vec![],
        sources: vec![],
        generated_at: None,
        word_count: None,
    }
}

fn full_entry() -> ApiEntry {
    ApiEntry {
        date: "2026-04-27".into(),
        title: "My Day".into(),
        content: Some("# Hello\n\nWorld".into()),
        tags: vec!["work".into(), "travel".into()],
        sources: vec!["github".into(), "calendar".into()],
        generated_at: Some("2026-04-27T08:00:00Z".into()),
        word_count: Some(482),
    }
}

fn ctx(shape: Option<Shape>, format: Option<&str>) -> FetchContext {
    FetchContext {
        widget_id: "deariary-today".into(),
        format: format.map(str::to_string),
        shape,
        ..FetchContext::default()
    }
}

// ---- client ----

#[test]
fn error_message_picks_problem_detail_over_title() {
    let msg = error_message("400 Bad Request", Some("date out of range"), Some("Bad Request"));
    assert!(msg.contains("date out of range"));
}

#[test]
fn error_message_falls_back_to_title_when_detail_missing() {
    let msg = error_message("403 Forbidden", None, Some("Forbidden"));
    assert!(msg.contains("Forbidden"));
}

#[test]
fn error_message_handles_non_problem_body() {
    let msg = error_message("500 Internal Server Error", None, None);
    assert!(msg.contains("500"));
    assert_eq!(msg, "deariary 500 Internal Server Error");
}

#[test]
fn resolve_token_prefers_config_value_over_env() {
    let token = resolve_token(Some("from-config"), Some("from-env")).unwrap();
    assert_eq!(token, "from-config");
}

#[test]
fn entry_url_uses_app_subdomain_with_slash_separated_date() {
    assert_eq!(
        entry_url("2026-04-27"),
        "https://app.deariary.com/entries/2026/04/27"
    );
}

#[test]
fn token_scope_is_stable_collision_resistant_and_obscures_raw_token() {
    let a = token_scope("tok-A");
    let b = token_scope("tok-A");
    assert_eq!(a, b, "scope must be deterministic for repeat calls");
    assert_ne!(token_scope("tok-A"), token_scope("tok-B"));
    assert_eq!(a.len(), 16);
    assert!(!a.contains("tok-A"));
}

#[test]
fn token_scope_dodges_naive_pipe_separator_collision() {
    assert_ne!(token_scope("a|b"), token_scope("a"));
}

#[test]
fn cache_extra_partitions_disk_cache_per_resolved_token() {
    let a = cache_extra(Some("tok-A"), None, "");
    let b = cache_extra(Some("tok-B"), None, "");
    assert_ne!(
        a, b,
        "different config tokens must yield different cache extras",
    );
}

#[test]
fn cache_extra_includes_options_blob_for_per_invocation_keys() {
    let v1: toml::Value = toml::from_str("tag = \"work\"").unwrap();
    let v2: toml::Value = toml::from_str("tag = \"travel\"").unwrap();
    let a = cache_extra(Some("tok-A"), None, &toml::to_string(&v1).unwrap());
    let b = cache_extra(Some("tok-A"), None, &toml::to_string(&v2).unwrap());
    assert_ne!(a, b);
}

#[test]
fn cache_extra_includes_a_token_scope_prefix() {
    let extra = cache_extra(Some("tok-A"), None, "");
    let scope = token_scope("tok-A");
    assert!(extra.starts_with(&format!("{scope}|")), "got: {extra:?}");
}

#[test]
fn resolve_token_trims_whitespace() {
    let token = resolve_token(Some("  abc  "), None).unwrap();
    assert_eq!(token, "abc");
}

#[test]
fn resolve_token_rejects_whitespace_only_config_value() {
    let result = resolve_token(Some("   "), None);
    if let Ok(t) = result {
        assert!(!t.trim().is_empty(), "should not return whitespace-only");
        assert_ne!(t, "   ");
    }
}

#[test]
fn resolve_token_falls_back_to_env_and_reports_missing_token() {
    assert_eq!(resolve_token(Some("  "), Some(" env-tok ")).unwrap(), "env-tok");
    assert_eq!(resolve_token(None, Some("env-tok")).unwrap(), "env-tok");
    let err = resolve_token(None, Some("   ")).unwrap_err();
    let FetchError::Failed(msg) = err;
    assert_eq!(
        msg,
        "deariary token missing: set options.token or DEARIARY_TOKEN"
    );
}

#[test]
fn retry_wait_reads_seconds_and_caps_at_ten() {
    assert_eq!(retry_wait_seconds(Some(" 3 ")), 3);
    assert_eq!(retry_wait_seconds(Some("24")), 10);
    assert_eq!(retry_wait_seconds(Some("soon")), 1);
    assert_eq!(retry_wait_seconds(None), 1);
}

// ---- today ----

#[test]
fn fetcher_catalog_surface_matches_contract() {
    let fetcher = DeariaryToday;
    assert_eq!(fetcher.name(), "deariary_today");
    assert_eq!(fetcher.safety(), Safety::Safe);
    assert_eq!(fetcher.default_shape(), Shape::TextBlock);
    assert_eq!(
        fetcher.shapes(),
        vec![
            Shape::TextBlock,
            Shape::Text,
            Shape::MarkdownTextBlock,
            Shape::LinkedTextBlock,
            Shape::Entries,
            Shape::Badge,
        ]
    );
    assert_eq!(fetcher.option_schemas().len(), 1);
    assert_eq!(fetcher.option_schemas()[0].name, "token");
    assert!(fetcher.description().contains("most recent auto-generated"));
}

#[test]
fn cache_key_changes_with_token_shape_and_format() {
    let fetcher = DeariaryToday;
    let alpha = "token = \"alpha\"\n";
    let beta = "token = \"beta\"\n";
    let base = fetcher.cache_key(&ctx(Some(Shape::TextBlock), Some("plain")), Some("alpha"), None, alpha);
    let same = fetcher.cache_key(&ctx(Some(Shape::TextBlock), Some("plain")), Some("alpha"), None, alpha);
    let different_token =
        fetcher.cache_key(&ctx(Some(Shape::TextBlock), Some("plain")), Some("beta"), None, beta);
    let different_shape =
        fetcher.cache_key(&ctx(Some(Shape::Badge), Some("plain")), Some("alpha"), None, alpha);
    let different_format =
        fetcher.cache_key(&ctx(Some(Shape::TextBlock), Some("json")), Some("alpha"), None, alpha);

    assert_eq!(base, same);
    assert_ne!(base, different_token);
    assert_ne!(base, different_shape);
    assert_ne!(base, different_format);
    assert!(!fetcher
        .cache_key(&ctx(None, None), None, None, "bogus = true\n")
        .is_empty());
}

#[test]
fn text_body_uses_title_only() {
    assert!(matches!(
        today_body(Some(&full_entry()), Shape::Text, ymd(2026, 4, 27)),
        Body::Text(TextData { value }) if value.contains("My Day") && !value.contains("482")
    ));
}

#[test]
fn text_block_splits_content_into_lines() {
    assert!(matches!(
        today_body(Some(&full_entry()), Shape::TextBlock, ymd(2026, 4, 27)),
        Body::TextBlock(TextBlockData { lines })
            if lines
                == vec![
                    "# Hello".to_string(),
                    String::new(),
                    "World".to_string(),
                ]
    ));
}

#[test]
fn linked_text_block_emits_one_clickable_headline() {
    assert!(matches!(
        today_body(Some(&full_entry()), Shape::LinkedTextBlock, ymd(2026, 4, 27)),
        Body::LinkedTextBlock(LinkedTextBlockData { items })
            if items.len() == 1
                && items[0].text.contains("My Day")
                && items[0].url.as_deref()
                    == Some("https://app.deariary.com/entries/2026/04/27")
    ));
}

#[test]
fn markdown_block_passes_content_through_verbatim() {
    assert!(matches!(
        today_body(Some(&full_entry()), Shape::MarkdownTextBlock, ymd(2026, 4, 27)),
        Body::MarkdownTextBlock(MarkdownTextBlockData { value })
            if value == "# Hello\n\nWorld"
    ));
}

#[test]
fn entries_includes_only_present_metadata_keys() {
    let mut bare_entry = full_entry();
    bare_entry.tags.clear();
    bare_entry.sources.clear();
    assert!(matches!(
        today_body(Some(&bare_entry), Shape::Entries, ymd(2026, 4, 27)),
        Body::Entries(EntriesData { items })
            if items.iter().map(|item| item.key.as_str()).collect::<Vec<_>>()
                == vec!["title", "date"]
    ));
}

#[test]
fn entries_joins_tags_and_sources_when_present() {
    assert!(matches!(
        today_body(Some(&full_entry()), Shape::Entries, ymd(2026, 4, 27)),
        Body::Entries(EntriesData { items })
            if items
                .iter()
                .find(|item| item.key == "tags")
                .and_then(|item| item.value.as_deref())
                == Some("work, travel")
    ));
}

#[test]
fn badge_label_says_today_when_entry_date_matches_today() {
    assert!(matches!(
        today_body(Some(&full_entry()), Shape::Badge, ymd(2026, 4, 27)),
        Body::Badge(BadgeData { status: Status::Okay, label }) if label == "📔 today"
    ));
}

#[test]
fn badge_label_says_yesterday_when_today_has_not_generated_yet() {
    assert!(matches!(
        today_body(Some(&full_entry()), Shape::Badge, ymd(2026, 4, 28)),
        Body::Badge(BadgeData { label, .. }) if label == "📔 yesterday"
    ));
}

#[test]
fn badge_label_falls_back_to_iso_date_for_older_entries() {
    assert!(matches!(
        today_body(Some(&full_entry()), Shape::Badge, ymd(2026, 5, 1)),
        Body::Badge(BadgeData { label, .. }) if label == "📔 2026-04-27"
    ));
}

#[test]
fn freshness_gate_accepts_today_and_yesterday_only() {
    let today = ymd(2026, 4, 27);
    assert!(is_today_or_yesterday("2026-04-27", today));
    assert!(is_today_or_yesterday("2026-04-26", today));
    assert!(!is_today_or_yesterday("2026-04-25", today));
    assert!(!is_today_or_yesterday("2026-04-22", today));
    assert!(!is_today_or_yesterday("2026-04-28", today));
    assert!(!is_today_or_yesterday("not-a-date", today));
}

#[test]
fn missing_entry_emits_empty_text_block() {
    assert!(matches!(
        today_body(None, Shape::TextBlock, ymd(2026, 4, 27)),
        Body::TextBlock(TextBlockData { lines }) if lines.is_empty()
    ));
}

#[test]
fn missing_entry_covers_other_empty_shapes() {
    let today = ymd(2026, 4, 27);
    assert!(matches!(
        today_body(None, Shape::Text, today),
        Body::Text(TextData { value }) if value.is_empty()
    ));
    assert!(matches!(
        today_body(None, Shape::MarkdownTextBlock, today),
        Body::MarkdownTextBlock(MarkdownTextBlockData { value }) if value.is_empty()
    ));
    assert!(matches!(
        today_body(None, Shape::LinkedTextBlock, today),
        Body::LinkedTextBlock(LinkedTextBlockData { items }) if items.is_empty()
    ));
    assert!(matches!(
        today_body(None, Shape::Entries, today),
        Body::Entries(EntriesData { items }) if items.is_empty()
    ));
}

#[test]
fn missing_entry_emits_warn_badge() {
    assert!(matches!(
        today_body(None, Shape::Badge, ymd(2026, 4, 27)),
        Body::Badge(BadgeData {
            status: Status::Warn,
            label,
        }) if label.contains("no entry")
    ));
}

#[test]
fn relative_day_returns_raw_text_for_invalid_dates() {
    assert_eq!(relative_day("not-a-date", ymd(2026, 4, 27)), "not-a-date");
}

#[test]
fn today_sample_body_provides_value_for_each_supported_shape() {
    let f = DeariaryToday;
    for s in f.shapes() {
        assert!(f.sample_body(s).is_some(), "missing sample for {s:?}");
    }
    assert!(f.sample_body(Shape::Heatmap).is_none());
}

#[test]
fn latest_entry_is_shown_only_when_it_is_fresh() {
    let today = ymd(2026, 4, 27);
    let list = vec![bare("2026-04-26", "Yesterday"), bare("2026-04-25", "Older")];
    assert_eq!(fresh_latest_date(&list, today).as_deref(), Some("2026-04-26"));
    let stale = vec![bare("2026-04-20", "Stale")];
    assert_eq!(fresh_latest_date(&stale, today), None);
    assert_eq!(fresh_latest_date(&[], today), None);
}

#[test]
fn text_block_drops_carriage_returns_and_the_final_empty_line() {
    let mut e = full_entry();
    e.content = Some("one\r\ntwo\n".into());
    let Body::TextBlock(t) = today_body(Some(&e), Shape::TextBlock, ymd(2026, 4, 27)) else {
        panic!("expected TextBlock");
    };
    assert_eq!(t.lines, vec!["one".to_string(), "two".to_string()]);
}

// ---- recent ----

fn fixture() -> Vec<ApiEntry> {
    vec![
        bare("2026-04-27", "My Day"),
        bare("2026-04-26", "Sunday"),
        bare("2026-04-25", "Heatmap"),
    ]
}

#[test]
fn timeline_uses_date_when_generated_at_missing() {
    let entries = fixture();
    let Body::Timeline(t) = recent_body(&entries, Shape::Timeline, 10, ymd(2026, 4, 27)) else {
        panic!("expected Timeline");
    };
    assert_eq!(t.events.len(), 3);
    assert!(t.events.iter().all(|e| e.timestamp > 0));
    assert_eq!(t.events[0].title, "My Day");
    // Noon UTC of 2026-04-27.
    assert_eq!(t.events[0].timestamp, 1_777_291_200);
}

#[test]
fn timeline_prefers_generated_at_when_present() {
    let mut entries = fixture();
    entries[0].generated_at = Some("2026-04-27T08:00:00Z".into());
    let Body::Timeline(t) = recent_body(&entries, Shape::Timeline, 10, ymd(2026, 4, 27)) else {
        panic!("expected Timeline");
    };
    assert_eq!(
        t.events[0].timestamp,
        parse_timestamp("2026-04-27T08:00:00Z")
    );
}

#[test]
fn text_includes_count_and_latest_title() {
    let entries = fixture();
    let Body::Text(t) = recent_body(&entries, Shape::Text, 10, ymd(2026, 4, 27)) else {
        panic!("expected Text");
    };
    assert!(t.value.contains("3 entries"));
    assert!(t.value.contains("My Day"));
}

#[test]
fn text_block_formats_short_date_and_title() {
    let entries = fixture();
    let Body::TextBlock(t) = recent_body(&entries, Shape::TextBlock, 10, ymd(2026, 4, 27)) else {
        panic!("expected TextBlock");
    };
    assert_eq!(t.lines[0], "04/27 · My Day");
}

#[test]
fn linked_text_block_links_each_row_to_its_entry_page() {
    let entries = fixture();
    let Body::LinkedTextBlock(l) =
        recent_body(&entries, Shape::LinkedTextBlock, 10, ymd(2026, 4, 27))
    else {
        panic!("expected LinkedTextBlock");
    };
    assert_eq!(l.items.len(), 3);
    assert_eq!(
        l.items[0].url.as_deref(),
        Some("https://app.deariary.com/entries/2026/04/27")
    );
}

#[test]
fn markdown_uses_bold_dates() {
    let entries = fixture();
    let Body::MarkdownTextBlock(m) =
        recent_body(&entries, Shape::MarkdownTextBlock, 10, ymd(2026, 4, 27))
    else {
        panic!("expected MarkdownTextBlock");
    };
    assert!(m.value.contains("**04/27**"));
}

#[test]
fn entries_keys_with_iso_date() {
    let entries = fixture();
    let Body::Entries(e) = recent_body(&entries, Shape::Entries, 10, ymd(2026, 4, 27)) else {
        panic!("expected Entries");
    };
    assert_eq!(e.items[0].key, "2026-04-27");
    assert_eq!(e.items[0].value.as_deref(), Some("My Day"));
}

#[test]
fn calendar_marks_entries_for_current_month_only() {
    let mut entries = fixture();
    entries.push(bare("2026-03-15", "Old"));
    let Body::Calendar(c) = recent_body(&entries, Shape::Calendar, 10, ymd(2026, 4, 27)) else {
        panic!("expected Calendar");
    };
    assert_eq!(c.year, 2026);
    assert_eq!(c.month, 4);
    assert_eq!(c.events, vec![27, 26, 25]);
}

#[test]
fn limit_caps_returned_rows() {
    let entries = fixture();
    let Body::TextBlock(t) = recent_body(&entries, Shape::TextBlock, 2, ymd(2026, 4, 27)) else {
        panic!("expected TextBlock");
    };
    assert_eq!(t.lines.len(), 2);
}

#[test]
fn text_headline_reports_total_count_not_limit() {
    let entries = vec![
        bare("2026-04-27", "A"),
        bare("2026-04-26", "B"),
        bare("2026-04-25", "C"),
        bare("2026-04-24", "D"),
        bare("2026-04-23", "E"),
    ];
    let Body::Text(t) = recent_body(&entries, Shape::Text, 2, ymd(2026, 4, 27)) else {
        panic!("expected Text");
    };
    assert!(
        t.value.contains("5 entries"),
        "headline must use real total: {}",
        t.value
    );
}

#[test]
fn badge_headline_reports_total_count_not_limit() {
    let entries = vec![
        bare("2026-04-27", "A"),
        bare("2026-04-26", "B"),
        bare("2026-04-25", "C"),
    ];
    let Body::Badge(b) = recent_body(&entries, Shape::Badge, 1, ymd(2026, 4, 27)) else {
        panic!("expected Badge");
    };
    assert_eq!(
        b.label, "📔 3 recent",
        "badge must reflect total entries, not the row limit"
    );
}

#[test]
fn empty_input_yields_empty_body_and_warn_badge() {
    let Body::Timeline(t) = recent_body(&[], Shape::Timeline, 10, ymd(2026, 4, 27)) else {
        panic!("expected Timeline");
    };
    assert!(t.events.is_empty());

    let Body::Badge(b) = recent_body(&[], Shape::Badge, 10, ymd(2026, 4, 27)) else {
        panic!("expected Badge");
    };
    assert_eq!(b.status, Status::Warn);
}

#[test]
fn recent_sample_body_provides_value_for_each_supported_shape() {
    let f = DeariaryRecent;
    for s in f.shapes() {
        assert!(f.sample_body(s).is_some(), "missing sample for {s:?}");
    }
    assert!(f.sample_body(Shape::Image).is_none());
}

#[test]
fn short_date_falls_back_to_raw_when_unparseable() {
    assert_eq!(short_date("not-a-date"), "not-a-date");
}

#[test]
fn recent_row_limit_defaults_and_clamps() {
    let mut opts = RecentOptions::default();
    assert_eq!(row_limit(&opts), 10);
    opts.limit = Some(0);
    assert_eq!(row_limit(&opts), 1);
    opts.limit = Some(500);
    assert_eq!(row_limit(&opts), 100);
}

// ---- on this day ----

#[test]
fn anchors_cover_eight_lookback_points() {
    assert_eq!(anchors().len(), 8);
}

#[test]
fn anchor_date_subtracts_months_safely() {
    let today = ymd(2026, 4, 27);
    assert_eq!(anchor_date(today, 1), Some(ymd(2026, 3, 27)));
    assert_eq!(anchor_date(today, 12), Some(ymd(2025, 4, 27)));
    assert_eq!(anchor_date(today, 60), Some(ymd(2021, 4, 27)));
}

#[test]
fn anchor_date_clamps_when_target_day_does_not_exist() {
    let today = ymd(2026, 3, 31);
    assert_eq!(anchor_date(today, 1), Some(ymd(2026, 2, 28)));
}

#[test]
fn text_block_orders_anchors_newest_first() {
    let hits = vec![
        (0, bare("2026-03-27", "Recent")),
        (3, bare("2025-04-27", "Year ago")),
    ];
    let Body::TextBlock(t) = on_this_day_body(&hits, Shape::TextBlock, ymd(2026, 4, 27)) else {
        panic!("expected TextBlock");
    };
    assert_eq!(
        t.lines,
        vec![
            "1 month ago — Recent".to_string(),
            "1 year ago — Year ago".to_string(),
        ]
    );
}

#[test]
fn linked_text_block_rows_link_to_each_anchor_entry() {
    let hits = vec![(0, bare("2026-03-27", "Recent"))];
    let Body::LinkedTextBlock(l) =
        on_this_day_body(&hits, Shape::LinkedTextBlock, ymd(2026, 4, 27))
    else {
        panic!("expected LinkedTextBlock");
    };
    assert_eq!(l.items.len(), 1);
    assert_eq!(
        l.items[0].url.as_deref(),
        Some("https://app.deariary.com/entries/2026/03/27")
    );
    assert!(l.items[0].text.contains("Recent"));
}

#[test]
fn text_headlines_with_oldest_hit() {
    let hits = vec![
        (0, bare("2026-03-27", "Recent")),
        (7, bare("2021-04-27", "Five years")),
    ];
    let Body::Text(t) = on_this_day_body(&hits, Shape::Text, ymd(2026, 4, 27)) else {
        panic!("expected Text");
    };
    assert!(t.value.contains("5 years ago"));
    assert!(t.value.contains("Five years"));
}

#[test]
fn timeline_emits_one_event_per_hit() {
    let hits = vec![
        (0, bare("2026-03-27", "Recent")),
        (3, bare("2025-04-27", "Year ago")),
    ];
    let Body::Timeline(t) = on_this_day_body(&hits, Shape::Timeline, ymd(2026, 4, 27)) else {
        panic!("expected Timeline");
    };
    assert_eq!(t.events.len(), 2);
    assert_eq!(t.events[0].title, "Recent");
    assert_eq!(t.events[0].detail.as_deref(), Some("1 month ago"));
    assert!(t.events[0].timestamp > t.events[1].timestamp);
}

#[test]
fn empty_hits_yields_empty_text_block() {
    let Body::TextBlock(t) = on_this_day_body(&[], Shape::TextBlock, ymd(2026, 4, 27)) else {
        panic!("expected TextBlock");
    };
    assert!(t.lines.is_empty());
}

#[test]
fn empty_hits_yields_warn_badge() {
    let Body::Badge(b) = on_this_day_body(&[], Shape::Badge, ymd(2026, 4, 27)) else {
        panic!("expected Badge");
    };
    assert_eq!(b.status, Status::Warn);
    assert!(b.label.contains("no past entries"));
}

#[test]
fn entries_keys_with_anchor_label() {
    let hits = vec![(2, bare("2025-10-27", "Half year"))];
    let Body::Entries(e) = on_this_day_body(&hits, Shape::Entries, ymd(2026, 4, 27)) else {
        panic!("expected Entries");
    };
    assert_eq!(e.items[0].key, "6 months ago");
    assert_eq!(e.items[0].value.as_deref(), Some("Half year"));
}

#[test]
fn markdown_uses_bold_anchor_labels() {
    let hits = vec![(0, bare("2026-03-27", "Recent"))];
    let Body::MarkdownTextBlock(m) =
        on_this_day_body(&hits, Shape::MarkdownTextBlock, ymd(2026, 4, 27))
    else {
        panic!("expected MarkdownTextBlock");
    };
    assert!(m.value.contains("**1 month ago**"));
}

#[test]
fn on_this_day_sample_body_provides_value_for_each_supported_shape() {
    let f = DeariaryOnThisDay;
    for s in f.shapes() {
        assert!(f.sample_body(s).is_some(), "missing sample for {s:?}");
    }
    assert!(f.sample_body(Shape::Heatmap).is_none());
}

#[test]
fn every_anchor_date_exists_for_an_ordinary_day() {
    let dates = anchor_dates(ymd(2026, 4, 27));
    assert_eq!(dates.len(), 8);
    assert_eq!(dates[0], (0, ymd(2026, 3, 27)));
    assert_eq!(dates[7], (7, ymd(2021, 4, 27)));
}

#[test]
fn gathered_hits_are_ordered_by_anchor_and_failures_only_fail_when_all_did() {
    let out = gather_hits(
        vec![
            (3, Ok(Some(bare("2025-04-27", "Year")))),
            (1, Ok(None)),
            (0, Ok(Some(bare("2026-03-27", "Month")))),
            (5, Err(FetchError::Failed("rate limited".into()))),
        ],
        4,
    )
    .unwrap();
    let order: Vec<usize> = out.iter().map(|(i, _)| *i).collect();
    assert_eq!(order, vec![0, 3]);

    let err = gather_hits(
        vec![
            (0, Err(FetchError::Failed("first".into()))),
            (1, Err(FetchError::Failed("second".into()))),
        ],
        2,
    )
    .unwrap_err();
    let FetchError::Failed(msg) = err;
    assert_eq!(msg, "second");

    assert!(gather_hits(vec![(0, Ok(None))], 1).unwrap().is_empty());
}

#[test]
fn deariary_fetchers_register_the_family() {
    let names: Vec<&str> = fetchers().iter().map(|f| f.name()).collect();
    assert_eq!(
        names,
        vec!["deariary_today", "deariary_recent", "deariary_on_this_day"]
    );
}
