use splashboard::fetcher::git::latest_tag::{self, latest_tag, GitLatestTag, TagInfo};
use splashboard::fetcher::git::recent_commits::{
    self, parse_limit, CommitInfo, GitRecentCommits, DEFAULT_LIMIT,
};
use splashboard::fetcher::{FetchContext, Safety};
use splashboard::payload::{Body, EntriesData};
use splashboard::render::Shape;
use splashboard::samples;

fn ctx(shape: Option<Shape>, format: Option<&str>) -> FetchContext {
    FetchContext {
        shape,
        format: format.map(str::to_string),
        ..FetchContext::default()
    }
}

fn tag(name: &str, hash: &str, date: &str, time: i64) -> TagInfo {
    TagInfo {
        name: name.into(),
        short_hash: hash.into(),
        iso_date: date.into(),
        time,
    }
}

#[test]
fn latest_tag_fetcher_contract_and_samples_cover_supported_shapes() {
    let fetcher = GitLatestTag;
    let text_key = fetcher.cache_key(&ctx(Some(Shape::Text), None), "");
    let entries_key = fetcher.cache_key(&ctx(Some(Shape::Entries), None), "");

    assert_eq!(fetcher.name(), "git_latest_tag");
    assert_eq!(fetcher.safety(), Safety::Safe);
    assert!(fetcher.description().contains("Most recent git tag"));
    assert_eq!(fetcher.shapes(), vec![Shape::Text, Shape::Entries]);
    assert_eq!(fetcher.default_shape(), Shape::Text);
    assert!(text_key.starts_with("git_latest_tag-"));
    assert_ne!(text_key, entries_key);
    assert_eq!(
        fetcher.sample_body(Shape::Text),
        Some(samples::text("v1.2.3"))
    );
    assert_eq!(
        fetcher.sample_body(Shape::Entries),
        Some(samples::entries(&[
            ("tag", "v1.2.3"),
            ("commit", "a1b2c3d"),
            ("date", "2026-04-14"),
        ]))
    );
    assert!(fetcher.sample_body(Shape::Badge).is_none());
}

#[test]
fn returns_empty_text_when_no_tags() {
    match latest_tag::render_body(None, Shape::Text) {
        Body::Text(d) => assert!(d.value.is_empty()),
        _ => panic!(),
    }
}

#[test]
fn text_shape_emits_tag_name() {
    let t = tag("v0.1.0", "a1b2c3d", "2026-04-14", 1_776_000_000);
    match latest_tag::render_body(Some(&t), Shape::Text) {
        Body::Text(d) => assert_eq!(d.value, "v0.1.0"),
        _ => panic!(),
    }
}

#[test]
fn entries_shape_has_tag_commit_date() {
    let t = tag("v1.2.3", "a1b2c3d", "2026-04-14", 1_776_000_000);
    match latest_tag::render_body(Some(&t), Shape::Entries) {
        Body::Entries(d) => {
            let keys: Vec<_> = d.items.iter().map(|e| e.key.as_str()).collect();
            assert_eq!(keys, ["tag", "commit", "date"]);
            assert_eq!(d.items[0].value.as_deref(), Some("v1.2.3"));
            assert_eq!(d.items[1].value.as_deref().unwrap().len(), 7);
            assert!(d.items[2].value.as_deref().unwrap().starts_with("20"));
        }
        _ => panic!(),
    }
}

#[test]
fn latest_tag_prefers_newest_commit_time() {
    let tags = vec![
        tag("c-oldest", "1111111", "2026-01-01", 1_767_225_600),
        tag("b-older", "2222222", "2026-01-02", 1_767_312_000),
        tag("a-newest", "3333333", "2026-01-03", 1_767_398_400),
    ];
    let best = latest_tag(&tags).map(|i| &tags[i]);
    let body = latest_tag::render_body(best, Shape::Entries);
    assert!(matches!(
        body,
        Body::Entries(EntriesData { items })
            if items[0].value.as_deref() == Some("a-newest")
                && items[2].value.as_deref() == Some("2026-01-03")
    ));
}

#[test]
fn latest_tag_keeps_the_first_of_equal_times() {
    let tags = vec![tag("first", "1", "d", 5), tag("second", "2", "d", 5)];
    assert_eq!(latest_tag(&tags), Some(0));
    assert_eq!(latest_tag(&Vec::new()), None);
}

#[test]
fn recent_commits_fetcher_contract_and_samples_cover_supported_shapes() {
    let fetcher = GitRecentCommits;
    let timeline_key = fetcher.cache_key(&ctx(Some(Shape::Timeline), Some("2")), "");
    let text_key = fetcher.cache_key(&ctx(Some(Shape::TextBlock), Some("2")), "");
    let default_key = fetcher.cache_key(&ctx(None, None), "");

    assert_eq!(fetcher.name(), "git_recent_commits");
    assert_eq!(fetcher.safety(), Safety::Safe);
    assert!(fetcher.description().contains("Newest commits on HEAD"));
    assert_eq!(fetcher.shapes(), vec![Shape::Timeline, Shape::TextBlock]);
    assert_eq!(fetcher.default_shape(), Shape::Timeline);
    assert!(timeline_key.starts_with("git_recent_commits-"));
    assert_ne!(timeline_key, text_key);
    assert_ne!(timeline_key, default_key);
    assert_eq!(
        fetcher.sample_body(Shape::Timeline),
        Some(samples::timeline(&[
            (1_700_000_000, "feat(render): add heatmap", Some("a1b2c3d")),
            (1_699_990_000, "fix(fetcher): tz fallback", Some("d4e5f6a")),
            (1_699_900_000, "chore: bump ratatui", Some("e7f8a9b")),
        ]))
    );
    assert_eq!(
        fetcher.sample_body(Shape::TextBlock),
        Some(samples::text_block(&[
            "a1b2c3d feat(render): add heatmap",
            "d4e5f6a fix(fetcher): tz fallback",
            "e7f8a9b chore: bump ratatui",
        ]))
    );
    assert!(fetcher.sample_body(Shape::Badge).is_none());
}

#[test]
fn timeline_shape_emits_events_with_short_hash_detail() {
    let commits = vec![CommitInfo {
        short_hash: "a1b2c3d".into(),
        summary: "x".into(),
        timestamp: 1_700_000_000,
    }];
    let body = recent_commits::render_body(&commits, Shape::Timeline);
    assert!(matches!(body, Body::Timeline(_)));
    if let Body::Timeline(d) = body {
        assert_eq!(d.events.len(), 1);
        assert_eq!(d.events[0].title, "x");
        assert!(d.events[0].detail.as_deref().unwrap().len() >= 7);
    }
}

#[test]
fn text_block_shape_prefixes_short_hash() {
    let commits = vec![CommitInfo {
        short_hash: "a1b2c3d".into(),
        summary: "hello".into(),
        timestamp: 1_700_000_000,
    }];
    let body = recent_commits::render_body(&commits, Shape::TextBlock);
    assert!(matches!(body, Body::TextBlock(_)));
    if let Body::TextBlock(d) = body {
        assert_eq!(d.lines.len(), 1);
        assert!(d.lines[0].ends_with(" hello"));
    }
}

#[test]
fn parse_limit_default() {
    assert_eq!(parse_limit(None), DEFAULT_LIMIT);
    assert_eq!(parse_limit(Some("")), DEFAULT_LIMIT);
    assert_eq!(parse_limit(Some("abc")), DEFAULT_LIMIT);
    assert_eq!(parse_limit(Some("0")), DEFAULT_LIMIT);
}

#[test]
fn parse_limit_parses_number() {
    assert_eq!(parse_limit(Some("3")), 3);
    assert_eq!(parse_limit(Some(" 7 ")), 7);
}
