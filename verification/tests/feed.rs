use splashboard::fetcher::feed::{
    dated_time, parse_feed,
    check_body_size, decode_html_entities, first_inline_image_src, image_linked_body, link_for,
    render_body, subtitle_for, thumbnail_url_for, title_or_placeholder, FeedItem, FeedLink,
};
use splashboard::fetcher::FetchError;
use splashboard::payload::Body;
use splashboard::render::Shape;

/// 2026-04-26 12:00:00 UTC.
const APR_26_NOON: i64 = 1_777_204_800;

fn item() -> FeedItem {
    FeedItem {
        title: None,
        links: vec![],
        published: None,
        updated: None,
        date_label: String::new(),
        thumbnails: vec![],
        media_urls: vec![],
        content_body: None,
        summary: None,
    }
}

fn link(href: &str, rel: Option<&str>) -> FeedLink {
    FeedLink {
        href: href.into(),
        rel: rel.map(str::to_string),
    }
}

fn entry_with_title_and_link(title: &str, href: &str) -> FeedItem {
    FeedItem {
        title: Some(title.into()),
        links: vec![link(href, None)],
        published: Some(APR_26_NOON),
        date_label: "Apr 26".into(),
        ..item()
    }
}

#[test]
fn render_body_text_uses_first_entry_title_or_empty() {
    let feed = vec![
        entry_with_title_and_link("First", "https://example.com/1"),
        entry_with_title_and_link("Second", "https://example.com/2"),
    ];
    let Body::Text(t) = render_body(&feed, 5, Shape::Text) else {
        panic!("expected text");
    };
    assert_eq!(t.value, "First");

    let Body::Text(t) = render_body(&[], 5, Shape::Text) else {
        panic!("expected text");
    };
    assert!(t.value.is_empty());
}

#[test]
fn render_body_markdown_text_block_wraps_each_entry_with_link_syntax() {
    let feed = vec![
        entry_with_title_and_link("First", "https://example.com/1"),
        entry_with_title_and_link("Second", "https://example.com/2"),
    ];
    let Body::MarkdownTextBlock(md) = render_body(&feed, 5, Shape::MarkdownTextBlock) else {
        panic!("expected markdown text block");
    };
    let lines: Vec<&str> = md.value.lines().collect();
    assert_eq!(lines.len(), 2);
    assert!(lines[0].starts_with("- ["), "got: {}", lines[0]);
    assert!(lines[0].contains("First"));
    assert!(lines[0].contains("https://example.com/1"));
    assert!(lines[0].contains("Apr 26"));
}

#[test]
fn render_body_markdown_drops_link_syntax_when_no_url_and_no_date() {
    let entry = FeedItem {
        title: Some("Bare".into()),
        ..item()
    };
    let Body::MarkdownTextBlock(md) = render_body(&[entry], 5, Shape::MarkdownTextBlock) else {
        panic!("expected markdown text block");
    };
    assert_eq!(md.value, "- Bare");
}

#[test]
fn render_body_entries_emits_title_value_pairs_with_optional_date() {
    let feed = vec![entry_with_title_and_link("First", "https://example.com/1")];
    let Body::Entries(e) = render_body(&feed, 5, Shape::Entries) else {
        panic!("expected entries");
    };
    assert_eq!(e.items.len(), 1);
    assert_eq!(e.items[0].key, "First");
    assert_eq!(e.items[0].value.as_deref(), Some("Apr 26"));
}

#[test]
fn render_body_entries_omits_value_when_date_missing() {
    let mut e = entry_with_title_and_link("First", "https://example.com/1");
    e.published = None;
    e.updated = None;
    e.date_label = String::new();
    let Body::Entries(e) = render_body(&[e], 5, Shape::Entries) else {
        panic!("expected entries");
    };
    assert!(e.items[0].value.is_none());
}

#[test]
fn render_body_timeline_carries_link_host_and_timestamp() {
    let feed = vec![entry_with_title_and_link(
        "First",
        "https://blog.example.com/post",
    )];
    let Body::Timeline(t) = render_body(&feed, 5, Shape::Timeline) else {
        panic!("expected timeline");
    };
    assert_eq!(t.events.len(), 1);
    assert_eq!(t.events[0].title, "First");
    assert_eq!(t.events[0].detail.as_deref(), Some("blog.example.com"));
    assert_eq!(t.events[0].timestamp, APR_26_NOON);
}

#[test]
fn render_body_timeline_falls_back_to_zero_timestamp_and_none_detail() {
    let entry = FeedItem {
        title: Some("Bare".into()),
        ..item()
    };
    let Body::Timeline(t) = render_body(&[entry], 5, Shape::Timeline) else {
        panic!("expected timeline");
    };
    assert_eq!(t.events[0].timestamp, 0);
    assert!(t.events[0].detail.is_none());
}

#[test]
fn link_for_prefers_alternate_over_self() {
    let entry = FeedItem {
        links: vec![
            link("https://example.com/feed.xml", Some("self")),
            link("https://example.com/post", Some("alternate")),
        ],
        ..item()
    };
    assert_eq!(
        link_for(&entry).as_deref(),
        Some("https://example.com/post")
    );
}

#[test]
fn link_for_falls_back_to_any_link_when_no_alternate_or_default_rel() {
    let entry = FeedItem {
        links: vec![link("https://example.com/enclosure.mp3", Some("enclosure"))],
        ..item()
    };
    assert_eq!(
        link_for(&entry).as_deref(),
        Some("https://example.com/enclosure.mp3"),
    );
}

#[test]
fn link_for_returns_none_when_links_empty() {
    assert!(link_for(&item()).is_none());
}

#[test]
fn thumbnail_url_falls_back_to_media_content_when_no_thumbnail_set() {
    let entry = FeedItem {
        media_urls: vec!["https://example.com/full.jpg".into()],
        ..item()
    };
    assert_eq!(
        thumbnail_url_for(&entry).as_deref(),
        Some("https://example.com/full.jpg"),
    );
}

#[test]
fn thumbnail_url_falls_back_to_summary_inline_img_when_content_absent() {
    let entry = FeedItem {
        summary: Some(r#"<img src="https://example.com/cover.png"/>"#.into()),
        ..item()
    };
    assert_eq!(
        thumbnail_url_for(&entry).as_deref(),
        Some("https://example.com/cover.png"),
    );
}

#[test]
fn thumbnail_url_skips_empty_media_thumbnail_uri() {
    let entry = FeedItem {
        thumbnails: vec![String::new()],
        content_body: Some(r#"<img src="https://example.com/hero.png">"#.into()),
        ..item()
    };
    assert_eq!(
        thumbnail_url_for(&entry).as_deref(),
        Some("https://example.com/hero.png"),
    );
}

// ---- further cases ----

#[test]
fn titles_collapse_whitespace_and_fall_back_to_a_placeholder() {
    let spaced = FeedItem {
        title: Some("  Big \n  news\t today ".into()),
        ..item()
    };
    assert_eq!(title_or_placeholder(&spaced), "Big news today");
    let blank = FeedItem {
        title: Some("   ".into()),
        ..item()
    };
    assert_eq!(title_or_placeholder(&blank), "(no title)");
    assert_eq!(title_or_placeholder(&item()), "(no title)");
}

#[test]
fn inline_images_decode_entities_and_skip_non_web_sources() {
    let html = r#"<p><img src="data:image/png;base64,xx"><IMG alt="a" SRC='https://example.com/a.png?x=1&amp;y=2'></p>"#;
    assert_eq!(
        first_inline_image_src(html).as_deref(),
        Some("https://example.com/a.png?x=1&y=2")
    );
    assert_eq!(first_inline_image_src("<p>no images</p>"), None);
    assert_eq!(
        decode_html_entities("a&amp;b&#x2F;c&#x3D;d&quot;e&#39;f"),
        "a&b/c=d\"e'f"
    );
}

#[test]
fn subtitle_joins_date_and_host() {
    let e = entry_with_title_and_link("T", "https://news.example.org/a");
    assert_eq!(subtitle_for(&e).as_deref(), Some("Apr 26 · news.example.org"));
    let no_date = FeedItem {
        date_label: String::new(),
        ..e.clone()
    };
    assert_eq!(subtitle_for(&no_date).as_deref(), Some("news.example.org"));
    assert_eq!(subtitle_for(&item()), None);
}

#[test]
fn count_limits_rows_and_cards_pair_with_thumbnail_paths() {
    let feed = vec![
        entry_with_title_and_link("One", "https://example.com/1"),
        entry_with_title_and_link("Two", "https://example.com/2"),
        entry_with_title_and_link("Three", "https://example.com/3"),
    ];
    let Body::LinkedTextBlock(l) = render_body(&feed, 2, Shape::LinkedTextBlock) else {
        panic!("expected linked text block");
    };
    assert_eq!(l.items.len(), 2);
    assert_eq!(l.items[1].text, "Apr 26  Two");
    let Body::ImageLinkedList(cards) =
        image_linked_body(&feed, 2, &vec![Some("/tmp/a.png".into()), None])
    else {
        panic!("expected cards");
    };
    assert_eq!(cards.items.len(), 2);
    assert_eq!(cards.items[0].thumbnail_path.as_deref(), Some("/tmp/a.png"));
    assert!(cards.items[1].thumbnail_path.is_none());
}

#[test]
fn oversized_bodies_are_refused_with_the_label() {
    assert!(check_body_size(5_242_880, "rss").is_ok());
    let FetchError::Failed(msg) = check_body_size(5_242_881, "rss").unwrap_err();
    assert_eq!(msg, "rss response too large (5242881 bytes, cap 5242880)");
}

#[test]
fn parse_feed_surfaces_label_in_error() {
    let err = parse_feed(b"not a feed", "rss").unwrap_err();
    let FetchError::Failed(msg) = err;
    assert!(msg.contains("rss"), "msg: {msg}");
}

#[test]
fn parse_feed_reads_rss_items() {
    let doc = br#"<?xml version="1.0"?><rss version="2.0"><channel><title>t</title>
<item><title>Hello  world</title><link>https://example.com/a</link>
<pubDate>Tue, 21 Apr 2026 10:00:00 GMT</pubDate></item></channel></rss>"#;
    let items = parse_feed(doc, "rss").unwrap();
    assert_eq!(items.len(), 1);
    assert_eq!(items[0].title.as_deref(), Some("Hello  world"));
    assert_eq!(items[0].links[0].href, "https://example.com/a");
    assert_eq!(items[0].published, Some(1_776_765_600));
    assert!(items[0].date_label.is_empty());
}

#[test]
fn parse_feed_error_carries_the_parser_message() {
    let FetchError::Failed(msg) = parse_feed(b"not a feed", "rss").unwrap_err();
    assert!(msg.starts_with("rss parse: "), "msg: {msg}");
    assert!(msg.len() > "rss parse: ".len(), "msg: {msg}");
}

#[test]
fn dated_time_prefers_publish_then_update() {
    let mut it = item();
    it.published = Some(10);
    it.updated = Some(20);
    assert_eq!(dated_time(&it), Some(10));
    it.published = None;
    assert_eq!(dated_time(&it), Some(20));
    it.updated = None;
    assert_eq!(dated_time(&it), None);
}

#[test]
fn parse_feed_keeps_atom_update_time_and_skips_media_without_url() {
    let doc = br#"<?xml version="1.0" encoding="utf-8"?>
<feed xmlns="http://www.w3.org/2005/Atom" xmlns:media="http://search.yahoo.com/mrss/">
<title>t</title><id>urn:t</id><updated>2026-04-21T10:00:00Z</updated>
<entry><title>A</title><id>urn:a</id><updated>2026-04-21T10:00:00Z</updated>
<link href="https://example.com/a"/>
<media:group><media:content url="https://example.com/v.mp4"/><media:content medium="image"/></media:group>
</entry></feed>"#;
    let items = parse_feed(doc, "atom").unwrap();
    assert_eq!(items.len(), 1);
    assert_eq!(items[0].published, None);
    assert_eq!(items[0].updated, Some(1_776_765_600));
    assert_eq!(dated_time(&items[0]), Some(1_776_765_600));
    assert_eq!(items[0].media_urls, vec!["https://example.com/v.mp4".to_string()]);
}
