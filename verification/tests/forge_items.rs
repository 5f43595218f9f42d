use splashboard::fetcher::forge_items::{
    dispatch_sample, escape_markdown_inline, list_shapes, render_count_badge, render_forge_rows,
    ForgeRow,
};
use splashboard::payload::{Body, Status};
use splashboard::render::Shape;

fn rows() -> Vec<ForgeRow> {
    vec![
        ForgeRow {
            label: "splashboard#54".into(),
            title: "feat(docs): widget catalogue".into(),
            url: Some("https://github.com/u/splashboard/pull/54".into()),
            avatar_url: Some("https://avatars.example/u54.png".into()),
            avatar_path: Some("/tmp/u54.png".into()),
            updated_at_unix: 1_774_000_000,
            activity_count: 7,
        },
        ForgeRow {
            label: "splashboard#51".into(),
            title: "feat(fetcher): split clock options".into(),
            url: None,
            avatar_url: None,
            avatar_path: None,
            updated_at_unix: 1_773_800_000,
            activity_count: 2,
        },
    ]
}

#[test]
fn text_picks_the_first_row_headline() {
    let Body::Text(t) = render_forge_rows(&rows(), Shape::Text) else {
        panic!("expected text");
    };
    assert!(t.value.starts_with("splashboard#54"));
}

#[test]
fn text_block_emits_one_line_per_row() {
    let Body::TextBlock(b) = render_forge_rows(&rows(), Shape::TextBlock) else {
        panic!("expected text block");
    };
    assert_eq!(b.lines.len(), 2);
    assert!(b.lines[1].contains("split clock options"));
}

#[test]
fn markdown_links_only_when_url_is_present() {
    let Body::MarkdownTextBlock(b) = render_forge_rows(&rows(), Shape::MarkdownTextBlock) else {
        panic!("expected markdown");
    };
    assert!(b.value.contains("[feat(docs): widget catalogue](https://github.com"));
    assert!(b.value.contains("- **splashboard#51** feat(fetcher)"));
}

#[test]
fn markdown_escapes_inline_metacharacters_in_label_and_title() {
    let rows = vec![ForgeRow {
        label: "splashboard#99".into(),
        title: "fix ](oops) and *_wip_*".into(),
        url: Some("https://example.com/path?x=1)y".into()),
        avatar_url: None,
        avatar_path: None,
        updated_at_unix: 1_700_000_000,
        activity_count: 0,
    }];
    let Body::MarkdownTextBlock(b) = render_forge_rows(&rows, Shape::MarkdownTextBlock) else {
        panic!("expected markdown");
    };
    assert!(
        b.value.contains("fix \\](oops) and \\*\\_wip\\_\\*"),
        "title not escaped: {}",
        b.value
    );
    assert!(b.value.contains("1%29y"), "url paren not escaped: {}", b.value);
}

#[test]
fn escape_markdown_inline_handles_each_documented_glyph() {
    assert_eq!(
        escape_markdown_inline("a\\b`c*d_e[f]g"),
        "a\\\\b\\`c\\*d\\_e\\[f\\]g"
    );
    assert_eq!(escape_markdown_inline("plain text"), "plain text");
}

#[test]
fn linked_carries_optional_url_through() {
    let Body::LinkedTextBlock(b) = render_forge_rows(&rows(), Shape::LinkedTextBlock) else {
        panic!("expected linked text block");
    };
    assert_eq!(b.items.len(), 2);
    assert!(b.items[0].url.is_some());
    assert!(b.items[1].url.is_none());
}

#[test]
fn image_linked_passes_thumbnail_paths_through() {
    let Body::ImageLinkedList(b) = render_forge_rows(&rows(), Shape::ImageLinkedList) else {
        panic!("expected image linked list");
    };
    assert_eq!(b.items[0].thumbnail_path.as_deref(), Some("/tmp/u54.png"));
    assert!(b.items[1].thumbnail_path.is_none());
}

#[test]
fn entries_maps_label_to_title() {
    let Body::Entries(b) = render_forge_rows(&rows(), Shape::Entries) else {
        panic!("expected entries");
    };
    assert_eq!(b.items[0].key, "splashboard#54");
    assert_eq!(
        b.items[1].value.as_deref(),
        Some("feat(fetcher): split clock options")
    );
}

#[test]
fn bars_carries_activity_count_as_value() {
    let Body::Bars(b) = render_forge_rows(&rows(), Shape::Bars) else {
        panic!("expected bars");
    };
    assert_eq!(b.bars[0].value, 7);
    assert_eq!(b.bars[1].value, 2);
}

#[test]
fn timeline_uses_updated_at_unix() {
    let Body::Timeline(t) = render_forge_rows(&rows(), Shape::Timeline) else {
        panic!("expected timeline");
    };
    assert_eq!(t.events[0].timestamp, 1_774_000_000);
    assert_eq!(
        t.events[0].detail.as_deref(),
        Some("feat(docs): widget catalogue")
    );
}

#[test]
fn unsupported_shape_falls_back_to_text_block() {
    let Body::TextBlock(_) = render_forge_rows(&rows(), Shape::Ratio) else {
        panic!("expected fallback to text block");
    };
}

#[test]
fn count_badge_flips_status_at_zero() {
    let Body::Badge(b) = render_count_badge(0, "open MR", "open MRs") else {
        panic!("expected badge");
    };
    assert_eq!(b.status, Status::Okay);
    assert_eq!(b.label, "0 open MRs ✓");

    let Body::Badge(b) = render_count_badge(1, "open MR", "open MRs") else {
        panic!("expected badge");
    };
    assert_eq!(b.status, Status::Warn);
    assert_eq!(b.label, "1 open MR");

    let Body::Badge(b) = render_count_badge(5, "open MR", "open MRs") else {
        panic!("expected badge");
    };
    assert_eq!(b.label, "5 open MRs");
}

#[test]
fn count_badge_keeps_verb_form_intact_across_counts() {
    let Body::Badge(b) = render_count_badge(1, "to review", "to review") else {
        panic!("expected badge");
    };
    assert_eq!(b.label, "1 to review");
    let Body::Badge(b) = render_count_badge(3, "to review", "to review") else {
        panic!("expected badge");
    };
    assert_eq!(b.label, "3 to review");
}

#[test]
fn list_shapes_covers_the_eight_documented_variants() {
    let shapes = list_shapes();
    assert_eq!(shapes.len(), 9);
    assert_eq!(shapes[0], Shape::LinkedTextBlock);
    assert!(shapes.contains(&Shape::ImageLinkedList));
    assert!(shapes.contains(&Shape::Badge));
}

#[test]
fn dispatch_sample_returns_none_for_unsupported_shapes() {
    let rows = rows();
    assert!(dispatch_sample(&rows, Shape::Ratio, "open PR", "open PRs").is_none());

    let Some(Body::Badge(b)) = dispatch_sample(&rows, Shape::Badge, "open PR", "open PRs") else {
        panic!("expected badge");
    };
    assert_eq!(b.label, "2 open PRs");

    let Some(Body::Entries(e)) = dispatch_sample(&rows, Shape::Entries, "open PR", "open PRs")
    else {
        panic!("expected entries");
    };
    assert_eq!(e.items.len(), 2);
}

#[test]
fn empty_rows_collapse_to_empty_bodies() {
    let Body::Text(t) = render_forge_rows(&[], Shape::Text) else {
        panic!("expected text");
    };
    assert!(t.value.is_empty());

    let Body::TextBlock(b) = render_forge_rows(&[], Shape::TextBlock) else {
        panic!("expected text block");
    };
    assert!(b.lines.is_empty());

    let Body::LinkedTextBlock(b) = render_forge_rows(&[], Shape::LinkedTextBlock) else {
        panic!("expected linked text block");
    };
    assert!(b.items.is_empty());
}
