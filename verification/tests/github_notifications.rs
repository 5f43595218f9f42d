use splashboard::fetcher::github::notifications::{
    notifications_badge, render_body, short_repo, subject_html_url, GithubNotifications,
    Notification, Options, Repo, Subject,
};
use splashboard::fetcher::Safety;
use splashboard::payload::{Body, Status};
use splashboard::render::Shape;

const BADGE_PAGE: u32 = 50;

fn sample() -> Notification {
    Notification {
        reason: "review_requested".into(),
        updated_at: "2026-04-22T10:15:30Z".into(),
        subject: Subject {
            title: "feat: heatmap".into(),
            url: Some("https://api.github.com/repos/unhappychoice/splashboard/pulls/1".into()),
        },
        repository: Repo {
            full_name: "unhappychoice/splashboard".into(),
        },
    }
}

#[test]
fn notifications_options_default_to_none() {
    assert!(Options::default().limit.is_none());
    assert!(Options::default().all.is_none());
}

#[test]
fn notifications_fetcher_metadata_and_samples_cover_supported_shapes() {
    let fetcher = GithubNotifications;
    assert_eq!(fetcher.name(), "github_notifications");
    assert_eq!(fetcher.safety(), Safety::Safe);
    assert!(fetcher.description().contains("notification inbox"));
    assert_eq!(
        fetcher.shapes(),
        vec![Shape::LinkedTextBlock, Shape::TextBlock, Shape::Entries, Shape::Timeline, Shape::Badge]
    );
    assert_eq!(fetcher.default_shape(), Shape::LinkedTextBlock);
    assert_eq!(fetcher.option_schemas().len(), 2);
    assert_eq!(fetcher.option_schemas()[0].name, "limit");
    assert_eq!(fetcher.option_schemas()[1].name, "all");

    let Some(Body::LinkedTextBlock(linked)) = fetcher.sample_body(Shape::LinkedTextBlock)
    else {
        panic!("expected linked text block sample");
    };
    assert_eq!(
        linked.items[0].url.as_deref(),
        Some("https://github.com/unhappychoice/splashboard/pull/12")
    );

    let Some(Body::TextBlock(text)) = fetcher.sample_body(Shape::TextBlock) else {
        panic!("expected text block sample");
    };
    assert_eq!(text.lines[1], "ratatui mention: rfc: themes");

    let Some(Body::Entries(entries)) = fetcher.sample_body(Shape::Entries) else {
        panic!("expected entries sample");
    };
    assert_eq!(entries.items[0].key, "splashboard");
    assert_eq!(
        entries.items[1].value.as_deref(),
        Some("mention: rfc: themes")
    );

    let Some(Body::Timeline(timeline)) = fetcher.sample_body(Shape::Timeline) else {
        panic!("expected timeline sample");
    };
    assert_eq!(timeline.events[0].title, "splashboard");
    assert_eq!(
        timeline.events[1].detail.as_deref(),
        Some("mention: rfc: themes")
    );

    let Some(Body::Badge(badge)) = fetcher.sample_body(Shape::Badge) else {
        panic!("expected badge sample");
    };
    assert_eq!(badge.status, Status::Warn);
    assert_eq!(badge.label, "2 notifications");
    assert!(fetcher.sample_body(Shape::Text).is_none());
}

#[test]
fn short_repo_drops_owner() {
    assert_eq!(short_repo("unhappychoice/splashboard"), "splashboard");
    assert_eq!(short_repo("singleton"), "singleton");
}

#[test]
fn badge_body_collapses_to_count_pill() {
    let body = render_body(&[sample(), sample()], Shape::Badge, false);
    let Body::Badge(b) = body else {
        panic!("expected badge")
    };
    assert_eq!(b.status, Status::Warn);
    assert_eq!(b.label, "2 notifications");
    let body = render_body(&[], Shape::Badge, false);
    let Body::Badge(b) = body else {
        panic!("expected badge")
    };
    assert_eq!(b.status, Status::Okay);
    assert_eq!(b.label, "inbox zero");
}

#[test]
fn badge_label_marks_capped_count_with_plus() {
    let items: Vec<Notification> = (0..BADGE_PAGE).map(|_| sample()).collect();
    let body = render_body(&items, Shape::Badge, true);
    let Body::Badge(b) = body else {
        panic!("expected badge")
    };
    assert_eq!(b.label, format!("{BADGE_PAGE}+ notifications"));
}

#[test]
fn badge_label_keeps_singular_form() {
    let badge = notifications_badge(1, false);
    assert_eq!(badge.status, Status::Warn);
    assert_eq!(badge.label, "1 notification");
}

#[test]
fn text_block_body_composes_repo_reason_title() {
    let body = render_body(&[sample()], Shape::TextBlock, false);
    let Body::TextBlock(l) = body else {
        panic!("expected text_block");
    };
    assert!(l.lines[0].contains("unhappychoice/splashboard"));
    assert!(l.lines[0].contains("review_requested"));
    assert!(l.lines[0].contains("feat: heatmap"));
}

#[test]
fn linked_body_converts_subject_api_url_to_html_url() {
    let body = render_body(&[sample()], Shape::LinkedTextBlock, false);
    let Body::LinkedTextBlock(linked) = body else {
        panic!("expected linked text block");
    };
    assert_eq!(
        linked.items[0].url.as_deref(),
        Some("https://github.com/unhappychoice/splashboard/pulls/1")
    );
    assert!(linked.items[0].text.contains("review_requested"));
}

#[test]
fn linked_body_leaves_rows_unlinked_when_subject_url_cannot_be_mapped() {
    let mut missing = sample();
    missing.subject.url = None;
    assert!(subject_html_url(&missing).is_none());

    let mut wrong_prefix = sample();
    wrong_prefix.subject.url = Some("https://api.github.com/user".into());
    assert!(subject_html_url(&wrong_prefix).is_none());
}

#[test]
fn entries_body_shortens_repo_name_and_keeps_reason() {
    let body = render_body(&[sample()], Shape::Entries, false);
    let Body::Entries(entries) = body else {
        panic!("expected entries");
    };
    assert_eq!(entries.items[0].key, "splashboard");
    assert_eq!(
        entries.items[0].value.as_deref(),
        Some("review_requested: feat: heatmap")
    );
}

#[test]
fn timeline_body_uses_short_repo_and_parsed_timestamp() {
    let body = render_body(&[sample()], Shape::Timeline, false);
    let Body::Timeline(timeline) = body else {
        panic!("expected timeline");
    };
    assert_eq!(timeline.events[0].title, "splashboard");
    assert_eq!(
        timeline.events[0].detail.as_deref(),
        Some("review_requested: feat: heatmap")
    );
    assert!(timeline.events[0].timestamp > 0);
}

