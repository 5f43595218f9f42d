use splashboard::fetcher::github::items::{render_items, IssueItem};
use splashboard::fetcher::github::repo_issues::{select_issues, RepoIssueItem};
use splashboard::fetcher::github::recent_releases::Release;
use splashboard::fetcher::forge_items::list_shapes;
use splashboard::fetcher::Safety;
use splashboard::payload::Body;
use splashboard::render::Shape;

#[test]
fn my_prs_options_default_to_none() {
    let opts = splashboard::fetcher::github::my_prs::Options::default();
    assert!(opts.limit.is_none());
}

#[test]
fn my_prs_fetcher_metadata_and_samples_cover_supported_shapes() {
    let fetcher = splashboard::fetcher::github::my_prs::GithubMyPrs;
    assert_eq!(fetcher.name(), "github_my_prs");
    assert_eq!(fetcher.safety(), Safety::Safe);
    assert!(fetcher.description().contains("authenticated user"));
    assert_eq!(fetcher.shapes(), vec![Shape::LinkedTextBlock, Shape::TextBlock, Shape::Entries, Shape::Timeline]);
    assert_eq!(fetcher.option_schemas().len(), 1);
    assert_eq!(fetcher.option_schemas()[0].name, "limit");
    assert_eq!(fetcher.option_schemas()[0].default, Some("10"));
    assert_eq!(fetcher.default_shape(), Shape::LinkedTextBlock);

    let Some(Body::LinkedTextBlock(linked)) = fetcher.sample_body(Shape::LinkedTextBlock)
    else {
        panic!("expected linked text block sample");
    };
    assert_eq!(
        linked.items[0].text,
        "unhappychoice/splashboard#54 feat(docs): generate widget catalogue"
    );
    assert_eq!(
        linked.items[1].url.as_deref(),
        Some("https://github.com/unhappychoice/splashboard/pull/51")
    );

    let Some(Body::TextBlock(text)) = fetcher.sample_body(Shape::TextBlock) else {
        panic!("expected text block sample");
    };
    assert_eq!(
        text.lines[1],
        "unhappychoice/splashboard#51 feat(fetcher): split clock options"
    );

    let Some(Body::Entries(entries)) = fetcher.sample_body(Shape::Entries) else {
        panic!("expected entries sample");
    };
    assert_eq!(entries.items[0].key, "splashboard #54");
    assert_eq!(
        entries.items[1].value.as_deref(),
        Some("feat(fetcher): split clock options")
    );

    let Some(Body::Timeline(timeline)) = fetcher.sample_body(Shape::Timeline) else {
        panic!("expected timeline sample");
    };
    assert_eq!(timeline.events[0].title, "splashboard#54");
    assert_eq!(
        timeline.events[1].detail.as_deref(),
        Some("feat(fetcher): split clock options")
    );
    assert!(fetcher.sample_body(Shape::Text).is_none());
}

#[test]
fn assigned_issues_options_default_to_none() {
    assert!(splashboard::fetcher::github::assigned_issues::Options::default().limit.is_none());
}

#[test]
fn assigned_issues_fetcher_metadata_and_samples_cover_supported_shapes() {
    let fetcher = splashboard::fetcher::github::assigned_issues::GithubAssignedIssues;
    assert_eq!(fetcher.name(), "github_assigned_issues");
    assert_eq!(fetcher.safety(), Safety::Safe);
    assert!(
        fetcher
            .description()
            .contains("assigned to the authenticated user")
    );
    assert_eq!(fetcher.shapes(), vec![Shape::LinkedTextBlock, Shape::TextBlock, Shape::Entries, Shape::Timeline]);
    assert_eq!(fetcher.default_shape(), Shape::LinkedTextBlock);
    assert_eq!(fetcher.option_schemas().len(), 1);
    assert_eq!(fetcher.option_schemas()[0].name, "limit");
    assert_eq!(fetcher.option_schemas()[0].default, Some("10"));

    let Some(Body::LinkedTextBlock(linked)) = fetcher.sample_body(Shape::LinkedTextBlock)
    else {
        panic!("expected linked text block sample");
    };
    assert_eq!(
        linked.items[0].text,
        "unhappychoice/splashboard#41 meta: widget catalog & roadmap"
    );
    assert_eq!(
        linked.items[1].url.as_deref(),
        Some("https://github.com/unhappychoice/splashboard/issues/17")
    );

    let Some(Body::TextBlock(text)) = fetcher.sample_body(Shape::TextBlock) else {
        panic!("expected text block sample");
    };
    assert_eq!(text.lines[1], "unhappychoice/splashboard#17 theme system");

    let Some(Body::Entries(entries)) = fetcher.sample_body(Shape::Entries) else {
        panic!("expected entries sample");
    };
    assert_eq!(entries.items[0].key, "splashboard #41");
    assert_eq!(entries.items[1].value.as_deref(), Some("theme system"));

    let Some(Body::Timeline(timeline)) = fetcher.sample_body(Shape::Timeline) else {
        panic!("expected timeline sample");
    };
    assert_eq!(timeline.events[0].title, "splashboard#41");
    assert_eq!(timeline.events[1].detail.as_deref(), Some("theme system"));
    assert!(fetcher.sample_body(Shape::Text).is_none());
}

#[test]
fn repo_prs_options_default_to_none() {
    let opts = splashboard::fetcher::github::repo_prs::Options::default();
    assert!(opts.repo.is_none());
    assert!(opts.limit.is_none());
}

#[test]
fn repo_prs_fetcher_metadata_and_samples_cover_supported_shapes() {
    let fetcher = splashboard::fetcher::github::repo_prs::GithubRepoPrs;
    assert_eq!(fetcher.name(), "github_repo_prs");
    assert_eq!(fetcher.safety(), Safety::Safe);
    assert!(fetcher.description().contains("target repo"));
    assert_eq!(fetcher.shapes(), list_shapes());
    assert_eq!(fetcher.option_schemas().len(), 2);
    assert_eq!(fetcher.option_schemas()[0].name, "repo");
    assert_eq!(fetcher.option_schemas()[1].name, "limit");

    for shape in list_shapes().iter() {
        assert!(
            fetcher.sample_body(*shape).is_some(),
            "missing sample for {shape:?}"
        );
    }

    let Some(Body::LinkedTextBlock(linked)) = fetcher.sample_body(Shape::LinkedTextBlock)
    else {
        panic!("expected linked text block sample");
    };
    assert_eq!(
        linked.items[0].text,
        "#54 feat(docs): generate widget catalogue"
    );
    assert_eq!(
        linked.items[1].url.as_deref(),
        Some("https://github.com/unhappychoice/splashboard/pull/51")
    );

    let Some(Body::Entries(entries)) = fetcher.sample_body(Shape::Entries) else {
        panic!("expected entries sample");
    };
    assert_eq!(entries.items[0].key, "#54");
}

#[test]
fn repo_issues_options_default_to_none() {
    let opts = splashboard::fetcher::github::repo_issues::Options::default();
    assert!(opts.repo.is_none());
    assert!(opts.limit.is_none());
}

#[test]
fn repo_issues_fetcher_metadata_and_samples_cover_supported_shapes() {
    let fetcher = splashboard::fetcher::github::repo_issues::GithubRepoIssues;
    assert_eq!(fetcher.name(), "github_repo_issues");
    assert_eq!(fetcher.safety(), Safety::Safe);
    assert!(fetcher.description().contains("pull requests filtered out"));
    assert_eq!(fetcher.shapes(), vec![Shape::LinkedTextBlock, Shape::TextBlock, Shape::Entries, Shape::Timeline]);
    assert_eq!(fetcher.option_schemas().len(), 2);
    assert_eq!(fetcher.option_schemas()[0].name, "repo");
    assert_eq!(fetcher.option_schemas()[1].name, "limit");

    let Some(Body::LinkedTextBlock(linked)) = fetcher.sample_body(Shape::LinkedTextBlock)
    else {
        panic!("expected linked text block sample");
    };
    assert_eq!(linked.items[0].text, "#41 meta: widget catalog & roadmap");
    assert_eq!(
        linked.items[1].url.as_deref(),
        Some("https://github.com/unhappychoice/splashboard/issues/17")
    );

    let Some(Body::TextBlock(text)) = fetcher.sample_body(Shape::TextBlock) else {
        panic!("expected text block sample");
    };
    assert_eq!(text.lines[1], "#17 theme system");

    let Some(Body::Entries(entries)) = fetcher.sample_body(Shape::Entries) else {
        panic!("expected entries sample");
    };
    assert_eq!(entries.items[0].key, "#41");
    assert_eq!(entries.items[1].value.as_deref(), Some("theme system"));

    let Some(Body::Timeline(timeline)) = fetcher.sample_body(Shape::Timeline) else {
        panic!("expected timeline sample");
    };
    assert_eq!(timeline.events[0].title, "#41");
    assert_eq!(timeline.events[1].detail.as_deref(), Some("theme system"));
    assert!(fetcher.sample_body(Shape::Text).is_none());
}

#[test]
fn good_first_issues_options_default_to_none() {
    let opts = splashboard::fetcher::github::good_first_issues::Options::default();
    assert!(opts.repo.is_none());
    assert!(opts.limit.is_none());
    assert!(opts.label.is_none());
}

#[test]
fn good_first_issues_fetcher_metadata_and_samples_cover_supported_shapes() {
    let fetcher = splashboard::fetcher::github::good_first_issues::GithubGoodFirstIssues;
    assert_eq!(fetcher.name(), "github_good_first_issues");
    assert_eq!(fetcher.safety(), Safety::Safe);
    assert!(fetcher.description().contains("good-first-issue"));
    assert_eq!(fetcher.shapes(), vec![Shape::LinkedTextBlock, Shape::TextBlock, Shape::Entries, Shape::Timeline]);
    assert_eq!(fetcher.option_schemas().len(), 3);
    assert_eq!(fetcher.option_schemas()[0].name, "repo");
    assert_eq!(fetcher.option_schemas()[1].name, "limit");
    assert_eq!(fetcher.option_schemas()[2].name, "label");

    let Some(Body::LinkedTextBlock(linked)) = fetcher.sample_body(Shape::LinkedTextBlock)
    else {
        panic!("expected linked text block sample");
    };
    assert_eq!(
        linked.items[0].text,
        "ratatui/ratatui#999 improve docs for Paragraph"
    );
    assert_eq!(
        linked.items[1].url.as_deref(),
        Some("https://github.com/tokio-rs/console/issues/123")
    );

    let Some(Body::TextBlock(text)) = fetcher.sample_body(Shape::TextBlock) else {
        panic!("expected text block sample");
    };
    assert_eq!(text.lines[1], "tokio-rs/console#123 add quickstart section");

    let Some(Body::Entries(entries)) = fetcher.sample_body(Shape::Entries) else {
        panic!("expected entries sample");
    };
    assert_eq!(entries.items[0].key, "ratatui #999");
    assert_eq!(
        entries.items[1].value.as_deref(),
        Some("add quickstart section")
    );

    let Some(Body::Timeline(timeline)) = fetcher.sample_body(Shape::Timeline) else {
        panic!("expected timeline sample");
    };
    assert_eq!(timeline.events[0].title, "ratatui/ratatui#999");
    assert_eq!(
        timeline.events[1].detail.as_deref(),
        Some("add quickstart section")
    );
    assert!(fetcher.sample_body(Shape::Text).is_none());
}

#[test]
fn recent_releases_options_default_to_none() {
    let opts = splashboard::fetcher::github::recent_releases::Options::default();
    assert!(opts.repo.is_none());
    assert!(opts.limit.is_none());
}

#[test]
fn recent_releases_fetcher_metadata_and_samples_cover_supported_shapes() {
    let fetcher = splashboard::fetcher::github::recent_releases::GithubRecentReleases;
    assert_eq!(fetcher.name(), "github_recent_releases");
    assert_eq!(fetcher.safety(), Safety::Safe);
    assert!(fetcher.description().contains("Latest published releases"));
    assert_eq!(fetcher.shapes(), vec![Shape::LinkedTextBlock, Shape::TextBlock, Shape::Entries, Shape::Timeline]);
    assert_eq!(fetcher.option_schemas().len(), 2);
    assert_eq!(fetcher.option_schemas()[0].name, "repo");
    assert_eq!(fetcher.option_schemas()[1].name, "limit");

    let Some(Body::LinkedTextBlock(linked)) = fetcher.sample_body(Shape::LinkedTextBlock)
    else {
        panic!("expected linked text block sample");
    };
    assert_eq!(linked.items.len(), 2);
    assert_eq!(linked.items[0].text, "v0.3.0  2026-04-10");

    let Some(Body::TextBlock(text)) = fetcher.sample_body(Shape::TextBlock) else {
        panic!("expected text block sample");
    };
    assert_eq!(text.lines[1], "v0.2.1  2026-03-05");

    let Some(Body::Entries(entries)) = fetcher.sample_body(Shape::Entries) else {
        panic!("expected entries sample");
    };
    assert_eq!(entries.items[0].key, "v0.3.0");

    let Some(Body::Timeline(timeline)) = fetcher.sample_body(Shape::Timeline) else {
        panic!("expected timeline sample");
    };
    assert_eq!(timeline.events[0].detail.as_deref(), Some("latest"));
    assert!(fetcher.sample_body(Shape::Text).is_none());
}

#[test]
fn entries_body_uses_tag_name_and_iso_date() {
    let body = splashboard::fetcher::github::recent_releases::render_body(&releases(), Shape::Entries);
    let Body::Entries(entries) = body else {
        panic!("expected entries");
    };
    assert_eq!(entries.items[0].key, "v1.2.3");
    assert_eq!(entries.items[0].value.as_deref(), Some("2026-04-10"));
    assert_eq!(entries.items[1].value.as_deref(), Some(""));
}

#[test]
fn linked_text_block_uses_release_date_and_optional_link() {
    let body = splashboard::fetcher::github::recent_releases::render_body(&releases(), Shape::LinkedTextBlock);
    let Body::LinkedTextBlock(linked) = body else {
        panic!("expected linked text block");
    };
    assert_eq!(linked.items[0].text, "v1.2.3  2026-04-10");
    assert_eq!(
        linked.items[0].url.as_deref(),
        Some("https://github.com/foo/bar/releases/tag/v1.2.3")
    );
    assert_eq!(linked.items[1].text, "v1.2.2  ");
    assert!(linked.items[1].url.is_none());
}

#[test]
fn text_block_body_falls_back_to_plain_lines() {
    let body = splashboard::fetcher::github::recent_releases::render_body(&releases(), Shape::TextBlock);
    let Body::TextBlock(text) = body else {
        panic!("expected text block");
    };
    assert_eq!(
        text.lines,
        vec!["v1.2.3  2026-04-10".to_string(), "v1.2.2  ".to_string()]
    );
}

fn releases() -> Vec<Release> {
    vec![
        Release {
            tag_name: "v1.2.3".into(),
            name: Some("latest".into()),
            published_at: Some("2026-04-10T12:34:56Z".into()),
            html_url: "https://github.com/foo/bar/releases/tag/v1.2.3".into(),
        },
        Release {
            tag_name: "v1.2.2".into(),
            name: None,
            published_at: None,
            html_url: String::new(),
        },
    ]
}

#[test]
fn timeline_body_preserves_optional_name_and_missing_timestamp() {
    use_timeline();
}

fn use_timeline() {
    let body = splashboard::fetcher::github::recent_releases::render_body(&releases(), Shape::Timeline);
    let Body::Timeline(timeline) = body else {
        panic!("expected timeline");
    };
    assert_eq!(
        timeline.events[0].timestamp,
        splashboard::fetcher::github::common::parse_timestamp("2026-04-10T12:34:56Z")
    );
    assert_eq!(timeline.events[0].detail.as_deref(), Some("latest"));
    assert_eq!(timeline.events[1].timestamp, 0);
    assert!(timeline.events[1].detail.is_none());
}

#[test]
fn repo_issue_items_filter_out_pull_requests_before_rendering() {
    let issue = |title: &str, number: u64, updated: &str, url: &str| IssueItem {
        title: title.into(),
        number,
        repository_url: String::new(),
        updated_at: updated.into(),
        html_url: url.into(),
        state: "open".into(),
        comments: 0,
        user: None,
    };
    let items = vec![
        RepoIssueItem {
            is_pull_request: false,
            inner: issue(
                "Keep real issues",
                41,
                "2026-04-22T10:15:30Z",
                "https://github.com/foo/bar/issues/41",
            ),
        },
        RepoIssueItem {
            is_pull_request: true,
            inner: issue(
                "Drop pull requests",
                42,
                "2026-04-22T11:15:30Z",
                "https://github.com/foo/bar/pull/42",
            ),
        },
    ];
    let issues = select_issues(&items, items.len());
    let Body::TextBlock(text) = render_items(&issues, Shape::TextBlock, false) else {
        panic!("expected text block");
    };
    assert_eq!(text.lines, vec!["#41 Keep real issues"]);
}
