use splashboard::fetcher::github::common::{parse_timestamp, slug_from_url, RepoSlug};
use splashboard::fetcher::forge_items::render_forge_rows;
use splashboard::fetcher::github::items::{
    repo_from_url, render_items, to_forge_row, to_forge_rows, GithubUserRef, IssueItem,
};
use splashboard::payload::Body;
use splashboard::render::{shape_name, Shape};

fn issue_item() -> IssueItem {
    IssueItem {
        title: "Fix cached splash mismatch".into(),
        number: 42,
        repository_url: "https://api.github.com/repos/unhappychoice/splashboard".into(),
        updated_at: "2026-04-22T10:15:30Z".into(),
        html_url: "https://github.com/unhappychoice/splashboard/issues/42".into(),
        state: "open".into(),
        comments: 3,
        user: Some(GithubUserRef {
            avatar_url: Some("https://avatars.example/u.png".into()),
        }),
    }
}

#[test]
fn repo_slug_parses_simple_pair() {
    let s = RepoSlug::parse("foo/bar").unwrap();
    assert_eq!(s.owner, "foo");
    assert_eq!(s.name, "bar");
    assert_eq!(s.as_path(), "foo/bar");
}

#[test]
fn repo_slug_rejects_paths_with_extra_segments() {
    assert!(RepoSlug::parse("foo/bar/baz").is_none());
}

#[test]
fn repo_slug_rejects_empty_halves() {
    assert!(RepoSlug::parse("/bar").is_none());
    assert!(RepoSlug::parse("foo/").is_none());
    assert!(RepoSlug::parse("foo").is_none());
}

#[test]
fn slug_from_ssh_url() {
    let s = slug_from_url("git@github.com:unhappychoice/splashboard.git").unwrap();
    assert_eq!(s.owner, "unhappychoice");
    assert_eq!(s.name, "splashboard");
}

#[test]
fn slug_from_https_url_without_dot_git_suffix() {
    let s = slug_from_url("https://github.com/unhappychoice/splashboard").unwrap();
    assert_eq!(s.owner, "unhappychoice");
    assert_eq!(s.name, "splashboard");
}

#[test]
fn slug_from_ssh_scheme_variant() {
    let s = slug_from_url("ssh://git@github.com/a/b.git").unwrap();
    assert_eq!(s.owner, "a");
    assert_eq!(s.name, "b");
}

#[test]
fn slug_rejects_non_github_hosts() {
    assert!(slug_from_url("https://gitlab.com/a/b").is_none());
    assert!(slug_from_url("git@bitbucket.org:a/b.git").is_none());
}

#[test]
fn repo_from_url_extracts_slug() {
    let s = repo_from_url("https://api.github.com/repos/foo/bar").unwrap();
    assert_eq!(s.owner, "foo");
    assert_eq!(s.name, "bar");
}

#[test]
fn repo_from_url_rejects_non_api_host() {
    assert!(repo_from_url("https://github.com/foo/bar").is_none());
}

#[test]
fn repo_from_url_rejects_incomplete_slug() {
    assert!(repo_from_url("https://api.github.com/repos/foo").is_none());
}

#[test]
fn to_forge_row_carries_comments_and_avatar_through() {
    let row = to_forge_row(&issue_item(), true);
    assert_eq!(row.label, "unhappychoice/splashboard#42");
    assert_eq!(row.activity_count, 3);
    assert_eq!(
        row.avatar_url.as_deref(),
        Some("https://avatars.example/u.png")
    );
    assert!(row.avatar_path.is_none());
}

#[test]
fn to_forge_row_without_repo_uses_number_only_label() {
    let row = to_forge_row(&issue_item(), false);
    assert_eq!(row.label, "#42");
}

#[test]
fn to_forge_row_falls_back_to_question_mark_for_bad_repo_url() {
    let mut item = issue_item();
    item.repository_url = "https://api.github.com/not-a-repo".into();
    let row = to_forge_row(&item, true);
    assert_eq!(row.label, "?#42");
}

#[test]
fn to_forge_row_empty_html_url_collapses_to_none() {
    let mut item = issue_item();
    item.html_url.clear();
    let row = to_forge_row(&item, false);
    assert!(row.url.is_none());
}

#[test]
fn render_linked_text_block_uses_short_label_and_optional_url() {
    let mut item = issue_item();
    item.html_url.clear();

    let Body::LinkedTextBlock(data) = render_items(&[item], Shape::LinkedTextBlock, false)
    else {
        panic!("expected linked text block");
    };
    assert_eq!(data.items.len(), 1);
    assert_eq!(data.items[0].text, "#42 Fix cached splash mismatch");
    assert!(data.items[0].url.is_none());
}

#[test]
fn render_timeline_uses_repo_fallback_and_parsed_timestamp() {
    let mut item = issue_item();
    item.repository_url = "https://api.github.com/not-a-repo".into();

    let Body::Timeline(data) = render_items(&[item], Shape::Timeline, true) else {
        panic!("expected timeline");
    };
    assert_eq!(data.events.len(), 1);
    assert_eq!(data.events[0].timestamp, 1_776_852_930);
    assert_eq!(data.events[0].title, "?#42");
    assert_eq!(
        data.events[0].detail.as_deref(),
        Some("Fix cached splash mismatch")
    );
    assert!(data.events[0].status.is_none());
}

#[test]
fn render_text_block_is_the_fallback_shape() {
    let Body::TextBlock(data) = render_items(&[issue_item()], Shape::TextBlock, false) else {
        panic!("expected text block");
    };
    assert_eq!(data.lines, vec!["#42 Fix cached splash mismatch"]);
}

#[test]
fn render_bars_uses_comments_count_as_value() {
    let Body::Bars(data) = render_items(&[issue_item()], Shape::Bars, false) else {
        panic!("expected bars");
    };
    assert_eq!(data.bars[0].value, 3);
}

#[test]
fn render_markdown_links_when_url_present() {
    let Body::MarkdownTextBlock(data) =
        render_items(&[issue_item()], Shape::MarkdownTextBlock, true)
    else {
        panic!("expected markdown");
    };
    assert!(data.value.contains("[Fix cached splash mismatch]"));
}

#[test]
fn render_entries_include_repo_name_and_title() {
    let body = render_items(&[issue_item()], Shape::Entries, true);
    assert_eq!(shape_name(body.shape()), "entries");
    let Body::Entries(data) = body else {
        panic!("expected entries");
    };
    assert_eq!(data.items[0].key, "unhappychoice/splashboard#42");
    assert_eq!(data.items[0].value.as_deref(), Some("Fix cached splash mismatch"));
    assert!(data.items[0].status.is_none());
}

#[test]
fn render_linked_text_block_prefixes_repo_path_and_uses_html_url() {
    let body = render_items(&[issue_item()], Shape::LinkedTextBlock, true);
    assert_eq!(shape_name(body.shape()), "linked_text_block");
    let Body::LinkedTextBlock(data) = body else {
        panic!("expected linked text block");
    };
    assert_eq!(
        data.items[0].text,
        "unhappychoice/splashboard#42 Fix cached splash mismatch"
    );
    assert_eq!(
        data.items[0].url.as_deref(),
        Some("https://github.com/unhappychoice/splashboard/issues/42")
    );
}

#[test]
fn render_entries_without_repo_prefix_use_number_only() {
    let body = render_items(&[issue_item()], Shape::Entries, false);
    assert_eq!(shape_name(body.shape()), "entries");
    let Body::Entries(data) = body else {
        panic!("expected entries");
    };
    assert_eq!(data.items[0].key, "#42");
    assert_eq!(data.items[0].value.as_deref(), Some("Fix cached splash mismatch"));
}

#[test]
fn render_entries_fall_back_to_question_mark_for_bad_repo_url() {
    let mut item = issue_item();
    item.repository_url = "https://api.github.com/not-a-repo".into();
    let body = render_items(&[item], Shape::Entries, true);
    assert_eq!(shape_name(body.shape()), "entries");
    let Body::Entries(data) = body else {
        panic!("expected entries");
    };
    assert_eq!(data.items[0].key, "?#42");
}

#[test]
fn parse_timestamp_reads_rfc3339() {
    let ts = parse_timestamp("2026-04-22T10:15:30Z");
    assert_eq!(ts, 1_776_852_930);
}

#[test]
fn parse_timestamp_falls_back_to_zero_on_garbage() {
    assert_eq!(parse_timestamp("not-a-date"), 0);
}

#[test]
fn slug_parse_and_path_undo_each_other() {
    let slug = RepoSlug::parse("unhappychoice/splashboard").unwrap();
    assert_eq!(slug.as_path(), "unhappychoice/splashboard");
    let again = RepoSlug::parse(&slug.as_path()).unwrap();
    assert_eq!(again.owner, "unhappychoice");
    assert_eq!(again.name, "splashboard");
    assert!(RepoSlug::parse("a/b/c").is_none());
}

#[test]
fn slug_from_url_reads_all_three_prefixes_with_and_without_git() {
    for prefix in ["git@github.com:", "https://github.com/", "ssh://git@github.com/"] {
        for suffix in ["", ".git"] {
            let url = format!("{prefix}unhappychoice/splashboard{suffix}");
            let slug = slug_from_url(&url).unwrap();
            assert_eq!(slug.owner, "unhappychoice");
            assert_eq!(slug.name, "splashboard");
        }
    }
    assert!(slug_from_url("https://gitlab.com/unhappychoice/splashboard.git").is_none());
}

#[test]
fn render_items_matches_rendering_the_forge_rows() {
    let items = vec![issue_item()];
    for shape in [
        Shape::Entries,
        Shape::Text,
        Shape::TextBlock,
        Shape::MarkdownTextBlock,
        Shape::LinkedTextBlock,
        Shape::Bars,
        Shape::Timeline,
    ] {
        for include_repo in [true, false] {
            let direct = render_items(&items, shape, include_repo);
            let rows = to_forge_rows(&items, include_repo);
            assert_eq!(direct, render_forge_rows(&rows, shape));
        }
    }
}
