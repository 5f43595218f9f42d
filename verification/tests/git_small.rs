use splashboard::fetcher::git::repo_name::{display_name, preferred_remote, GitRepoName};
use splashboard::fetcher::git::stash_count::{render_body, stash_label, GitStashCount};
use splashboard::fetcher::git::text_body;
use splashboard::fetcher::{FetchContext, Safety};
use splashboard::payload::{BadgeData, Body, EntriesData, Entry, Status};
use splashboard::render::Shape;
use splashboard::samples;

fn ctx(shape: Option<Shape>) -> FetchContext {
    FetchContext {
        shape,
        ..FetchContext::default()
    }
}

#[test]
fn stash_count_fetcher_contract_and_samples_cover_supported_shapes() {
    let fetcher = GitStashCount;
    let text_key = fetcher.cache_key(&ctx(Some(Shape::Text)), "");
    let entries_key = fetcher.cache_key(&ctx(Some(Shape::Entries)), "");

    assert_eq!(fetcher.name(), "git_stash_count");
    assert_eq!(fetcher.safety(), Safety::Safe);
    assert!(fetcher.description().contains("stash reflog"));
    assert_eq!(fetcher.shapes(), vec![Shape::Text, Shape::Entries, Shape::Badge]);
    assert_eq!(fetcher.default_shape(), Shape::Text);
    assert!(text_key.starts_with("git_stash_count-"));
    assert_ne!(text_key, entries_key);
    assert_eq!(
        fetcher.sample_body(Shape::Text),
        Some(samples::text("3 stashes"))
    );
    assert_eq!(
        fetcher.sample_body(Shape::Entries),
        Some(samples::entries(&[("stashes", "3")]))
    );
    assert_eq!(
        fetcher.sample_body(Shape::Badge),
        Some(samples::badge(Status::Warn, "3 stashes"))
    );
    assert!(fetcher.sample_body(Shape::TextBlock).is_none());
}

#[test]
fn text_shape_is_empty_when_none() {
    assert_eq!(render_body(0, Shape::Text), text_body(""));
}

#[test]
fn text_shape_uses_singular_label_for_one_stash() {
    assert_eq!(render_body(1, Shape::Text), text_body("1 stash"));
}

#[test]
fn badge_shape_status_reflects_count() {
    assert_eq!(
        render_body(0, Shape::Badge),
        Body::Badge(BadgeData {
            status: Status::Okay,
            label: "no stashes".into(),
        })
    );
    assert_eq!(
        render_body(2, Shape::Badge),
        Body::Badge(BadgeData {
            status: Status::Warn,
            label: "2 stashes".into(),
        })
    );
}

#[test]
fn entries_shape_always_shows_count() {
    assert_eq!(
        render_body(0, Shape::Entries),
        Body::Entries(EntriesData {
            items: vec![Entry {
                key: "stashes".into(),
                value: Some("0".into()),
                status: None,
            }],
        })
    );
}

#[test]
fn stash_label_counts_in_words() {
    assert_eq!(stash_label(0), "no stashes");
    assert_eq!(stash_label(1), "1 stash");
    assert_eq!(stash_label(12), "12 stashes");
}

#[test]
fn sample_is_non_empty() {
    let sample = GitRepoName.sample_body(Shape::Text).unwrap();
    match sample {
        Body::Text(d) => assert!(!d.value.is_empty()),
        _ => panic!("expected text sample"),
    }
}

#[test]
fn fetcher_metadata_matches_repo_name_contract() {
    let fetcher = GitRepoName;
    assert_eq!(fetcher.name(), "git_repo_name");
    assert_eq!(fetcher.safety(), Safety::Safe);
    assert!(fetcher.description().contains("hero header"));
    assert_eq!(fetcher.shapes(), &[Shape::Text]);
    assert_eq!(fetcher.default_shape(), Shape::Text);
    assert!(fetcher
        .cache_key(&ctx(Some(Shape::Text)), "")
        .starts_with("git_repo_name-"));
}

#[test]
fn remote_name_prefers_origin_when_multiple_remotes_exist() {
    let names: Vec<String> = vec!["upstream".into(), "origin".into()];
    let urls = [
        "https://github.com/acme/first.git",
        "git@github.com:acme/preferred.git",
    ];
    let i = preferred_remote(&names).unwrap();
    assert_eq!(display_name(Some(urls[i]), None), "preferred");
}

#[test]
fn remote_name_uses_first_remote_when_origin_is_missing() {
    let names: Vec<String> = vec!["upstream".into()];
    let urls = ["ssh://git@github.com/acme/fallback.git"];
    let i = preferred_remote(&names).unwrap();
    assert_eq!(display_name(Some(urls[i]), None), "fallback");
}

#[test]
fn remote_name_returns_none_for_non_git_repos_and_non_github_remotes() {
    assert!(preferred_remote(&Vec::new()).is_none());
    assert_eq!(
        display_name(Some("https://gitlab.com/acme/project.git"), Some("checkout")),
        "checkout"
    );
    assert_eq!(display_name(None, None), "project");
}
