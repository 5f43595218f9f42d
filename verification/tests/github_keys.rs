use splashboard::fetcher::github::action_history::GithubActionHistory;
use splashboard::fetcher::github::assigned_issues::GithubAssignedIssues;
use splashboard::fetcher::github::common::{repo_key, resolve_repo};
use splashboard::fetcher::github::contributors_monthly::GithubContributorsMonthly;
use splashboard::fetcher::github::good_first_issues::GithubGoodFirstIssues;
use splashboard::fetcher::github::my_prs::GithubMyPrs;
use splashboard::fetcher::github::notifications::GithubNotifications;
use splashboard::fetcher::github::recent_releases::GithubRecentReleases;
use splashboard::fetcher::github::repo_issues::GithubRepoIssues;
use splashboard::fetcher::github::repo_prs::GithubRepoPrs;
use splashboard::fetcher::github::repo_stars::GithubRepoStars;
use splashboard::fetcher::github::user::{user_key, GithubUser};
use splashboard::fetcher::{FetchContext, Safety};
use splashboard::payload::{Body, Status};
use splashboard::render::Shape;

/// The working directory's remote as the runtime reads it from git.
const CWD_REMOTE: &str = "git@github.com:unhappychoice/splashboard.git";

fn ctx(shape: Option<Shape>, format: Option<&str>) -> FetchContext {
    FetchContext {
        widget_id: "w".into(),
        shape,
        format: format.map(str::to_string),
        ..Default::default()
    }
}

#[test]
fn cache_key_is_stable_and_changes_with_repo_shape_and_format() {
    let fetcher = GithubActionHistory;
    let owner = repo_key(Some("owner/name"), None);
    let other = repo_key(Some("other/name"), None);
    let base = fetcher.cache_key(&ctx(Some(Shape::NumberSeries), Some("compact")), &owner);
    let same = fetcher.cache_key(&ctx(Some(Shape::NumberSeries), Some("compact")), &owner);
    let other_repo = fetcher.cache_key(&ctx(Some(Shape::NumberSeries), Some("compact")), &other);
    let other_shape = fetcher.cache_key(&ctx(Some(Shape::Timeline), Some("compact")), &owner);
    let other_format = fetcher.cache_key(&ctx(Some(Shape::NumberSeries), Some("verbose")), &owner);
    assert_eq!(base, same);
    assert_ne!(base, other_repo);
    assert_ne!(base, other_shape);
    assert_ne!(base, other_format);
}

#[test]
fn assigned_issues_cache_key_is_stable_for_identical_context_and_changes_with_shape() {
    let fetcher = GithubAssignedIssues;
    let linked = fetcher.cache_key(&ctx(Some(Shape::LinkedTextBlock), Some("compact")));
    let linked_again = fetcher.cache_key(&ctx(Some(Shape::LinkedTextBlock), Some("compact")));
    let entries = fetcher.cache_key(&ctx(Some(Shape::Entries), Some("compact")));
    assert_eq!(linked, linked_again);
    assert_ne!(linked, entries);
}

#[test]
fn my_prs_cache_key_is_stable_for_identical_context_and_changes_with_shape() {
    let fetcher = GithubMyPrs;
    let linked = fetcher.cache_key(&ctx(Some(Shape::LinkedTextBlock), Some("compact")));
    let linked_again = fetcher.cache_key(&ctx(Some(Shape::LinkedTextBlock), Some("compact")));
    let entries = fetcher.cache_key(&ctx(Some(Shape::Entries), Some("compact")));
    assert_eq!(linked, linked_again);
    assert_ne!(linked, entries);
}

#[test]
fn cache_key_changes_with_shape_and_format() {
    let fetcher = GithubNotifications;
    let linked = fetcher.cache_key(&ctx(Some(Shape::LinkedTextBlock), None));
    let badge = fetcher.cache_key(&ctx(Some(Shape::Badge), None));
    let markdown = fetcher.cache_key(&ctx(Some(Shape::LinkedTextBlock), Some("md")));
    assert_ne!(linked, badge);
    assert_ne!(linked, markdown);
}

#[test]
fn contributors_monthly_repo_for_key_prefers_explicit_repo_option() {
    assert_eq!(repo_key(Some("foo/bar"), Some(CWD_REMOTE)), "foo/bar");
}

#[test]
fn repo_for_key_falls_back_to_resolved_repo() {
    assert_eq!(
        repo_key(None, Some(CWD_REMOTE)),
        resolve_repo(None, Some(CWD_REMOTE)).unwrap().as_path()
    );
}

#[test]
fn contributors_monthly_cache_key_changes_with_repo_option() {
    let fetcher = GithubContributorsMonthly;
    let a = fetcher.cache_key(&ctx(Some(Shape::Bars), None), &repo_key(Some("foo/bar"), None));
    let b = fetcher.cache_key(&ctx(Some(Shape::Bars), None), &repo_key(Some("foo/baz"), None));
    assert_ne!(a, b);
}

#[test]
fn good_first_issues_cache_key_changes_with_repo_option() {
    let fetcher = GithubGoodFirstIssues;
    let a = fetcher.cache_key(&ctx(Some(Shape::Entries), None), &repo_key(Some("foo/bar"), None));
    let b = fetcher.cache_key(&ctx(Some(Shape::Entries), None), &repo_key(Some("foo/baz"), None));
    assert_ne!(a, b);
}

#[test]
fn good_first_issues_repo_for_key_prefers_explicit_repo_option() {
    assert_eq!(repo_key(Some("foo/bar"), None), "foo/bar");
}

#[test]
fn repo_for_key_defaults_to_empty_string() {
    assert_eq!(repo_key(None, None), "");
}

#[test]
fn recent_releases_cache_key_changes_with_repo_option() {
    let fetcher = GithubRecentReleases;
    let a = fetcher.cache_key(&ctx(Some(Shape::Entries), None), &repo_key(Some("foo/bar"), None));
    let b = fetcher.cache_key(&ctx(Some(Shape::Entries), None), &repo_key(Some("foo/baz"), None));
    assert_ne!(a, b);
}

#[test]
fn recent_releases_repo_for_key_prefers_explicit_repo_option() {
    assert_eq!(repo_key(Some("foo/bar"), Some(CWD_REMOTE)), "foo/bar");
}

#[test]
fn repo_issues_cache_key_changes_with_repo_option() {
    let fetcher = GithubRepoIssues;
    let a = fetcher.cache_key(&ctx(Some(Shape::Entries), None), &repo_key(Some("foo/bar"), None));
    let b = fetcher.cache_key(&ctx(Some(Shape::Entries), None), &repo_key(Some("foo/baz"), None));
    assert_ne!(a, b);
}

#[test]
fn repo_issues_repo_for_key_prefers_explicit_repo_option() {
    assert_eq!(repo_key(Some("foo/bar"), Some(CWD_REMOTE)), "foo/bar");
}

#[test]
fn repo_issues_repo_for_key_falls_back_to_cwd_remote_when_available() {
    let expected = resolve_repo(None, Some(CWD_REMOTE)).unwrap().as_path();
    assert_eq!(repo_key(None, Some(CWD_REMOTE)), expected);
}

#[test]
fn repo_prs_cache_key_changes_with_repo_option() {
    let fetcher = GithubRepoPrs;
    let a = fetcher.cache_key(&ctx(Some(Shape::Entries), None), &repo_key(Some("foo/bar"), None));
    let b = fetcher.cache_key(&ctx(Some(Shape::Entries), None), &repo_key(Some("foo/baz"), None));
    assert_ne!(a, b);
}

#[test]
fn repo_prs_repo_for_key_prefers_explicit_repo_option() {
    assert_eq!(repo_key(Some("foo/bar"), Some(CWD_REMOTE)), "foo/bar");
}

#[test]
fn repo_prs_repo_for_key_falls_back_to_cwd_remote_when_available() {
    let expected = resolve_repo(None, Some(CWD_REMOTE)).unwrap().as_path();
    assert_eq!(repo_key(None, Some(CWD_REMOTE)), expected);
}

#[test]
fn repo_stars_fetcher_metadata_cache_key_and_samples_match_contract() {
    let fetcher = GithubRepoStars;
    let left = fetcher.cache_key(&FetchContext::default(), &repo_key(Some("foo/bar"), None));
    let right = fetcher.cache_key(&FetchContext::default(), &repo_key(Some("foo/baz"), None));

    assert_eq!(fetcher.name(), "github_repo_stars");
    assert_eq!(fetcher.safety(), Safety::Safe);
    assert!(fetcher.description().contains("watchers"));
    assert_eq!(
        fetcher.shapes(),
        vec![
            Shape::Text,
            Shape::TextBlock,
            Shape::MarkdownTextBlock,
            Shape::Entries,
            Shape::Bars,
            Shape::Badge,
        ]
    );
    assert_eq!(fetcher.default_shape(), Shape::Text);
    assert_eq!(fetcher.option_schemas().len(), 1);
    assert_eq!(fetcher.option_schemas()[0].name, "repo");
    assert_eq!(fetcher.option_schemas()[0].type_hint, "\"owner/name\"");
    assert!(!fetcher.option_schemas()[0].required);
    assert_eq!(fetcher.option_schemas()[0].default, Some("git remote of cwd"));
    assert_ne!(left, right);
    assert!(left.starts_with("github_repo_stars-"));

    let Some(Body::Text(text)) = fetcher.sample_body(Shape::Text) else {
        panic!("expected text sample");
    };
    assert_eq!(text.value, "★ 142");

    let Some(Body::Entries(entries)) = fetcher.sample_body(Shape::Entries) else {
        panic!("expected entries sample");
    };
    assert_eq!(entries.items.len(), 4);
    assert_eq!(entries.items[0].key, "stars");
    assert_eq!(entries.items[3].key, "open_issues");

    let Some(Body::TextBlock(t)) = fetcher.sample_body(Shape::TextBlock) else {
        panic!("expected text block sample");
    };
    assert_eq!(t.lines[0], "★ 142");

    let Some(Body::MarkdownTextBlock(m)) = fetcher.sample_body(Shape::MarkdownTextBlock) else {
        panic!("expected markdown sample");
    };
    assert!(m.value.contains("- **★ stars** 142"));

    let Some(Body::Bars(b)) = fetcher.sample_body(Shape::Bars) else {
        panic!("expected bars sample");
    };
    assert_eq!(b.bars[0].value, 142);

    let Some(Body::Badge(bd)) = fetcher.sample_body(Shape::Badge) else {
        panic!("expected badge sample");
    };
    assert_eq!(bd.status, Status::Okay);
    assert_eq!(bd.label, "★ 142");

    assert!(fetcher.sample_body(Shape::Timeline).is_none());
}

#[test]
fn repo_for_key_prefers_explicit_repo_and_falls_back_to_cwd_remote() {
    assert_eq!(repo_key(Some("foo/bar"), Some(CWD_REMOTE)), "foo/bar");
    assert_eq!(
        repo_key(None, Some(CWD_REMOTE)),
        resolve_repo(None, Some(CWD_REMOTE)).unwrap().as_path()
    );
}

#[test]
fn user_for_key_prefers_options_over_env() {
    assert_eq!(user_key(Some("from-options"), Some("from-env")), "from-options");
}

#[test]
fn user_for_key_falls_back_to_env() {
    assert_eq!(user_key(None, Some("from-env")), "from-env");
}

#[test]
fn cache_key_is_stable_for_equivalent_context_and_changes_with_user() {
    let fetcher = GithubUser;
    let c = ctx(Some(Shape::Entries), Some("compact"));
    let alice = fetcher.cache_key(&c, &user_key(Some("alice"), None));
    let alice_again = fetcher.cache_key(&c, &user_key(Some("alice"), None));
    let bob = fetcher.cache_key(&c, &user_key(Some("bob"), None));
    assert_eq!(alice, alice_again);
    assert_ne!(alice, bob);
}
