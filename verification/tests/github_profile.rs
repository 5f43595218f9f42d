use splashboard::fetcher::github::repo::{entry, payload, GithubRepo, Metadata};
use splashboard::fetcher::github::avatar::resolve_user as resolve_avatar_user;
use splashboard::fetcher::github::user::{
    entries, join_year, one_liner, preferred_user, text_block_lines, GithubUser, UserInfo,
};
use splashboard::fetcher::Safety;
use splashboard::payload::{Body, TextData};
use splashboard::render::Shape;

fn info(
    name: Option<&str>,
    bio: Option<&str>,
    location: Option<&str>,
    company: Option<&str>,
    created_at: Option<&str>,
) -> UserInfo {
    UserInfo {
        login: "unhappychoice".into(),
        name: name.map(String::from),
        bio: bio.map(String::from),
        location: location.map(String::from),
        company: company.map(String::from),
        created_at: created_at.map(String::from),
        followers: 420,
        following: 69,
        public_repos: 48,
    }
}

#[test]
fn metadata_as_text_joins_non_empty_fields_with_middot() {
    let m = Metadata {
        slug: Some("foo/bar".into()),
        description: Some("a thing".into()),
        license: Some("ISC".into()),
    };
    assert_eq!(m.as_text(), "foo/bar · a thing · ISC");
}

#[test]
fn metadata_as_text_skips_missing_pieces() {
    let m = Metadata {
        slug: Some("foo/bar".into()),
        description: None,
        license: Some("ISC".into()),
    };
    assert_eq!(m.as_text(), "foo/bar · ISC");
}

#[test]
fn metadata_as_entries_filters_out_empty_keys() {
    let m = Metadata {
        slug: Some("foo/bar".into()),
        description: None,
        license: Some("ISC".into()),
    };
    let entries = m.as_entries();
    assert_eq!(entries.len(), 2);
    assert_eq!(entries[0].key, "slug");
    assert_eq!(entries[1].key, "license");
}

#[test]
fn sample_entries_has_three_rows() {
    let sample = GithubRepo.sample_body(Shape::Entries).unwrap();
    match sample {
        Body::Entries(d) => assert_eq!(d.items.len(), 3),
        _ => panic!("expected entries sample"),
    }
}

#[test]
fn metadata_as_lines_preserves_visible_order() {
    let m = Metadata {
        slug: Some("foo/bar".into()),
        description: Some("a thing".into()),
        license: Some("ISC".into()),
    };
    assert_eq!(m.as_lines(), vec!["foo/bar", "a thing", "ISC"]);
}

#[test]
fn entry_and_payload_helpers_preserve_body_shape() {
    let row = entry("slug", "foo/bar");
    assert_eq!(row.key, "slug");
    assert_eq!(row.value.as_deref(), Some("foo/bar"));
    assert!(row.status.is_none());

    let wrapped = payload(Body::Text(TextData {
        value: "foo/bar".into(),
    }));
    assert!(wrapped.icon.is_none());
    assert!(wrapped.status.is_none());
    assert!(wrapped.format.is_none());
    assert!(matches!(wrapped.body, Body::Text(_)));
}

#[test]
fn user_fetcher_metadata_and_samples_cover_supported_shapes() {
    let fetcher = GithubUser;
    assert_eq!(fetcher.name(), "github_user");
    assert_eq!(fetcher.safety(), Safety::Safe);
    assert!(fetcher.description().contains("GitHub profile data"));
    assert_eq!(fetcher.shapes(), vec![Shape::TextBlock, Shape::Text, Shape::Entries]);
    assert_eq!(fetcher.option_schemas().len(), 1);
    assert_eq!(fetcher.option_schemas()[0].name, "user");
    assert_eq!(
        fetcher.option_schemas()[0].default,
        Some("authenticated token user")
    );

    let Some(Body::Text(text)) = fetcher.sample_body(Shape::Text) else {
        panic!("expected text sample");
    };
    assert_eq!(text.value, "@unhappychoice · Tokyo, Japan");

    let Some(Body::TextBlock(block)) = fetcher.sample_body(Shape::TextBlock) else {
        panic!("expected text block sample");
    };
    assert_eq!(block.lines[0], "Yuji Ueki");
    assert_eq!(block.lines[2], "Tokyo, Japan · member since 2013");

    let Some(Body::Entries(entries)) = fetcher.sample_body(Shape::Entries) else {
        panic!("expected entries sample");
    };
    assert_eq!(entries.items[0].key, "name");
    assert_eq!(entries.items[5].value.as_deref(), Some("420"));
    assert!(fetcher.sample_body(Shape::Bars).is_none());
}

#[test]
fn one_liner_joins_nonempty_fields() {
    let i = info(None, None, Some("Tokyo"), Some("Acme"), None);
    assert_eq!(one_liner(&i), "@unhappychoice · Tokyo · Acme");
}

#[test]
fn one_liner_drops_empty_segments() {
    let i = info(None, None, None, None, None);
    assert_eq!(one_liner(&i), "@unhappychoice");
}

#[test]
fn text_block_leads_with_login_then_name_bio_tail() {
    let i = info(
        Some("Yuji Ueki"),
        Some("TUI hacker"),
        Some("Tokyo"),
        None,
        Some("2013-04-12T13:57:32Z"),
    );
    assert_eq!(
        text_block_lines(&i),
        vec![
            "@unhappychoice".to_string(),
            "Yuji Ueki".into(),
            "TUI hacker".into(),
            "Tokyo · member since 2013".into(),
        ]
    );
}

#[test]
fn text_block_collapses_to_just_login_when_all_else_missing() {
    let i = info(None, None, None, None, None);
    assert_eq!(text_block_lines(&i), vec!["@unhappychoice".to_string()]);
}

#[test]
fn entries_fill_missing_optional_fields_with_empty_strings() {
    let rows = entries(&info(
        None,
        None,
        Some("Tokyo"),
        None,
        Some("2013-04-12T13:57:32Z"),
    ));
    assert_eq!(rows[0].value.as_deref(), Some(""));
    assert_eq!(rows[2].value.as_deref(), Some("Tokyo"));
    assert_eq!(rows[4].value.as_deref(), Some("2013"));
    assert_eq!(rows[7].value.as_deref(), Some("48"));
}

#[test]
fn join_year_parses_iso_timestamp() {
    assert_eq!(
        join_year(&Some("2013-04-12T13:57:32Z".into())),
        Some("2013".into())
    );
}

#[test]
fn join_year_none_when_empty() {
    assert_eq!(join_year(&None), None);
}

#[test]
fn join_year_rejects_short_values() {
    assert_eq!(join_year(&Some("202".into())), None);
}

#[test]
fn repo_fetcher_metadata_cache_key_and_samples_match_contract() {
    let fetcher = GithubRepo;
    let cwd = "/home/user/project";
    let default_key = fetcher.cache_key(&splashboard::fetcher::FetchContext::default(), cwd);
    let shaped_key = fetcher.cache_key(
        &splashboard::fetcher::FetchContext {
            format: Some("markdown".into()),
            shape: Some(Shape::Text),
            ..Default::default()
        },
        cwd,
    );

    assert_eq!(fetcher.name(), "github_repo");
    assert_eq!(fetcher.safety(), Safety::Safe);
    assert!(fetcher.description().contains("SPDX license"));
    assert_eq!(
        fetcher.shapes(),
        vec![Shape::Entries, Shape::TextBlock, Shape::Text]
    );
    assert_eq!(fetcher.default_shape(), Shape::Entries);
    assert_eq!(default_key, shaped_key);
    assert!(default_key.starts_with("github_repo-"));

    let Some(Body::TextBlock(block)) = fetcher.sample_body(Shape::TextBlock) else {
        panic!("expected text block sample");
    };
    assert_eq!(
        block.lines,
        vec![
            "unhappychoice/splashboard",
            "terminal splash renderer",
            "ISC"
        ]
    );

    let Some(Body::Text(text)) = fetcher.sample_body(Shape::Text) else {
        panic!("expected text sample");
    };
    assert_eq!(
        text.value,
        "unhappychoice/splashboard · terminal splash renderer · ISC"
    );
    assert!(fetcher.sample_body(Shape::Timeline).is_none());
}

// ---- whose profile and avatar a widget shows ----

#[test]
fn resolve_user_prefers_explicit_option() {
    assert_eq!(resolve_avatar_user(Some("from-opt"), Some("from-env")).unwrap(), "from-opt");
}

#[test]
fn avatar_resolve_user_falls_back_to_env() {
    assert_eq!(resolve_avatar_user(None, Some("env-user")).unwrap(), "env-user");
}

#[test]
fn resolve_user_empty_option_falls_through_to_env() {
    assert_eq!(resolve_avatar_user(Some(""), Some("env-user")).unwrap(), "env-user");
}

#[test]
fn resolve_user_fails_when_neither_supplied() {
    let err = resolve_avatar_user(None, None).unwrap_err();
    assert!(err.contains("GITHUB_USER"));
}

#[test]
fn resolve_user_prefers_explicit_value() {
    assert_eq!(preferred_user(Some("explicit"), Some("from-env")).unwrap(), "explicit");
}

#[test]
fn user_resolve_user_falls_back_to_env() {
    assert_eq!(preferred_user(None, Some("from-env")).unwrap(), "from-env");
}
