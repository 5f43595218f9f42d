use splashboard::fetcher::git::status::{
    self, build_entries, format_line, GitStatus, StatusInfo,
};
use splashboard::fetcher::git::worktrees::{self, GitWorktrees, WorktreeInfo};
use splashboard::fetcher::{FetchContext, Safety};
use splashboard::payload::{Body, Status as PayloadStatus};
use splashboard::render::Shape;

fn info(detached: bool, dirty: bool, ahead: Option<usize>, behind: Option<usize>) -> StatusInfo {
    StatusInfo {
        branch: "feature/demo".into(),
        detached,
        head_short: "abc1234".into(),
        dirty,
        ahead,
        behind,
    }
}

fn context(shape: Shape) -> FetchContext {
    FetchContext {
        widget_id: "git-worktrees".into(),
        format: Some("plain".into()),
        file_format: None,
        shape: Some(shape),
        timezone: None,
        locale: None,
    }
}

#[test]
fn catalog_surface_and_samples_match_status_contract() {
    let fetcher = GitStatus;
    let text_key = fetcher.cache_key(
        &FetchContext {
            shape: Some(Shape::Text),
            format: Some("plain".into()),
            ..FetchContext::default()
        },
        "",
    );

    assert_eq!(fetcher.name(), "git_status");
    assert_eq!(fetcher.safety(), Safety::Safe);
    assert!(fetcher.description().contains("ahead/behind"));
    assert_eq!(fetcher.shapes(), vec![Shape::Entries, Shape::Text, Shape::Badge]);
    assert_eq!(fetcher.default_shape(), Shape::Entries);
    assert!(text_key.starts_with("git_status-"));
    assert_ne!(text_key, fetcher.cache_key(&FetchContext::default(), ""));
    assert!(matches!(
        fetcher.sample_body(Shape::Entries),
        Some(Body::Entries(_))
    ));
    assert!(matches!(
        fetcher.sample_body(Shape::Text),
        Some(Body::Text(_))
    ));
    assert!(matches!(
        fetcher.sample_body(Shape::Badge),
        Some(Body::Badge(_))
    ));
    assert!(fetcher.sample_body(Shape::TextBlock).is_none());
}

#[test]
fn detached_status_uses_short_head_and_clean_badge() {
    let detached = info(true, false, None, None);
    let zero_delta = info(false, false, Some(0), Some(0));
    let entries = build_entries(&detached);

    assert_eq!(entries[0].value.as_deref(), Some("abc1234"));
    assert!(entries.iter().all(|entry| entry.key != "head"));
    assert_eq!(format_line(&detached), "detached@abc1234 · clean");
    assert_eq!(format_line(&zero_delta), "feature/demo · clean");
    match status::render_body(&detached, Shape::Badge) {
        Body::Badge(badge) => {
            assert_eq!(badge.status, PayloadStatus::Okay);
            assert_eq!(badge.label, "detached@abc1234 · clean");
        }
        _ => panic!(),
    }
}

#[test]
fn ahead_and_behind_are_rendered_in_entries_and_text() {
    let entries = build_entries(&info(false, true, Some(2), Some(1)));
    let map: std::collections::HashMap<_, _> = entries
        .iter()
        .map(|entry| (entry.key.as_str(), entry.value.as_deref().unwrap()))
        .collect();

    assert_eq!(map.get("branch"), Some(&"feature/demo"));
    assert_eq!(map.get("head"), Some(&"abc1234"));
    assert_eq!(map.get("ahead"), Some(&"2"));
    assert_eq!(map.get("behind"), Some(&"1"));
    assert_eq!(
        format_line(&info(false, true, Some(2), Some(1))),
        "feature/demo ↑2 ↓1 · dirty"
    );
    match status::render_body(&info(false, true, Some(2), Some(1)), Shape::Text) {
        Body::Text(text) => assert_eq!(text.value, "feature/demo ↑2 ↓1 · dirty"),
        _ => panic!(),
    }
}

#[test]
fn dirty_status_warns_in_entries_and_badge() {
    let entries = build_entries(&info(false, true, None, None));
    assert_eq!(entries[1].key, "state");
    assert_eq!(entries[1].value.as_deref(), Some("dirty"));
    assert_eq!(entries[1].status, Some(PayloadStatus::Warn));
    match status::render_body(&info(false, true, None, None), Shape::Badge) {
        Body::Badge(badge) => {
            assert_eq!(badge.status, PayloadStatus::Warn);
            assert_eq!(badge.label, "feature/demo · dirty");
        }
        _ => panic!(),
    }
}

#[test]
fn entries_shape_key_is_id() {
    let list = vec![WorktreeInfo {
        id: "(main)".into(),
        branch: Some("main".into()),
        path: "/repo".into(),
    }];
    match worktrees::render_body(&list, Shape::Entries) {
        Body::Entries(d) => {
            assert_eq!(d.items[0].key, "(main)");
            let value = d.items[0].value.as_deref().unwrap();
            assert!(value.starts_with("main @ "));
        }
        _ => panic!(),
    }
}

#[test]
fn text_block_shape_formats_each_entry() {
    let list = vec![WorktreeInfo {
        id: "(main)".into(),
        branch: Some("main".into()),
        path: "/repo".into(),
    }];
    match worktrees::render_body(&list, Shape::TextBlock) {
        Body::TextBlock(d) => {
            assert_eq!(d.lines.len(), 1);
            assert!(d.lines[0].starts_with("(main) (main) @ "));
        }
        _ => panic!(),
    }
}

#[test]
fn worktrees_fetcher_contract_and_samples_cover_supported_shapes() {
    let fetcher = GitWorktrees;
    assert_eq!(fetcher.name(), "git_worktrees");
    assert_eq!(fetcher.safety(), Safety::Safe);
    assert_eq!(fetcher.default_shape(), Shape::Entries);
    assert!(fetcher.description().contains("Linked worktrees"));
    assert_eq!(fetcher.shapes(), vec![Shape::Entries, Shape::TextBlock]);
    assert!(matches!(
        fetcher.sample_body(Shape::Entries),
        Some(Body::Entries(_))
    ));
    assert!(matches!(
        fetcher.sample_body(Shape::TextBlock),
        Some(Body::TextBlock(_))
    ));
    assert!(fetcher.sample_body(Shape::Text).is_none());
    let entries_key = fetcher.cache_key(&context(Shape::Entries), "");
    let text_block_key = fetcher.cache_key(&context(Shape::TextBlock), "");
    assert!(entries_key.starts_with("git_worktrees-"));
    assert_ne!(entries_key, text_block_key);
}

#[test]
fn detached_worktree_output_omits_branch_name() {
    let text_body = worktrees::render_body(
        &vec![WorktreeInfo {
            id: "detached".into(),
            branch: None,
            path: "/tmp/detached".into(),
        }],
        Shape::TextBlock,
    );
    let Body::TextBlock(text) = text_body else {
        panic!("expected text block");
    };
    assert_eq!(text.lines, vec!["detached @ /tmp/detached".to_string()]);
    let entries_body = worktrees::render_body(
        &vec![WorktreeInfo {
            id: "detached".into(),
            branch: None,
            path: "/tmp/detached".into(),
        }],
        Shape::Entries,
    );
    let Body::Entries(entries) = entries_body else {
        panic!("expected entries");
    };
    assert_eq!(entries.items[0].value.as_deref(), Some("/tmp/detached"));
}
