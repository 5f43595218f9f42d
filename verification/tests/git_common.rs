use splashboard::fetcher::git::{fail, payload, text_block_body, text_body};
use splashboard::fetcher::FetchError;
use splashboard::payload::Body;
use std::io;

#[test]
fn fail_wraps_display_into_failed_variant() {
    let err = fail(io::Error::new(io::ErrorKind::NotFound, "missing repo"));
    assert!(matches!(err, FetchError::Failed(msg) if msg.contains("missing repo")));
}

#[test]
fn text_helpers_build_expected_shapes() {
    let p = payload(text_body("ready"));
    assert!(p.icon.is_none() && p.status.is_none() && p.format.is_none());
    assert!(matches!(p.body, Body::Text(t) if t.value == "ready"));
    let block = text_block_body(vec!["a".into(), "b".into()]);
    assert!(matches!(block, Body::TextBlock(d) if d.lines == vec!["a", "b"]));
}
