//! `github_notifications` — the authenticated user's notification inbox.

use vstd::prelude::*;
use vstd::string::*;

use crate::fetcher::FetchContext;
use super::common::{cache_key as keyed_cache_key, spec_cache_key};

use crate::fetcher::{limit_or, spec_limit, OptionSchema, Safety};
use crate::payload::{
    spec_shape_of, BadgeData, Body, EntriesData, Entry, LinkedLine, LinkedTextBlockData, Status,
    TextBlockData, TimelineData, TimelineEvent,
};
use crate::render::{shape_in, Shape};
use crate::samples;
use crate::text::{opt_str_view, opt_string_view};
use crate::text::{dec, split_once, split_once_char, strip_prefix, strip_prefix_str, u64_to_string};

use super::common::{parse_timestamp, rfc3339_seconds};

verus! {

/// The `github_notifications` fetcher.
pub struct GithubNotifications;

/// Widget options.
#[derive(Debug, Default, Clone)]
pub struct Options {
    pub limit: Option<u32>,
    pub all: Option<bool>,
}

/// One inbox notification.
#[derive(Debug, Clone)]
pub struct Notification {
    pub reason: String,
    pub updated_at: String,
    pub subject: Subject,
    pub repository: Repo,
}

/// What the notification is about.
#[derive(Debug, Clone)]
pub struct Subject {
    pub title: String,
    /// API URL of the subject, when it has one.
    pub url: Option<String>,
}

/// Repository of a notification.
#[derive(Debug, Clone)]
pub struct Repo {
    pub full_name: String,
}

pub open spec fn spec_shapes() -> Seq<Shape> {
    seq![Shape::LinkedTextBlock, Shape::TextBlock, Shape::Entries, Shape::Timeline, Shape::Badge]
}

impl GithubNotifications {
    /// Cache key: the context alone.
    pub fn cache_key(&self, ctx: &FetchContext) -> (k: String)
        ensures
            k@ == spec_cache_key("github_notifications"@, *ctx, ""@),
    {
        keyed_cache_key("github_notifications", ctx, "")
    }
}

impl GithubNotifications {
    /// Catalog name.
    pub fn name(&self) -> (r: &'static str)
        ensures
            r@ == "github_notifications"@,
    {
        "github_notifications"
    }

    /// Trust class.
    pub fn safety(&self) -> (r: Safety)
        ensures
            r == Safety::Safe,
    {
        Safety::Safe
    }

    /// One-paragraph catalog description.
    pub fn description(&self) -> (r: &'static str)
        ensures
            r@ == "The authenticated user's GitHub notification inbox, unread by default, with each row tagged by reason (mention, review_requested, etc.). Set `all = true` to include already-read notifications."@,
    {
        "The authenticated user's GitHub notification inbox, unread by default, with each row tagged by reason (mention, review_requested, etc.). Set `all = true` to include already-read notifications."
    }

    /// Shapes this fetcher can produce.
    pub fn shapes(&self) -> (r: Vec<Shape>)
        ensures
            r@ == spec_shapes(),
    {
        let r = vec![Shape::LinkedTextBlock, Shape::TextBlock, Shape::Entries, Shape::Timeline, Shape::Badge];
        assert(r@ =~= spec_shapes());
        r
    }

    /// Shape used when the widget names none.
    pub fn default_shape(&self) -> (r: Shape)
        ensures
            r == Shape::LinkedTextBlock,
    {
        Shape::LinkedTextBlock
    }

    /// Documented options.
    pub fn option_schemas(&self) -> (r: Vec<OptionSchema>)
        ensures
            r@.len() == 2,
            r@[0].name@ == "limit"@,
            r@[0].required == false,
            opt_str_view(r@[0].default) == Some("10"@),
            r@[1].name@ == "all"@,
            r@[1].required == false,
            opt_str_view(r@[1].default) == Some("false"@),
    {
        vec![
            OptionSchema {
                name: "limit",
                type_hint: "integer (1..=50)",
                required: false,
                default: Some("10"),
                description: "Maximum number of notifications to show.",
            },
            OptionSchema {
                name: "all",
                type_hint: "boolean",
                required: false,
                default: Some("false"),
                description: "Include already-read notifications. Defaults to unread-only.",
            },
        ]
    }

}

/// Rows requested: a full page of 50 for the badge, else the limit (default 10, 1..=50).
pub open spec fn spec_per_page(opts: Options, shape: Shape) -> int {
    if shape == Shape::Badge {
        50
    } else {
        spec_limit(opts.limit, 10, 1, 50)
    }
}

/// Rows to request for a shape.
pub fn per_page(opts: &Options, shape: Shape) -> (r: u32)
    ensures
        r == spec_per_page(*opts, shape),
{
    if shape == Shape::Badge {
        50
    } else {
        limit_or(opts.limit, 10, 1, 50)
    }
}

/// Inbox path for the options and shape; read notifications only when `all = true`.
pub fn request_path(opts: &Options, shape: Shape) -> (r: String)
    ensures
        r@ == "/notifications?per_page="@ + dec(spec_per_page(*opts, shape) as nat) + "&all="@ + (
        if opts.all == Some(true) {
            "true"@
        } else {
            "false"@
        }),
{
    let n = per_page(opts, shape);
    let mut r = String::from_str("/notifications?per_page=");
    let d = u64_to_string(n as u64);
    r.append(d.as_str());
    r.append("&all=");
    match opts.all {
        Some(true) => r.append("true"),
        _ => r.append("false"),
    }
    r
}

/// The response filled the requested page, so more may exist.
pub fn is_capped(count: usize, per_page: u32) -> (r: bool)
    ensures
        r == ((count as u32) >= per_page),
{
    (count as u32) >= per_page
}

/// Repository name without its owner.
pub open spec fn spec_short_repo(full: Seq<char>) -> Seq<char> {
    match split_once(full, '/') {
        Some((_, r)) => r,
        None => full,
    }
}

/// `repo` of `owner/repo`; the whole name when it has no `/`.
pub fn short_repo(full: &str) -> (r: String)
    ensures
        r@ == spec_short_repo(full@),
{
    match split_once_char(full, '/') {
        Some((_, r)) => r,
        None => String::from_str(full),
    }
}

/// Web URL of the subject: its API URL rebased onto github.com.
pub open spec fn spec_subject_html_url(n: Notification) -> Option<Seq<char>> {
    match n.subject.url {
        Some(u) => match strip_prefix(u@, "https://api.github.com/repos/"@) {
            Some(rest) => Some("https://github.com/"@ + rest),
            None => None,
        },
        None => None,
    }
}

/// Web URL of the notification's subject, when its API URL maps to one.
pub fn subject_html_url(n: &Notification) -> (r: Option<String>)
    ensures
        opt_string_view(r) == spec_subject_html_url(*n),
{
    match &n.subject.url {
        Some(u) => match strip_prefix_str(u.as_str(), "https://api.github.com/repos/") {
            Some(rest) => {
                let mut s = String::from_str("https://github.com/");
                s.append(rest.as_str());
                Some(s)
            },
            None => None,
        },
        None => None,
    }
}

/// `reason: title`.
pub open spec fn reason_title(n: Notification) -> Seq<char> {
    n.reason@ + ": "@ + n.subject.title@
}

/// `owner/repo reason: title`.
pub open spec fn full_line(n: Notification) -> Seq<char> {
    n.repository.full_name@ + " "@ + reason_title(n)
}

fn reason_title_of(n: &Notification) -> (r: String)
    ensures
        r@ == reason_title(*n),
{
    let mut r = n.reason.clone();
    r.append(": ");
    r.append(n.subject.title.as_str());
    r
}

fn full_line_of(n: &Notification) -> (r: String)
    ensures
        r@ == full_line(*n),
{
    let mut r = n.repository.full_name.clone();
    r.append(" ");
    let t = reason_title_of(n);
    r.append(t.as_str());
    r
}

/// Badge label for an inbox count; `capped` marks a full page with `+`.
pub open spec fn spec_badge_label(count: nat, capped: bool) -> Seq<char> {
    if count == 0 {
        "inbox zero"@
    } else if count == 1 && !capped {
        "1 notification"@
    } else if capped {
        dec(count) + "+ notifications"@
    } else {
        dec(count) + " notifications"@
    }
}

/// Inbox badge: Ok with "inbox zero" when empty, Warn with the count otherwise.
pub fn notifications_badge(count: usize, capped: bool) -> (b: BadgeData)
    ensures
        b.status == (if count == 0 { Status::Okay } else { Status::Warn }),
        b.label@ == spec_badge_label(count as nat, capped),
{
    let status = if count == 0 {
        Status::Okay
    } else {
        Status::Warn
    };
    let label = if count == 0 {
        String::from_str("inbox zero")
    } else if count == 1 && !capped {
        String::from_str("1 notification")
    } else {
        let mut s = u64_to_string(count as u64);
        if capped {
            s.append("+ notifications");
        } else {
            s.append(" notifications");
        }
        s
    };
    BadgeData { status, label }
}

/// What `render_body` yields for each shape.
pub open spec fn notifications_body_ok(items: Seq<Notification>, shape: Shape, capped: bool, b: Body) -> bool {
    match shape {
        Shape::Entries => b matches Body::Entries(d) && d.items@.len() == items.len() && forall|i: int|
            0 <= i < items.len() ==> #[trigger] d.items@[i].key@ == spec_short_repo(items[i].repository.full_name@)
                && opt_string_view(d.items@[i].value) == Some(reason_title(items[i]))
                && d.items@[i].status is None,
        Shape::LinkedTextBlock => b matches Body::LinkedTextBlock(d) && d.items@.len() == items.len()
            && forall|i: int|
            0 <= i < items.len() ==> #[trigger] d.items@[i].text@ == full_line(items[i])
                && opt_string_view(d.items@[i].url) == spec_subject_html_url(items[i]),
        Shape::Timeline => b matches Body::Timeline(d) && d.events@.len() == items.len() && forall|i: int|
            0 <= i < items.len() ==> #[trigger] d.events@[i].title@ == spec_short_repo(items[i].repository.full_name@)
                && opt_string_view(d.events@[i].detail) == Some(reason_title(items[i]))
                && d.events@[i].timestamp == (match rfc3339_seconds(items[i].updated_at@) {
                    Some(s) => s,
                    None => 0,
                }) && d.events@[i].status is None,
        Shape::Badge => b matches Body::Badge(d) && d.status == (if items.len() == 0 {
            Status::Okay
        } else {
            Status::Warn
        }) && d.label@ == spec_badge_label(items.len(), capped),
        _ => b matches Body::TextBlock(d) && d.lines@.len() == items.len() && forall|i: int|
            0 <= i < items.len() ==> #[trigger] d.lines@[i]@ == full_line(items[i]),
    }
}

/// Renders the inbox in the requested shape; unlisted shapes fall back to a text block.
pub fn render_body(items: &[Notification], shape: Shape, capped: bool) -> (b: Body)
    ensures
        notifications_body_ok(items@, shape, capped, b),
{
    match shape {
        Shape::Entries => {
            let mut out: Vec<Entry> = Vec::new();
            let mut i: usize = 0;
            while i < items.len()
                invariant
                    i <= items@.len(),
                    out@.len() == i,
                    forall|j: int|
                        0 <= j < i ==> #[trigger] out@[j].key@ == spec_short_repo(items@[j].repository.full_name@)
                            && opt_string_view(out@[j].value) == Some(reason_title(items@[j]))
                            && out@[j].status is None,
                decreases items@.len() - i,
            {
                let key = short_repo(items[i].repository.full_name.as_str());
                let value = reason_title_of(&items[i]);
                out.push(Entry { key, value: Some(value), status: None });
                assert(opt_string_view(out@[i as int].value) == Some(reason_title(items@[i as int])));
                i = i + 1;
            }
            Body::Entries(EntriesData { items: out })
        },
        Shape::LinkedTextBlock => {
            let mut out: Vec<LinkedLine> = Vec::new();
            let mut i: usize = 0;
            while i < items.len()
                invariant
                    i <= items@.len(),
                    out@.len() == i,
                    forall|j: int|
                        0 <= j < i ==> #[trigger] out@[j].text@ == full_line(items@[j])
                            && opt_string_view(out@[j].url) == spec_subject_html_url(items@[j]),
                decreases items@.len() - i,
            {
                let text = full_line_of(&items[i]);
                let url = subject_html_url(&items[i]);
                out.push(LinkedLine { text, url });
                i = i + 1;
            }
            Body::LinkedTextBlock(LinkedTextBlockData { items: out })
        },
        Shape::Timeline => {
            let mut out: Vec<TimelineEvent> = Vec::new();
            let mut i: usize = 0;
            while i < items.len()
                invariant
                    i <= items@.len(),
                    out@.len() == i,
                    forall|j: int|
                        0 <= j < i ==> #[trigger] out@[j].title@ == spec_short_repo(items@[j].repository.full_name@)
                            && opt_string_view(out@[j].detail) == Some(reason_title(items@[j]))
                            && out@[j].timestamp == (match rfc3339_seconds(items@[j].updated_at@) {
                                Some(s) => s,
                                None => 0,
                            }) && out@[j].status is None,
                decreases items@.len() - i,
            {
                let title = short_repo(items[i].repository.full_name.as_str());
                let detail = reason_title_of(&items[i]);
                let ts = parse_timestamp(items[i].updated_at.as_str());
                out.push(TimelineEvent { timestamp: ts, title, detail: Some(detail), status: None });
                assert(opt_string_view(out@[i as int].detail) == Some(reason_title(items@[i as int])));
                i = i + 1;
            }
            Body::Timeline(TimelineData { events: out })
        },
        Shape::Badge => Body::Badge(notifications_badge(items.len(), capped)),
        _ => {
            let mut out: Vec<String> = Vec::new();
            let mut i: usize = 0;
            while i < items.len()
                invariant
                    i <= items@.len(),
                    out@.len() == i,
                    forall|j: int| 0 <= j < i ==> #[trigger] out@[j]@ == full_line(items@[j]),
                decreases items@.len() - i,
            {
                out.push(full_line_of(&items[i]));
                i = i + 1;
            }
            Body::TextBlock(TextBlockData { lines: out })
        },
    }
}

impl GithubNotifications {
    /// Catalog sample for a supported shape.
    pub fn sample_body(&self, shape: Shape) -> (r: Option<Body>)
        ensures
            r is Some <==> shape_in(shape, spec_shapes()),
            r matches Some(b) ==> spec_shape_of(b) == shape,
    {
        assert(spec_shapes()[0] == Shape::LinkedTextBlock);
        assert(spec_shapes()[1] == Shape::TextBlock);
        assert(spec_shapes()[2] == Shape::Entries);
        assert(spec_shapes()[3] == Shape::Timeline);
        assert(spec_shapes()[4] == Shape::Badge);
        match shape {
            Shape::LinkedTextBlock => Some(
                samples::linked_text_block(
                    &[
                        (
                            "splashboard review_requested: feat: heatmap",
                            Some("https://github.com/unhappychoice/splashboard/pull/12"),
                        ),
                        ("ratatui mention: rfc: themes", Some("https://github.com/ratatui/ratatui/issues/345")),
                    ],
                ),
            ),
            Shape::TextBlock => Some(
                samples::text_block(
                    &["splashboard review_requested: feat: heatmap", "ratatui mention: rfc: themes"],
                ),
            ),
            Shape::Entries => Some(
                samples::entries(
                    &[
                        ("splashboard", "review_requested: feat: heatmap"),
                        ("ratatui", "mention: rfc: themes"),
                    ],
                ),
            ),
            Shape::Timeline => Some(
                samples::timeline(
                    &[
                        (1_774_000_000, "splashboard", Some("review_requested: feat: heatmap")),
                        (1_773_800_000, "ratatui", Some("mention: rfc: themes")),
                    ],
                ),
            ),
            Shape::Badge => Some(samples::badge(Status::Warn, "2 notifications")),
            _ => None,
        }
    }
}

} // verus!
