//! `deariary_today` — the freshest auto-generated diary entry: today's, or yesterday's while
//! today's has not been generated yet. An older newest entry is not passed off as today's:
//! the widget then shows its empty state.

use vstd::prelude::*;
use vstd::string::*;

use crate::fetcher::github::common::{cache_key as keyed_cache_key, spec_cache_key};
use crate::fetcher::{FetchContext, OptionSchema, Safety};
use crate::payload::{
    spec_shape_of, BadgeData, Body, EntriesData, Entry, LinkedLine, LinkedTextBlockData,
    MarkdownTextBlockData, Status, TextBlockData, TextData,
};
use crate::render::{shape_in, Shape};
use crate::samples;
use crate::text::{opt_str_view, opt_string_view};
use crate::text::{join, join_strings, lines_of, text_lines, views};
use crate::time::{day_number, days_between, parse_date, spec_parse_date, valid_date, Date};

use super::client::{cache_extra, entry_url, spec_cache_extra, spec_entry_url, ApiEntry};

verus! {

/// The `deariary_today` fetcher.
pub struct DeariaryToday;

/// Widget options.
#[derive(Debug, Default, Clone)]
pub struct Options {
    pub token: Option<String>,
}

pub open spec fn spec_shapes() -> Seq<Shape> {
    seq![
        Shape::TextBlock,
        Shape::Text,
        Shape::MarkdownTextBlock,
        Shape::LinkedTextBlock,
        Shape::Entries,
        Shape::Badge,
    ]
}

impl DeariaryToday {
    /// Catalog name.
    pub fn name(&self) -> (r: &'static str)
        ensures
            r@ == "deariary_today"@,
    {
        "deariary_today"
    }

    /// Trust class.
    pub fn safety(&self) -> (r: Safety)
        ensures
            r == Safety::Safe,
    {
        Safety::Safe
    }

    /// One-paragraph catalog description.
    pub fn description(&self) -> (r: &'static str)
        ensures
            r@ == "The most recent auto-generated deariary.com entry — typically today's, falling back to yesterday's when today's hasn't generated yet. Aggregated from external tools (GitHub, Calendar, Slack, Linear, ...); requires the Advanced plan. `TextBlock` shows the body, `MarkdownTextBlock` preserves formatting for `text_markdown`, `LinkedTextBlock` is a one-line clickable headline that opens the entry on deariary.com, `Entries` summarises title / date / tags / sources, `Text` is a one-line headline, `Badge` is a status pill."@,
    {
        "The most recent auto-generated deariary.com entry — typically today's, falling back to yesterday's when today's hasn't generated yet. Aggregated from external tools (GitHub, Calendar, Slack, Linear, ...); requires the Advanced plan. `TextBlock` shows the body, `MarkdownTextBlock` preserves formatting for `text_markdown`, `LinkedTextBlock` is a one-line clickable headline that opens the entry on deariary.com, `Entries` summarises title / date / tags / sources, `Text` is a one-line headline, `Badge` is a status pill."
    }

    /// Shapes this fetcher can produce.
    pub fn shapes(&self) -> (r: Vec<Shape>)
        ensures
            r@ == spec_shapes(),
    {
        let r = vec![
            Shape::TextBlock,
            Shape::Text,
            Shape::MarkdownTextBlock,
            Shape::LinkedTextBlock,
            Shape::Entries,
            Shape::Badge,
        ];
        assert(r@ =~= spec_shapes());
        r
    }

    /// Shape used when the widget names none.
    pub fn default_shape(&self) -> (r: Shape)
        ensures
            r == Shape::TextBlock,
    {
        Shape::TextBlock
    }

    /// Documented options.
    pub fn option_schemas(&self) -> (r: Vec<OptionSchema>)
        ensures
            r@.len() == 1,
            r@[0].name@ == "token"@,
            r@[0].required == false,
            r@[0].default is None,
    {
        vec![
            OptionSchema {
                name: "token",
                type_hint: "string",
                required: false,
                default: None,
                description: "Deariary API token (Bearer). Falls back to the `DEARIARY_TOKEN` env var.",
            },
        ]
    }

    /// Cache key: the context plus the scope of the resolved token and the serialized
    /// options.
    pub fn cache_key(
        &self,
        ctx: &FetchContext,
        token: Option<&str>,
        env_token: Option<&str>,
        options_text: &str,
    ) -> (k: String)
        ensures
            k@ == spec_cache_key(
                "deariary_today"@,
                *ctx,
                spec_cache_extra(opt_str_view(token), opt_str_view(env_token), options_text@),
            ),
    {
        let extra = cache_extra(token, env_token, options_text);
        keyed_cache_key("deariary_today", ctx, extra.as_str())
    }

    /// Catalog sample for a supported shape.
    pub fn sample_body(&self, shape: Shape) -> (r: Option<Body>)
        ensures
            r is Some <==> shape_in(shape, spec_shapes()),
            r matches Some(b) ==> spec_shape_of(b) == shape,
    {
        assert(spec_shapes()[0] == Shape::TextBlock);
        assert(spec_shapes()[1] == Shape::Text);
        assert(spec_shapes()[2] == Shape::MarkdownTextBlock);
        assert(spec_shapes()[3] == Shape::LinkedTextBlock);
        assert(spec_shapes()[4] == Shape::Entries);
        assert(spec_shapes()[5] == Shape::Badge);
        match shape {
            Shape::Text => Some(samples::text("📔 My adventurous day")),
            Shape::TextBlock => Some(
                samples::text_block(
                    &[
                        "Caught the morning train to the office and shipped the heatmap renderer.",
                        "Reviewed two pull requests with the team and wrote release notes.",
                        "Wrapped up with a calm dinner and a long walk along the river.",
                    ],
                ),
            ),
            Shape::MarkdownTextBlock => Some(
                samples::markdown(
                    "## My adventurous day\n\nCaught the morning train to the office and shipped the heatmap renderer.\n\n- 🐱 GitHub: 3 commits, 2 PRs reviewed\n- 📅 Calendar: 1:1 with manager",
                ),
            ),
            Shape::LinkedTextBlock => Some(
                samples::linked_text_block(
                    &[("📔 My adventurous day", Some("https://app.deariary.com/entries/2026/04/27"))],
                ),
            ),
            Shape::Entries => Some(
                samples::entries(
                    &[
                        ("title", "My adventurous day"),
                        ("date", "2026-04-27"),
                        ("tags", "work, travel"),
                        ("sources", "github, calendar"),
                    ],
                ),
            ),
            Shape::Badge => Some(samples::badge(Status::Okay, "📔 today")),
            _ => None,
        }
    }
}

/// The text names today or yesterday.
pub open spec fn spec_is_today_or_yesterday(raw: Seq<char>, today: Date) -> bool {
    match spec_parse_date(raw) {
        Some(d) => 0 <= day_number(today) - day_number(d) <= 1,
        None => false,
    }
}

/// Whether an ISO date is today or yesterday; an unreadable date is neither, and neither
/// is a future one.
pub fn is_today_or_yesterday(raw: &str, today: Date) -> (r: bool)
    requires
        valid_date(today),
    ensures
        r == spec_is_today_or_yesterday(raw@, today),
{
    match parse_date(raw) {
        Some(d) => {
            let back = days_between(d, today);
            0 <= back && back <= 1
        },
        None => false,
    }
}

/// The date of the newest entry (the list comes newest first) when it is today's or
/// yesterday's; the entry at that date is then fetched in full.
pub open spec fn spec_fresh_latest(entries: Seq<ApiEntry>, today: Date) -> Option<Seq<char>> {
    if entries.len() > 0 && spec_is_today_or_yesterday(entries[0].date@, today) {
        Some(entries[0].date@)
    } else {
        None
    }
}

/// Picks which entry to show from the newest-first list.
pub fn fresh_latest_date(entries: &[ApiEntry], today: Date) -> (r: Option<String>)
    requires
        valid_date(today),
    ensures
        opt_string_view(r) == spec_fresh_latest(entries@, today),
{
    if entries.len() == 0 {
        return None;
    }
    if is_today_or_yesterday(entries[0].date.as_str(), today) {
        Some(entries[0].date.clone())
    } else {
        None
    }
}

/// `today`, `yesterday`, or the raw text for older or unreadable dates.
pub open spec fn spec_relative_day(raw: Seq<char>, today: Date) -> Seq<char> {
    match spec_parse_date(raw) {
        Some(d) => {
            let back = day_number(today) - day_number(d);
            if back == 0 {
                "today"@
            } else if back == 1 {
                "yesterday"@
            } else {
                raw
            }
        },
        None => raw,
    }
}

/// How the badge names the entry's day.
pub fn relative_day(raw: &str, today: Date) -> (s: String)
    requires
        valid_date(today),
    ensures
        s@ == spec_relative_day(raw@, today),
{
    match parse_date(raw) {
        Some(d) => {
            let back = days_between(d, today);
            if back == 0 {
                String::from_str("today")
            } else if back == 1 {
                String::from_str("yesterday")
            } else {
                String::from_str(raw)
            }
        },
        None => String::from_str(raw),
    }
}

/// The entry's content, empty when it has none.
pub open spec fn content_text(e: ApiEntry) -> Seq<char> {
    match e.content {
        Some(c) => c@,
        None => Seq::empty(),
    }
}

/// `📔 title`.
pub open spec fn headline(e: ApiEntry) -> Seq<char> {
    "📔 "@ + e.title@
}

fn headline_of(e: &ApiEntry) -> (s: String)
    ensures
        s@ == headline(*e),
{
    let mut s = String::from_str("📔 ");
    s.append(e.title.as_str());
    s
}

/// The metadata rows: title and date, then tags and sources where there are any.
pub open spec fn metadata_rows(e: ApiEntry) -> Seq<(Seq<char>, Seq<char>)> {
    seq![("title"@, e.title@), ("date"@, e.date@)] + (if e.tags@.len() > 0 {
        seq![("tags"@, join(views(e.tags@), ", "@))]
    } else {
        Seq::empty()
    }) + (if e.sources@.len() > 0 {
        seq![("sources"@, join(views(e.sources@), ", "@))]
    } else {
        Seq::empty()
    })
}

/// Entries carry exactly the given key/value rows, without status.
pub open spec fn entries_are(items: Seq<Entry>, rows: Seq<(Seq<char>, Seq<char>)>) -> bool {
    items.len() == rows.len() && forall|i: int|
        0 <= i < rows.len() ==> #[trigger] items[i].key@ == rows[i].0 && opt_string_view(
            items[i].value,
        ) == Some(rows[i].1) && items[i].status is None
}

fn push_row(items: &mut Vec<Entry>, key: &str, value: String)
    ensures
        final(items)@ == old(items)@.push(Entry { key: final(items)@.last().key, value: Some(value), status: None }),
        final(items)@.last().key@ == key@,
{
    items.push(Entry { key: String::from_str(key), value: Some(value), status: None });
}

fn metadata_entries(e: &ApiEntry) -> (items: Vec<Entry>)
    ensures
        entries_are(items@, metadata_rows(*e)),
{
    let mut items: Vec<Entry> = Vec::new();
    push_row(&mut items, "title", e.title.clone());
    push_row(&mut items, "date", e.date.clone());
    let ghost base = seq![("title"@, e.title@), ("date"@, e.date@)];
    assert(entries_are(items@, base));
    let ghost mid = base + (if e.tags@.len() > 0 {
        seq![("tags"@, join(views(e.tags@), ", "@))]
    } else {
        Seq::<(Seq<char>, Seq<char>)>::empty()
    });
    if e.tags.len() > 0 {
        let j = join_strings(&e.tags, ", ");
        push_row(&mut items, "tags", j);
    }
    assert(entries_are(items@, mid));
    if e.sources.len() > 0 {
        let j = join_strings(&e.sources, ", ");
        push_row(&mut items, "sources", j);
    }
    assert(entries_are(items@, metadata_rows(*e)));
    items
}

/// What `render_body` yields for each shape, with and without an entry.
pub open spec fn today_body_ok(entry: Option<ApiEntry>, shape: Shape, today: Date, b: Body) -> bool {
    match entry {
        None => match shape {
            Shape::Text => b matches Body::Text(d) && d.value@.len() == 0,
            Shape::MarkdownTextBlock => b matches Body::MarkdownTextBlock(d) && d.value@.len() == 0,
            Shape::LinkedTextBlock => b matches Body::LinkedTextBlock(d) && d.items@.len() == 0,
            Shape::Entries => b matches Body::Entries(d) && d.items@.len() == 0,
            Shape::Badge => b matches Body::Badge(d) && d.status == Status::Warn && d.label@
                == "📔 no entry yet"@,
            _ => b matches Body::TextBlock(d) && d.lines@.len() == 0,
        },
        Some(e) => match shape {
            Shape::Text => b matches Body::Text(d) && d.value@ == headline(e),
            Shape::MarkdownTextBlock => b matches Body::MarkdownTextBlock(d) && d.value@
                == content_text(e),
            Shape::LinkedTextBlock => b matches Body::LinkedTextBlock(d) && d.items@.len() == 1
                && d.items@[0].text@ == headline(e) && opt_string_view(d.items@[0].url) == Some(
                spec_entry_url(e.date@),
            ),
            Shape::Entries => b matches Body::Entries(d) && entries_are(d.items@, metadata_rows(e)),
            Shape::Badge => b matches Body::Badge(d) && d.status == Status::Okay && d.label@ == "📔 "@
                + spec_relative_day(e.date@, today),
            _ => b matches Body::TextBlock(d) && views(d.lines@) == text_lines(content_text(e)),
        },
    }
}

pub open spec fn opt_entry(e: Option<&ApiEntry>) -> Option<ApiEntry> {
    match e {
        Some(x) => Some(*x),
        None => None,
    }
}

/// Renders the entry (or the empty state when there is none) in the requested shape;
/// unlisted shapes get the text block.
pub fn render_body(entry: Option<&ApiEntry>, shape: Shape, today: Date) -> (b: Body)
    requires
        valid_date(today),
    ensures
        today_body_ok(opt_entry(entry), shape, today, b),
{
    match entry {
        None => match shape {
            Shape::Text => Body::Text(TextData { value: String::new() }),
            Shape::MarkdownTextBlock => Body::MarkdownTextBlock(MarkdownTextBlockData { value: String::new() }),
            Shape::LinkedTextBlock => Body::LinkedTextBlock(LinkedTextBlockData { items: Vec::new() }),
            Shape::Entries => Body::Entries(EntriesData { items: Vec::new() }),
            Shape::Badge => Body::Badge(
                BadgeData { status: Status::Warn, label: String::from_str("📔 no entry yet") },
            ),
            _ => Body::TextBlock(TextBlockData { lines: Vec::new() }),
        },
        Some(e) => match shape {
            Shape::Text => Body::Text(TextData { value: headline_of(e) }),
            Shape::MarkdownTextBlock => {
                let value = match &e.content {
                    Some(c) => c.clone(),
                    None => String::new(),
                };
                Body::MarkdownTextBlock(MarkdownTextBlockData { value })
            },
            Shape::LinkedTextBlock => {
                let mut items: Vec<LinkedLine> = Vec::new();
                items.push(LinkedLine { text: headline_of(e), url: Some(entry_url(e.date.as_str())) });
                Body::LinkedTextBlock(LinkedTextBlockData { items })
            },
            Shape::Entries => Body::Entries(EntriesData { items: metadata_entries(e) }),
            Shape::Badge => {
                let mut label = String::from_str("📔 ");
                let day = relative_day(e.date.as_str(), today);
                label.append(day.as_str());
                Body::Badge(BadgeData { status: Status::Okay, label })
            },
            _ => {
                let lines = match &e.content {
                    Some(c) => lines_of(c.as_str()),
                    None => {
                        let v: Vec<String> = Vec::new();
                        proof {
                            lemma_no_lines();
                            assert(views(v@) =~= Seq::<Seq<char>>::empty());
                        }
                        v
                    },
                };
                Body::TextBlock(TextBlockData { lines })
            },
        },
    }
}

proof fn lemma_no_lines()
    ensures
        text_lines(Seq::<char>::empty()) == Seq::<Seq<char>>::empty(),
{
}

} // verus!
