//! `deariary_recent` — the newest auto-generated entries, newest first: a timeline (the
//! default), the same ranking as rows in the list shapes, this month's entry days on a
//! calendar, and a headline for `Text` and `Badge` that counts every entry, not only the
//! rows shown.

use vstd::prelude::*;
use vstd::string::*;

use crate::fetcher::github::common::{cache_key as keyed_cache_key, parse_timestamp, rfc3339_seconds, spec_cache_key};
use crate::fetcher::{limit_or, spec_limit, FetchContext, OptionSchema, Safety};
use crate::payload::{
    spec_shape_of, BadgeData, Body, CalendarData, EntriesData, Entry, LinkedLine,
    LinkedTextBlockData, MarkdownTextBlockData, Status, TextBlockData, TextData, TimelineData,
    TimelineEvent,
};
use crate::render::{shape_in, Shape};
use crate::samples;
use crate::text::{opt_str_view, opt_string_view};
use crate::text::{dec, join, join_strings, u64_to_string, views};
use crate::time::{
    day_number, epoch_day, month_day, month_day_text, noon_utc_seconds, parse_date,
    spec_parse_date, valid_date, Date,
};

use super::client::{cache_extra, entry_url, spec_cache_extra, spec_entry_url, ApiEntry};

verus! {

/// The `deariary_recent` fetcher.
pub struct DeariaryRecent;

/// Widget options.
#[derive(Debug, Default, Clone)]
pub struct Options {
    pub token: Option<String>,
    pub limit: Option<u32>,
    pub tag: Option<String>,
}

pub open spec fn spec_shapes() -> Seq<Shape> {
    seq![
        Shape::Timeline,
        Shape::Text,
        Shape::TextBlock,
        Shape::MarkdownTextBlock,
        Shape::LinkedTextBlock,
        Shape::Entries,
        Shape::Badge,
        Shape::Calendar,
    ]
}

impl DeariaryRecent {
    /// Catalog name.
    pub fn name(&self) -> (r: &'static str)
        ensures
            r@ == "deariary_recent"@,
    {
        "deariary_recent"
    }

    /// Trust class.
    pub fn safety(&self) -> (r: Safety)
        ensures
            r == Safety::Safe,
    {
        Safety::Safe
    }

    /// One-paragraph catalog description.
    pub fn description(&self) -> (r: &'static str)
        ensures
            r@ == "Recent auto-generated deariary.com entries, newest first. `Timeline` (default) carries the chronological ranking; `TextBlock` / `Entries` / `MarkdownTextBlock` / `LinkedTextBlock` carry the same ranking in their respective row formats; `Calendar` highlights this month's entry days; `Text` and `Badge` summarise the headline."@,
    {
        "Recent auto-generated deariary.com entries, newest first. `Timeline` (default) carries the chronological ranking; `TextBlock` / `Entries` / `MarkdownTextBlock` / `LinkedTextBlock` carry the same ranking in their respective row formats; `Calendar` highlights this month's entry days; `Text` and `Badge` summarise the headline."
    }

    /// Shapes this fetcher can produce.
    pub fn shapes(&self) -> (r: Vec<Shape>)
        ensures
            r@ == spec_shapes(),
    {
        let r = vec![
            Shape::Timeline,
            Shape::Text,
            Shape::TextBlock,
            Shape::MarkdownTextBlock,
            Shape::LinkedTextBlock,
            Shape::Entries,
            Shape::Badge,
            Shape::Calendar,
        ];
        assert(r@ =~= spec_shapes());
        r
    }

    /// Shape used when the widget names none.
    pub fn default_shape(&self) -> (r: Shape)
        ensures
            r == Shape::Timeline,
    {
        Shape::Timeline
    }

    /// Documented options.
    pub fn option_schemas(&self) -> (r: Vec<OptionSchema>)
        ensures
            r@.len() == 3,
            r@[0].name@ == "token"@,
            r@[0].default is None,
            r@[1].name@ == "limit"@,
            opt_str_view(r@[1].default) == Some("10"@),
            r@[2].name@ == "tag"@,
            r@[2].default is None,
    {
        vec![
            OptionSchema {
                name: "token",
                type_hint: "string",
                required: false,
                default: None,
                description: "Deariary API token. Falls back to the `DEARIARY_TOKEN` env var.",
            },
            OptionSchema {
                name: "limit",
                type_hint: "integer (1..=100)",
                required: false,
                default: Some("10"),
                description: "Maximum number of entries to render in row-shaped views.",
            },
            OptionSchema {
                name: "tag",
                type_hint: "string",
                required: false,
                default: None,
                description: "Restrict results to a single tag slug.",
            },
        ]
    }

    /// Cache key: the context plus the scope of the resolved token and the serialized
    /// options.
    pub fn cache_key(
        &self,
        ctx: &FetchContext,
        token: Option<&str>,
        env_token: Option<&str>,
        options_text: &str,
    ) -> (k: String)
        ensures
            k@ == spec_cache_key(
                "deariary_recent"@,
                *ctx,
                spec_cache_extra(opt_str_view(token), opt_str_view(env_token), options_text@),
            ),
    {
        let extra = cache_extra(token, env_token, options_text);
        keyed_cache_key("deariary_recent", ctx, extra.as_str())
    }

    /// Catalog sample for a supported shape.
    pub fn sample_body(&self, shape: Shape) -> (r: Option<Body>)
        ensures
            r is Some <==> shape_in(shape, spec_shapes()),
            r matches Some(b) ==> spec_shape_of(b) == shape,
            shape == Shape::Timeline ==> (r matches Some(b) && samples::events_are(
                b,
                seq![
                    (1_777_478_400i64, "My adventurous day"@, Some("482w"@)),
                    (1_777_392_000i64, "A quiet Sunday"@, Some("310w"@)),
                    (1_777_305_600i64, "Shipped the heatmap renderer"@, Some("612w"@)),
                ],
            )),
            shape == Shape::Text ==> (r matches Some(Body::Text(d)) && d.value@
                == "📔 3 entries · latest: My adventurous day"@),
            shape == Shape::TextBlock ==> (r matches Some(b) && samples::lines_are(
                b,
                seq![
                    "04/27 · My adventurous day"@,
                    "04/26 · A quiet Sunday"@,
                    "04/25 · Shipped the heatmap renderer"@,
                ],
            )),
            shape == Shape::MarkdownTextBlock ==> (r matches Some(Body::MarkdownTextBlock(d))
                && d.value@
                == "- **04/27** — My adventurous day\n- **04/26** — A quiet Sunday\n- **04/25** — Shipped the heatmap renderer"@),
            shape == Shape::LinkedTextBlock ==> (r matches Some(b) && samples::links_are(
                b,
                seq![
                    ("04/27 · My adventurous day"@, Some("https://app.deariary.com/entries/2026/04/27"@)),
                    ("04/26 · A quiet Sunday"@, Some("https://app.deariary.com/entries/2026/04/26"@)),
                    (
                        "04/25 · Shipped the heatmap renderer"@,
                        Some("https://app.deariary.com/entries/2026/04/25"@),
                    ),
                ],
            )),
            shape == Shape::Entries ==> (r matches Some(b) && samples::entries_are(
                b,
                seq![
                    ("2026-04-27"@, "My adventurous day"@),
                    ("2026-04-26"@, "A quiet Sunday"@),
                    ("2026-04-25"@, "Shipped the heatmap renderer"@),
                ],
            )),
            shape == Shape::Badge ==> (r matches Some(Body::Badge(d)) && d.status == Status::Okay
                && d.label@ == "📔 3 recent"@),
            shape == Shape::Calendar ==> (r matches Some(Body::Calendar(d)) && d.year == 2026
                && d.month == 4 && d.day == Some(27u8) && d.events@ == seq![25u8, 26u8, 27u8]),
    {
        assert(spec_shapes()[0] == Shape::Timeline);
        assert(spec_shapes()[1] == Shape::Text);
        assert(spec_shapes()[2] == Shape::TextBlock);
        assert(spec_shapes()[3] == Shape::MarkdownTextBlock);
        assert(spec_shapes()[4] == Shape::LinkedTextBlock);
        assert(spec_shapes()[5] == Shape::Entries);
        assert(spec_shapes()[6] == Shape::Badge);
        assert(spec_shapes()[7] == Shape::Calendar);
        match shape {
            Shape::Timeline => Some(
                samples::timeline(
                    &[
                        (1_777_478_400, "My adventurous day", Some("482w")),
                        (1_777_392_000, "A quiet Sunday", Some("310w")),
                        (1_777_305_600, "Shipped the heatmap renderer", Some("612w")),
                    ],
                ),
            ),
            Shape::Text => Some(samples::text("📔 3 entries · latest: My adventurous day")),
            Shape::TextBlock => Some(
                samples::text_block(
                    &[
                        "04/27 · My adventurous day",
                        "04/26 · A quiet Sunday",
                        "04/25 · Shipped the heatmap renderer",
                    ],
                ),
            ),
            Shape::MarkdownTextBlock => Some(
                samples::markdown(
                    "- **04/27** — My adventurous day\n- **04/26** — A quiet Sunday\n- **04/25** — Shipped the heatmap renderer",
                ),
            ),
            Shape::LinkedTextBlock => Some(
                samples::linked_text_block(
                    &[
                        ("04/27 · My adventurous day", Some("https://app.deariary.com/entries/2026/04/27")),
                        ("04/26 · A quiet Sunday", Some("https://app.deariary.com/entries/2026/04/26")),
                        (
                            "04/25 · Shipped the heatmap renderer",
                            Some("https://app.deariary.com/entries/2026/04/25"),
                        ),
                    ],
                ),
            ),
            Shape::Entries => Some(
                samples::entries(
                    &[
                        ("2026-04-27", "My adventurous day"),
                        ("2026-04-26", "A quiet Sunday"),
                        ("2026-04-25", "Shipped the heatmap renderer"),
                    ],
                ),
            ),
            Shape::Badge => Some(samples::badge(Status::Okay, "📔 3 recent")),
            Shape::Calendar => Some(samples::calendar(2026, 4, Some(27), &[25, 26, 27])),
            _ => None,
        }
    }
}

/// Rows shown: the `limit` option, 10 by default, kept within 1..=100.
pub fn row_limit(opts: &Options) -> (n: u32)
    ensures
        n == spec_limit(opts.limit, 10, 1, 100),
{
    limit_or(opts.limit, 10, 1, 100)
}

/// `MM/DD` of an ISO date, or the raw text when it does not read as one.
pub open spec fn spec_short_date(raw: Seq<char>) -> Seq<char> {
    match spec_parse_date(raw) {
        Some(d) => month_day_text(d),
        None => raw,
    }
}

/// Short form of an entry date.
pub fn short_date(raw: &str) -> (s: String)
    ensures
        s@ == spec_short_date(raw@),
{
    match parse_date(raw) {
        Some(d) => month_day(d),
        None => String::from_str(raw),
    }
}

/// `MM/DD · title`.
pub open spec fn spec_line_for(e: ApiEntry) -> Seq<char> {
    spec_short_date(e.date@) + " · "@ + e.title@
}

/// The row text of an entry.
pub fn line_for(e: &ApiEntry) -> (s: String)
    ensures
        s@ == spec_line_for(*e),
{
    let mut s = short_date(e.date.as_str());
    s.append(" · ");
    s.append(e.title.as_str());
    s
}

/// `- **MM/DD** — title`.
pub open spec fn markdown_item(e: ApiEntry) -> Seq<char> {
    "- **"@ + spec_short_date(e.date@) + "** — "@ + e.title@
}

fn markdown_item_of(e: &ApiEntry) -> (s: String)
    ensures
        s@ == markdown_item(*e),
{
    let mut s = String::from_str("- **");
    let d = short_date(e.date.as_str());
    s.append(d.as_str());
    s.append("** — ");
    s.append(e.title.as_str());
    s
}

/// When an entry happened: its generation time when that reads as a positive timestamp,
/// else noon UTC of its date, else 0.
pub open spec fn spec_timestamp_for(e: ApiEntry) -> i64 {
    let generated: i64 = match e.generated_at {
        Some(g) => match rfc3339_seconds(g@) {
            Some(s) => s,
            None => 0,
        },
        None => 0,
    };
    if generated > 0 {
        generated
    } else {
        match spec_parse_date(e.date@) {
            Some(d) => ((day_number(d) - epoch_day()) * 86400 + 43200) as i64,
            None => 0,
        }
    }
}

/// Timeline position of an entry.
pub fn timestamp_for(e: &ApiEntry) -> (t: i64)
    ensures
        t == spec_timestamp_for(*e),
{
    let generated = match &e.generated_at {
        Some(g) => parse_timestamp(g.as_str()),
        None => 0,
    };
    if generated > 0 {
        return generated;
    }
    match parse_date(e.date.as_str()) {
        Some(d) => noon_utc_seconds(d),
        None => 0,
    }
}

/// Days of this month (of `today`'s year and month) that have an entry, in list order.
pub open spec fn month_days_with_entries(entries: Seq<ApiEntry>, today: Date) -> Seq<u8>
    decreases entries.len(),
{
    if entries.len() == 0 {
        Seq::empty()
    } else {
        let rest = month_days_with_entries(entries.drop_last(), today);
        match spec_parse_date(entries.last().date@) {
            Some(d) => if d.year == today.year && d.month == today.month {
                rest.push(d.day as u8)
            } else {
                rest
            },
            None => rest,
        }
    }
}

/// `📔 N entries · latest: title`, empty without entries.
pub open spec fn headline(entries: Seq<ApiEntry>) -> Seq<char> {
    if entries.len() == 0 {
        Seq::empty()
    } else {
        "📔 "@ + dec(entries.len()) + " entries · latest: "@ + entries[0].title@
    }
}

/// The first `limit` entries.
pub open spec fn shown(entries: Seq<ApiEntry>, limit: int) -> Seq<ApiEntry> {
    if limit < entries.len() {
        entries.take(limit)
    } else {
        entries
    }
}

/// What `render_body` yields for each shape.
pub open spec fn recent_body_ok(entries: Seq<ApiEntry>, shape: Shape, limit: int, today: Date, b: Body) -> bool {
    let rows = shown(entries, limit);
    match shape {
        Shape::Text => b matches Body::Text(d) && d.value@ == headline(entries),
        Shape::Badge => b matches Body::Badge(d) && d.status == (if entries.len() == 0 {
            Status::Warn
        } else {
            Status::Okay
        }) && d.label@ == "📔 "@ + dec(entries.len()) + " recent"@,
        Shape::TextBlock => b matches Body::TextBlock(d) && d.lines@.len() == rows.len() && forall|i: int|
            0 <= i < rows.len() ==> #[trigger] d.lines@[i]@ == spec_line_for(rows[i]),
        Shape::MarkdownTextBlock => b matches Body::MarkdownTextBlock(d) && d.value@ == join(
            Seq::new(rows.len(), |i: int| markdown_item(rows[i])),
            "\n"@,
        ),
        Shape::LinkedTextBlock => b matches Body::LinkedTextBlock(d) && d.items@.len() == rows.len()
            && forall|i: int|
            0 <= i < rows.len() ==> #[trigger] d.items@[i].text@ == spec_line_for(rows[i])
                && opt_string_view(d.items@[i].url) == Some(spec_entry_url(rows[i].date@)),
        Shape::Entries => b matches Body::Entries(d) && d.items@.len() == rows.len() && forall|i: int|
            0 <= i < rows.len() ==> #[trigger] d.items@[i].key@ == rows[i].date@ && opt_string_view(
                d.items@[i].value,
            ) == Some(rows[i].title@) && d.items@[i].status is None,
        Shape::Calendar => b matches Body::Calendar(d) && d.year == today.year && d.month
            == today.month as u8 && d.day == Some(today.day as u8) && d.events@
            == month_days_with_entries(entries, today),
        _ => b matches Body::Timeline(d) && d.events@.len() == rows.len() && forall|i: int|
            0 <= i < rows.len() ==> #[trigger] d.events@[i].timestamp == spec_timestamp_for(rows[i])
                && d.events@[i].title == rows[i].title && d.events@[i].detail is None
                && d.events@[i].status is None,
    }
}

fn calendar_days(entries: &[ApiEntry], today: Date) -> (days: Vec<u8>)
    ensures
        days@ == month_days_with_entries(entries@, today),
{
    let mut days: Vec<u8> = Vec::new();
    let mut i: usize = 0;
    assert(entries@.take(0) =~= Seq::<ApiEntry>::empty());
    while i < entries.len()
        invariant
            i <= entries@.len(),
            days@ == month_days_with_entries(entries@.take(i as int), today),
        decreases entries@.len() - i,
    {
        assert(entries@.take(i + 1).drop_last() =~= entries@.take(i as int));
        assert(entries@.take(i + 1).last() == entries@[i as int]);
        match parse_date(entries[i].date.as_str()) {
            Some(d) => {
                if d.year == today.year && d.month == today.month {
                    days.push(d.day as u8);
                }
            },
            None => {},
        }
        i = i + 1;
    }
    assert(entries@.take(entries@.len() as int) =~= entries@);
    days
}

/// Renders the entries (newest first) in the requested shape: the row shapes show the
/// first `limit`, the headline shapes count them all; unlisted shapes get the timeline.
#[verifier::spinoff_prover]
pub fn render_body(entries: &[ApiEntry], shape: Shape, limit: usize, today: Date) -> (b: Body)
    requires
        valid_date(today),
    ensures
        recent_body_ok(entries@, shape, limit as int, today, b),
{
    let n: usize = if limit < entries.len() { limit } else { entries.len() };
    let ghost rows = shown(entries@, limit as int);
    assert(rows =~= entries@.take(n as int));
    match shape {
        Shape::Text => {
            if entries.len() == 0 {
                assert(headline(entries@) =~= Seq::<char>::empty());
                Body::Text(TextData { value: String::new() })
            } else {
                let mut value = String::from_str("📔 ");
                let count = u64_to_string(entries.len() as u64);
                value.append(count.as_str());
                value.append(" entries · latest: ");
                value.append(entries[0].title.as_str());
                assert(value@ == headline(entries@));
                Body::Text(TextData { value })
            }
        },
        Shape::Badge => {
            let status = if entries.len() == 0 {
                Status::Warn
            } else {
                Status::Okay
            };
            let mut label = String::from_str("📔 ");
            let count = u64_to_string(entries.len() as u64);
            label.append(count.as_str());
            label.append(" recent");
            Body::Badge(BadgeData { status, label })
        },
        Shape::TextBlock => {
            let mut lines: Vec<String> = Vec::new();
            let mut i: usize = 0;
            while i < n
                invariant
                    n <= entries@.len(),
                    rows =~= entries@.take(n as int),
                    i <= n,
                    lines@.len() == i,
                    forall|j: int| 0 <= j < i ==> #[trigger] lines@[j]@ == spec_line_for(rows[j]),
                decreases n - i,
            {
                lines.push(line_for(&entries[i]));
                i = i + 1;
            }
            Body::TextBlock(TextBlockData { lines })
        },
        Shape::MarkdownTextBlock => {
            let mut items: Vec<String> = Vec::new();
            let mut i: usize = 0;
            while i < n
                invariant
                    n <= entries@.len(),
                    rows =~= entries@.take(n as int),
                    i <= n,
                    items@.len() == i,
                    forall|j: int| 0 <= j < i ==> #[trigger] items@[j]@ == markdown_item(rows[j]),
                decreases n - i,
            {
                items.push(markdown_item_of(&entries[i]));
                i = i + 1;
            }
            assert(views(items@) =~= Seq::new(rows.len(), |i: int| markdown_item(rows[i])));
            let value = join_strings(&items, "\n");
            Body::MarkdownTextBlock(MarkdownTextBlockData { value })
        },
        Shape::LinkedTextBlock => {
            let mut items: Vec<LinkedLine> = Vec::new();
            let mut i: usize = 0;
            while i < n
                invariant
                    n <= entries@.len(),
                    rows =~= entries@.take(n as int),
                    i <= n,
                    items@.len() == i,
                    forall|j: int|
                        0 <= j < i ==> #[trigger] items@[j].text@ == spec_line_for(rows[j])
                            && opt_string_view(items@[j].url) == Some(spec_entry_url(rows[j].date@)),
                decreases n - i,
            {
                items.push(
                    LinkedLine { text: line_for(&entries[i]), url: Some(entry_url(entries[i].date.as_str())) },
                );
                i = i + 1;
            }
            Body::LinkedTextBlock(LinkedTextBlockData { items })
        },
        Shape::Entries => {
            let mut items: Vec<Entry> = Vec::new();
            let mut i: usize = 0;
            while i < n
                invariant
                    n <= entries@.len(),
                    rows =~= entries@.take(n as int),
                    i <= n,
                    items@.len() == i,
                    forall|j: int|
                        0 <= j < i ==> #[trigger] items@[j].key@ == rows[j].date@ && opt_string_view(
                            items@[j].value,
                        ) == Some(rows[j].title@) && items@[j].status is None,
                decreases n - i,
            {
                items.push(
                    Entry {
                        key: entries[i].date.clone(),
                        value: Some(entries[i].title.clone()),
                        status: None,
                    },
                );
                i = i + 1;
            }
            Body::Entries(EntriesData { items })
        },
        Shape::Calendar => {
            let events = calendar_days(entries, today);
            Body::Calendar(
                CalendarData {
                    year: today.year,
                    month: today.month as u8,
                    day: Some(today.day as u8),
                    events,
                },
            )
        },
        _ => {
            let mut events: Vec<TimelineEvent> = Vec::new();
            let mut i: usize = 0;
            while i < n
                invariant
                    n <= entries@.len(),
                    rows =~= entries@.take(n as int),
                    i <= n,
                    events@.len() == i,
                    forall|j: int|
                        0 <= j < i ==> #[trigger] events@[j].timestamp == spec_timestamp_for(rows[j])
                            && events@[j].title == rows[j].title && events@[j].detail is None
                            && events@[j].status is None,
                decreases n - i,
            {
                events.push(
                    TimelineEvent {
                        timestamp: timestamp_for(&entries[i]),
                        title: entries[i].title.clone(),
                        detail: None,
                        status: None,
                    },
                );
                i = i + 1;
            }
            Body::Timeline(TimelineData { events })
        },
    }
}

} // verus!
