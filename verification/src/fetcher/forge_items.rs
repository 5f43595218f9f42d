//! Shared row model and multi-shape renderer for forge issue / PR lists.

use vstd::prelude::*;
use vstd::string::*;

use crate::render::{contains_shape, shape_in, Shape};
use crate::payload::{
    BadgeData, Bar, BarsData, Body, EntriesData, Entry, ImageLinkedItem,
    ImageLinkedListData, LinkedLine, LinkedTextBlockData, MarkdownTextBlockData, Status,
    TextBlockData, TextData, TimelineData, TimelineEvent,
};
use crate::text::{chars_of, dec, join, join_strings, push_char, u64_to_string, views};

verus! {

/// One forge-side issue / PR row.
#[derive(Debug, Clone, Default)]
pub struct ForgeRow {
    /// Compact identifier such as `owner/repo#42`.
    pub label: String,
    pub title: String,
    /// Canonical web URL, if any.
    pub url: Option<String>,
    /// Author avatar source URL.
    pub avatar_url: Option<String>,
    /// Resolved local thumbnail path.
    pub avatar_path: Option<String>,
    /// Unix seconds UTC.
    pub updated_at_unix: i64,
    /// Activity weight (comments / notes / upvotes).
    pub activity_count: u64,
}

/// `label title`.
pub open spec fn headline(r: ForgeRow) -> Seq<char> {
    r.label@ + " "@ + r.title@
}

/// Backslash-escape of one character among `\`, `` ` ``, `*`, `_`, `[`, `]`.
pub open spec fn escape_inline_char(c: char) -> Seq<char> {
    if c == '\\' || c == '`' || c == '*' || c == '_' || c == '[' || c == ']' {
        seq!['\\', c]
    } else {
        seq![c]
    }
}

/// Markdown inline escape, character by character.
pub open spec fn escape_inline(s: Seq<char>) -> Seq<char>
    decreases s.len(),
{
    if s.len() == 0 {
        Seq::empty()
    } else {
        escape_inline(s.drop_last()) + escape_inline_char(s.last())
    }
}

/// Link-target escape: `\` to `%5C` and `)` to `%29`.
pub open spec fn escape_url_char(c: char) -> Seq<char> {
    if c == '\\' {
        seq!['%', '5', 'C']
    } else if c == ')' {
        seq!['%', '2', '9']
    } else {
        seq![c]
    }
}

pub open spec fn escape_url(s: Seq<char>) -> Seq<char>
    decreases s.len(),
{
    if s.len() == 0 {
        Seq::empty()
    } else {
        escape_url(s.drop_last()) + escape_url_char(s.last())
    }
}

/// One markdown list line for a row.
pub open spec fn markdown_line(r: ForgeRow) -> Seq<char> {
    match r.url {
        Some(u) => "- **"@ + escape_inline(r.label@) + "** ["@ + escape_inline(r.title@) + "]("@
            + escape_url(u@) + ")"@,
        None => "- **"@ + escape_inline(r.label@) + "** "@ + escape_inline(r.title@),
    }
}

/// The shapes the multi-shape list fetchers expose, default first.
pub open spec fn spec_list_shapes() -> Seq<Shape> {
    seq![
        Shape::LinkedTextBlock,
        Shape::TextBlock,
        Shape::MarkdownTextBlock,
        Shape::ImageLinkedList,
        Shape::Entries,
        Shape::Text,
        Shape::Bars,
        Shape::Badge,
        Shape::Timeline,
    ]
}

/// The shapes the multi-shape list fetchers expose, default first.
pub fn list_shapes() -> (v: Vec<Shape>)
    ensures
        v@ == spec_list_shapes(),
{
    let v = vec![
        Shape::LinkedTextBlock,
        Shape::TextBlock,
        Shape::MarkdownTextBlock,
        Shape::ImageLinkedList,
        Shape::Entries,
        Shape::Text,
        Shape::Bars,
        Shape::Badge,
        Shape::Timeline,
    ];
    assert(v@ =~= spec_list_shapes());
    v
}

/// What `render_forge_rows` yields for each shape.
pub open spec fn forge_body_ok(rows: Seq<ForgeRow>, shape: Shape, b: Body) -> bool {
    match shape {
        Shape::Text => text_body_ok(rows, b),
        Shape::MarkdownTextBlock => markdown_body_ok(rows, b),
        Shape::LinkedTextBlock => linked_body_ok(rows, b),
        Shape::ImageLinkedList => image_linked_body_ok(rows, b),
        Shape::Entries => entries_body_ok(rows, b),
        Shape::Bars => bars_body_ok(rows, b),
        Shape::Timeline => timeline_body_ok(rows, b),
        _ => text_block_body_ok(rows, b),
    }
}

pub open spec fn text_body_ok(rows: Seq<ForgeRow>, b: Body) -> bool {
    b matches Body::Text(d) && d.value@ == (if rows.len() > 0 { headline(rows[0]) } else { Seq::empty() })
}

pub open spec fn text_block_body_ok(rows: Seq<ForgeRow>, b: Body) -> bool {
    b matches Body::TextBlock(d) && d.lines@.len() == rows.len()
        && forall|i: int| 0 <= i < rows.len() ==> #[trigger] d.lines@[i]@ == headline(rows[i])
}

/// The markdown line of each row.
pub open spec fn markdown_lines(rows: Seq<ForgeRow>) -> Seq<Seq<char>> {
    rows.map_values(|r: ForgeRow| markdown_line(r))
}

pub open spec fn markdown_body_ok(rows: Seq<ForgeRow>, b: Body) -> bool {
    b matches Body::MarkdownTextBlock(d) && d.value@ == join(markdown_lines(rows), "\n"@)
}

/// A linked line for a row: its headline, linking to the row's URL.
pub open spec fn linked_line_ok(l: LinkedLine, r: ForgeRow) -> bool {
    l.text@ == headline(r) && l.url == r.url
}

/// A list item for a row: its headline and URL, the row's thumbnail, no subtitle.
pub open spec fn image_item_ok(it: ImageLinkedItem, r: ForgeRow) -> bool {
    it.title@ == headline(r) && it.url == r.url && it.thumbnail_path == r.avatar_path
        && it.subtitle is None
}

/// An entry for a row: the label as key, the title as value, no status.
pub open spec fn entry_ok(e: Entry, r: ForgeRow) -> bool {
    e.key@ == r.label@ && e.value == Some(r.title) && e.status is None
}

/// A bar for a row: the label and the activity count, no value label.
pub open spec fn bar_ok(b: Bar, r: ForgeRow) -> bool {
    b.label@ == r.label@ && b.value == r.activity_count && b.value_label is None
}

/// A timeline event for a row: its time, the label as title, the title as detail.
pub open spec fn event_ok(e: TimelineEvent, r: ForgeRow) -> bool {
    e.timestamp == r.updated_at_unix && e.title@ == r.label@ && e.detail == Some(r.title)
        && e.status is None
}

pub open spec fn linked_body_ok(rows: Seq<ForgeRow>, b: Body) -> bool {
    b matches Body::LinkedTextBlock(d) && d.items@.len() == rows.len() && forall|i: int|
        0 <= i < rows.len() ==> #[trigger] linked_line_ok(d.items@[i], rows[i])
}

pub open spec fn image_linked_body_ok(rows: Seq<ForgeRow>, b: Body) -> bool {
    b matches Body::ImageLinkedList(d) && d.items@.len() == rows.len() && forall|i: int|
        0 <= i < rows.len() ==> #[trigger] image_item_ok(d.items@[i], rows[i])
}

pub open spec fn entries_body_ok(rows: Seq<ForgeRow>, b: Body) -> bool {
    b matches Body::Entries(d) && d.items@.len() == rows.len() && forall|i: int|
        0 <= i < rows.len() ==> #[trigger] entry_ok(d.items@[i], rows[i])
}

pub open spec fn bars_body_ok(rows: Seq<ForgeRow>, b: Body) -> bool {
    b matches Body::Bars(d) && d.bars@.len() == rows.len() && forall|i: int|
        0 <= i < rows.len() ==> #[trigger] bar_ok(d.bars@[i], rows[i])
}

pub open spec fn timeline_body_ok(rows: Seq<ForgeRow>, b: Body) -> bool {
    b matches Body::Timeline(d) && d.events@.len() == rows.len() && forall|i: int|
        0 <= i < rows.len() ==> #[trigger] event_ok(d.events@[i], rows[i])
}

/// Renders rows into the requested shape; shapes rows cannot express fall back
/// to a text block.
pub fn render_forge_rows(rows: &[ForgeRow], shape: Shape) -> (b: Body)
    ensures
        forge_body_ok(rows@, shape, b),
{
    match shape {
        Shape::Text => render_text(rows),
        Shape::TextBlock => render_text_block(rows),
        Shape::MarkdownTextBlock => render_markdown(rows),
        Shape::LinkedTextBlock => render_linked(rows),
        Shape::ImageLinkedList => render_image_linked(rows),
        Shape::Entries => render_entries(rows),
        Shape::Bars => render_bars(rows),
        Shape::Timeline => render_timeline(rows),
        _ => render_text_block(rows),
    }
}

/// The count pill: Ok with a check mark when empty, Warn otherwise; the noun is
/// the singular form for exactly one.
pub open spec fn count_badge_ok(count: nat, singular: Seq<char>, plural: Seq<char>, b: Body) -> bool {
    b matches Body::Badge(d) && d.status == (if count == 0 { Status::Okay } else { Status::Warn })
        && d.label@ == dec(count) + " "@ + (if count == 1 { singular } else { plural }) + (if count
        == 0 { " ✓"@ } else { Seq::empty() })
}

/// Count-pill badge summarising how much open work there is.
pub fn render_count_badge(count: u64, singular: &str, plural: &str) -> (b: Body)
    ensures
        count_badge_ok(count as nat, singular@, plural@, b),
{
    let mut label = u64_to_string(count);
    label.append(" ");
    if count == 1 {
        label.append(singular);
    } else {
        label.append(plural);
    }
    if count == 0 {
        label.append(" ✓");
        Body::Badge(BadgeData { status: Status::Okay, label })
    } else {
        Body::Badge(BadgeData { status: Status::Warn, label })
    }
}

fn headline_of(r: &ForgeRow) -> (s: String)
    ensures
        s@ == headline(*r),
{
    let mut s = r.label.clone();
    s.append(" ");
    s.append(r.title.as_str());
    s
}

fn render_text(rows: &[ForgeRow]) -> (b: Body)
    ensures
        text_body_ok(rows@, b),
{
    if rows.len() > 0 {
        Body::Text(TextData { value: headline_of(&rows[0]) })
    } else {
        Body::Text(TextData { value: String::new() })
    }
}

fn render_text_block(rows: &[ForgeRow]) -> (b: Body)
    ensures
        text_block_body_ok(rows@, b),
{
    let mut lines: Vec<String> = Vec::new();
    let mut i: usize = 0;
    while i < rows.len()
        invariant
            i <= rows@.len(),
            lines@.len() == i,
            forall|j: int| 0 <= j < i ==> #[trigger] lines@[j]@ == headline(rows@[j]),
        decreases rows@.len() - i,
    {
        lines.push(headline_of(&rows[i]));
        i = i + 1;
    }
    Body::TextBlock(TextBlockData { lines })
}

/// Backslash-escapes the Markdown inline metacharacters `\`, `` ` ``, `*`, `_`, `[`, `]`.
pub fn escape_markdown_inline(value: &str) -> (r: String)
    ensures
        r@ == escape_inline(value@),
{
    let cs = chars_of(value);
    let mut r = String::new();
    let mut i: usize = 0;
    while i < cs.len()
        invariant
            cs@ == value@,
            i <= cs@.len(),
            r@ == escape_inline(cs@.take(i as int)),
        decreases cs@.len() - i,
    {
        assert(cs@.take(i + 1).drop_last() =~= cs@.take(i as int));
        let c = cs[i];
        if c == '\\' || c == '`' || c == '*' || c == '_' || c == '[' || c == ']' {
            push_char(&mut r, '\\');
        }
        push_char(&mut r, c);
        i = i + 1;
    }
    assert(cs@.take(cs@.len() as int) =~= cs@);
    r
}

/// Escapes the two characters that can break a Markdown link target.
pub fn escape_markdown_url(url: &str) -> (r: String)
    ensures
        r@ == escape_url(url@),
{
    let cs = chars_of(url);
    let mut r = String::new();
    let mut i: usize = 0;
    while i < cs.len()
        invariant
            cs@ == url@,
            i <= cs@.len(),
            r@ == escape_url(cs@.take(i as int)),
        decreases cs@.len() - i,
    {
        assert(cs@.take(i + 1).drop_last() =~= cs@.take(i as int));
        let c = cs[i];
        if c == '\\' {
            push_char(&mut r, '%');
            push_char(&mut r, '5');
            push_char(&mut r, 'C');
        } else if c == ')' {
            push_char(&mut r, '%');
            push_char(&mut r, '2');
            push_char(&mut r, '9');
        } else {
            push_char(&mut r, c);
        }
        i = i + 1;
    }
    assert(cs@.take(cs@.len() as int) =~= cs@);
    r
}

fn markdown_line_of(r: &ForgeRow) -> (s: String)
    ensures
        s@ == markdown_line(*r),
{
    let label = escape_markdown_inline(r.label.as_str());
    let title = escape_markdown_inline(r.title.as_str());
    let mut s = String::from_str("- **");
    s.append(label.as_str());
    match &r.url {
        Some(url) => {
            s.append("** [");
            s.append(title.as_str());
            s.append("](");
            let u = escape_markdown_url(url.as_str());
            s.append(u.as_str());
            s.append(")");
        },
        None => {
            s.append("** ");
            s.append(title.as_str());
        },
    }
    s
}

fn render_markdown(rows: &[ForgeRow]) -> (b: Body)
    ensures
        markdown_body_ok(rows@, b),
{
    let mut lines: Vec<String> = Vec::new();
    let mut i: usize = 0;
    while i < rows.len()
        invariant
            i <= rows@.len(),
            lines@.len() == i,
            forall|j: int| 0 <= j < i ==> #[trigger] lines@[j]@ == markdown_line(rows@[j]),
        decreases rows@.len() - i,
    {
        lines.push(markdown_line_of(&rows[i]));
        i = i + 1;
    }
    let value = join_strings(&lines, "\n");
    assert(views(lines@) =~= markdown_lines(rows@));
    Body::MarkdownTextBlock(MarkdownTextBlockData { value })
}

fn render_linked(rows: &[ForgeRow]) -> (b: Body)
    ensures
        linked_body_ok(rows@, b),
{
    let mut items: Vec<LinkedLine> = Vec::new();
    let mut i: usize = 0;
    while i < rows.len()
        invariant
            i <= rows@.len(),
            items@.len() == i,
            forall|j: int| 0 <= j < i ==> #[trigger] linked_line_ok(items@[j], rows@[j]),
        decreases rows@.len() - i,
    {
        items.push(LinkedLine { text: headline_of(&rows[i]), url: rows[i].url.clone() });
        i = i + 1;
    }
    Body::LinkedTextBlock(LinkedTextBlockData { items })
}

fn render_image_linked(rows: &[ForgeRow]) -> (b: Body)
    ensures
        image_linked_body_ok(rows@, b),
{
    let mut items: Vec<ImageLinkedItem> = Vec::new();
    let mut i: usize = 0;
    while i < rows.len()
        invariant
            i <= rows@.len(),
            items@.len() == i,
            forall|j: int| 0 <= j < i ==> #[trigger] image_item_ok(items@[j], rows@[j]),
        decreases rows@.len() - i,
    {
        items.push(
            ImageLinkedItem {
                title: headline_of(&rows[i]),
                url: rows[i].url.clone(),
                thumbnail_path: rows[i].avatar_path.clone(),
                subtitle: None,
            },
        );
        i = i + 1;
    }
    Body::ImageLinkedList(ImageLinkedListData { items })
}

fn render_entries(rows: &[ForgeRow]) -> (b: Body)
    ensures
        entries_body_ok(rows@, b),
{
    let mut items: Vec<Entry> = Vec::new();
    let mut i: usize = 0;
    while i < rows.len()
        invariant
            i <= rows@.len(),
            items@.len() == i,
            forall|j: int| 0 <= j < i ==> #[trigger] entry_ok(items@[j], rows@[j]),
        decreases rows@.len() - i,
    {
        items.push(
            Entry { key: rows[i].label.clone(), value: Some(rows[i].title.clone()), status: None },
        );
        i = i + 1;
    }
    Body::Entries(EntriesData { items })
}

fn render_bars(rows: &[ForgeRow]) -> (b: Body)
    ensures
        bars_body_ok(rows@, b),
{
    let mut bars: Vec<Bar> = Vec::new();
    let mut i: usize = 0;
    while i < rows.len()
        invariant
            i <= rows@.len(),
            bars@.len() == i,
            forall|j: int| 0 <= j < i ==> #[trigger] bar_ok(bars@[j], rows@[j]),
        decreases rows@.len() - i,
    {
        bars.push(
            Bar { label: rows[i].label.clone(), value: rows[i].activity_count, value_label: None },
        );
        i = i + 1;
    }
    Body::Bars(BarsData { bars })
}

fn render_timeline(rows: &[ForgeRow]) -> (b: Body)
    ensures
        timeline_body_ok(rows@, b),
{
    let mut events: Vec<TimelineEvent> = Vec::new();
    let mut i: usize = 0;
    while i < rows.len()
        invariant
            i <= rows@.len(),
            events@.len() == i,
            forall|j: int| 0 <= j < i ==> #[trigger] event_ok(events@[j], rows@[j]),
        decreases rows@.len() - i,
    {
        events.push(
            TimelineEvent {
                timestamp: rows[i].updated_at_unix,
                title: rows[i].label.clone(),
                detail: Some(rows[i].title.clone()),
                status: None,
            },
        );
        i = i + 1;
    }
    Body::Timeline(TimelineData { events })
}

/// Dispatcher for list-shaped fetches once avatar paths are resolved: `Badge`
/// becomes the count pill, every other shape goes through `render_forge_rows`.
pub fn dispatch_rows(rows: &[ForgeRow], shape: Shape, badge_singular: &str, badge_plural: &str) -> (b: Body)
    ensures
        shape == Shape::Badge ==> count_badge_ok(rows@.len() as nat, badge_singular@, badge_plural@, b),
        shape != Shape::Badge ==> forge_body_ok(rows@, shape, b),
{
    if shape == Shape::Badge {
        render_count_badge(rows.len() as u64, badge_singular, badge_plural)
    } else {
        render_forge_rows(rows, shape)
    }
}

/// Sample dispatcher: `Badge` becomes the count pill, shapes outside the list
/// catalog yield `None`, everything else goes through `render_forge_rows`.
pub fn dispatch_sample(rows: &[ForgeRow], shape: Shape, badge_singular: &str, badge_plural: &str) -> (r:
    Option<Body>)
    ensures
        shape == Shape::Badge ==> (r matches Some(b) && count_badge_ok(rows@.len() as nat, badge_singular@, badge_plural@, b)),
        shape != Shape::Badge ==> (r is Some <==> shape_in(shape, spec_list_shapes())),
        shape != Shape::Badge ==> (r matches Some(b) ==> forge_body_ok(rows@, shape, b)),
{
    if shape == Shape::Badge {
        return Some(render_count_badge(rows.len() as u64, badge_singular, badge_plural));
    }
    let shapes = list_shapes();
    if !contains_shape(&shapes, shape) {
        return None;
    }
    Some(render_forge_rows(rows, shape))
}

} // verus!
