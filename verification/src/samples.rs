//! Constructors for the literal sample bodies fetchers show in the catalog.

use vstd::prelude::*;
use crate::text::{opt_str_view, opt_string_view};
use vstd::string::*;

use crate::payload::{
    BadgeData, Bar, BarsData, Body, CalendarData, EntriesData, Entry, HeatmapData, LinkedLine,
    LinkedTextBlockData, MarkdownTextBlockData, NumberSeriesData, Status, TextBlockData, TextData,
    TimelineData, TimelineEvent,
};

verus! {

/// The body is a text block of these lines.
pub open spec fn lines_are(b: Body, lines: Seq<Seq<char>>) -> bool {
    b matches Body::TextBlock(d) && d.lines@.len() == lines.len() && forall|i: int|
        0 <= i < lines.len() ==> #[trigger] d.lines@[i]@ == lines[i]
}

/// The body is a linked text block of these texts and links.
pub open spec fn links_are(b: Body, rows: Seq<(Seq<char>, Option<Seq<char>>)>) -> bool {
    b matches Body::LinkedTextBlock(d) && d.items@.len() == rows.len() && forall|i: int|
        0 <= i < rows.len() ==> #[trigger] d.items@[i].text@ == rows[i].0 && opt_string_view(
            d.items@[i].url,
        ) == rows[i].1
}

/// The body is a list of these entries (key and value), none with a status.
pub open spec fn entries_are(b: Body, rows: Seq<(Seq<char>, Seq<char>)>) -> bool {
    b matches Body::Entries(d) && d.items@.len() == rows.len() && forall|i: int|
        0 <= i < rows.len() ==> #[trigger] d.items@[i].key@ == rows[i].0 && opt_string_view(
            d.items@[i].value,
        ) == Some(rows[i].1) && d.items@[i].status is None
}

/// The body is a timeline of these events (time, title, detail), none with a status.
pub open spec fn events_are(b: Body, rows: Seq<(i64, Seq<char>, Option<Seq<char>>)>) -> bool {
    b matches Body::Timeline(d) && d.events@.len() == rows.len() && forall|i: int|
        0 <= i < rows.len() ==> #[trigger] d.events@[i].timestamp == rows[i].0
            && d.events@[i].title@ == rows[i].1 && opt_string_view(d.events@[i].detail) == rows[i].2
            && d.events@[i].status is None
}

/// The body is a bar chart of these labels and values, none with a value label.
pub open spec fn bars_are(b: Body, rows: Seq<(Seq<char>, u64)>) -> bool {
    b matches Body::Bars(d) && d.bars@.len() == rows.len() && forall|i: int|
        0 <= i < rows.len() ==> #[trigger] d.bars@[i].label@ == rows[i].0 && d.bars@[i].value
            == rows[i].1 && d.bars@[i].value_label is None
}

fn opt_owned(s: Option<&str>) -> (r: Option<String>)
    ensures
        opt_string_view(r) == opt_str_view(s),
{
    match s {
        Some(x) => Some(String::from_str(x)),
        None => None,
    }
}

/// A `Text` body.
pub fn text(value: &str) -> (b: Body)
    ensures
        b matches Body::Text(d) && d.value@ == value@,
{
    Body::Text(TextData { value: String::from_str(value) })
}

/// A `MarkdownTextBlock` body.
pub fn markdown(value: &str) -> (b: Body)
    ensures
        b matches Body::MarkdownTextBlock(d) && d.value@ == value@,
{
    Body::MarkdownTextBlock(MarkdownTextBlockData { value: String::from_str(value) })
}

/// A `Badge` body.
pub fn badge(status: Status, label: &str) -> (b: Body)
    ensures
        b matches Body::Badge(d) && d.status == status && d.label@ == label@,
{
    Body::Badge(BadgeData { status, label: String::from_str(label) })
}

/// A `TextBlock` body, one line per string.
#[verifier::spinoff_prover]
pub fn text_block(lines: &[&str]) -> (b: Body)
    ensures
        b matches Body::TextBlock(d) && d.lines@.len() == lines@.len() && forall|i: int|
            0 <= i < lines@.len() ==> #[trigger] d.lines@[i]@ == lines@[i]@,
{
    let mut out: Vec<String> = Vec::new();
    let mut i: usize = 0;
    while i < lines.len()
        invariant
            i <= lines@.len(),
            out@.len() == i,
            forall|j: int| 0 <= j < i ==> #[trigger] out@[j]@ == lines@[j]@,
        decreases lines@.len() - i,
    {
        out.push(String::from_str(lines[i]));
        i = i + 1;
    }
    Body::TextBlock(TextBlockData { lines: out })
}

/// An `Entries` body of `(key, value)` rows without status.
#[verifier::spinoff_prover]
pub fn entries(rows: &[(&str, &str)]) -> (b: Body)
    ensures
        b matches Body::Entries(d) && d.items@.len() == rows@.len() && forall|i: int|
            0 <= i < rows@.len() ==> #[trigger] d.items@[i].key@ == rows@[i].0@ && opt_string_view(
                d.items@[i].value,
            ) == Some(rows@[i].1@) && d.items@[i].status is None,
{
    let mut out: Vec<Entry> = Vec::new();
    let mut i: usize = 0;
    while i < rows.len()
        invariant
            i <= rows@.len(),
            out@.len() == i,
            forall|j: int|
                0 <= j < i ==> #[trigger] out@[j].key@ == rows@[j].0@ && opt_string_view(out@[j].value)
                    == Some(rows@[j].1@) && out@[j].status is None,
        decreases rows@.len() - i,
    {
        let (k, v) = rows[i];
        out.push(Entry { key: String::from_str(k), value: Some(String::from_str(v)), status: None });
        i = i + 1;
    }
    Body::Entries(EntriesData { items: out })
}

/// A `LinkedTextBlock` body of `(text, url)` rows.
#[verifier::spinoff_prover]
pub fn linked_text_block(rows: &[(&str, Option<&str>)]) -> (b: Body)
    ensures
        b matches Body::LinkedTextBlock(d) && d.items@.len() == rows@.len() && forall|i: int|
            0 <= i < rows@.len() ==> #[trigger] d.items@[i].text@ == rows@[i].0@ && opt_string_view(
                d.items@[i].url,
            ) == opt_str_view(rows@[i].1),
{
    let mut out: Vec<LinkedLine> = Vec::new();
    let mut i: usize = 0;
    while i < rows.len()
        invariant
            i <= rows@.len(),
            out@.len() == i,
            forall|j: int|
                0 <= j < i ==> #[trigger] out@[j].text@ == rows@[j].0@ && opt_string_view(out@[j].url)
                    == opt_str_view(rows@[j].1),
        decreases rows@.len() - i,
    {
        let (t, u) = rows[i];
        out.push(LinkedLine { text: String::from_str(t), url: opt_owned(u) });
        i = i + 1;
    }
    Body::LinkedTextBlock(LinkedTextBlockData { items: out })
}

/// A `Timeline` body of `(timestamp, title, detail)` rows without status.
#[verifier::spinoff_prover]
pub fn timeline(rows: &[(i64, &str, Option<&str>)]) -> (b: Body)
    ensures
        b matches Body::Timeline(d) && d.events@.len() == rows@.len() && forall|i: int|
            0 <= i < rows@.len() ==> #[trigger] d.events@[i].timestamp == rows@[i].0
                && d.events@[i].title@ == rows@[i].1@ && opt_string_view(d.events@[i].detail)
                == opt_str_view(rows@[i].2) && d.events@[i].status is None,
{
    let mut out: Vec<TimelineEvent> = Vec::new();
    let mut i: usize = 0;
    while i < rows.len()
        invariant
            i <= rows@.len(),
            out@.len() == i,
            forall|j: int|
                0 <= j < i ==> #[trigger] out@[j].timestamp == rows@[j].0 && out@[j].title@
                    == rows@[j].1@ && opt_string_view(out@[j].detail) == opt_str_view(rows@[j].2)
                    && out@[j].status is None,
        decreases rows@.len() - i,
    {
        let ts = rows[i].0;
        let t = rows[i].1;
        let d = rows[i].2;
        out.push(
            TimelineEvent { timestamp: ts, title: String::from_str(t), detail: opt_owned(d), status: None },
        );
        assert(out@[i as int].timestamp == rows@[i as int].0);
        assert(out@[i as int].title@ == rows@[i as int].1@);
        assert(opt_string_view(out@[i as int].detail) == opt_str_view(rows@[i as int].2));
        i = i + 1;
    }
    Body::Timeline(TimelineData { events: out })
}

/// A `Bars` body of `(label, value)` rows.
#[verifier::spinoff_prover]
pub fn bars(rows: &[(&str, u64)]) -> (b: Body)
    ensures
        b matches Body::Bars(d) && d.bars@.len() == rows@.len() && forall|i: int|
            0 <= i < rows@.len() ==> #[trigger] d.bars@[i].label@ == rows@[i].0@ && d.bars@[i].value
                == rows@[i].1 && d.bars@[i].value_label is None,
{
    let mut out: Vec<Bar> = Vec::new();
    let mut i: usize = 0;
    while i < rows.len()
        invariant
            i <= rows@.len(),
            out@.len() == i,
            forall|j: int|
                0 <= j < i ==> #[trigger] out@[j].label@ == rows@[j].0@ && out@[j].value == rows@[j].1
                    && out@[j].value_label is None,
        decreases rows@.len() - i,
    {
        let (l, v) = rows[i];
        out.push(Bar { label: String::from_str(l), value: v, value_label: None });
        i = i + 1;
    }
    Body::Bars(BarsData { bars: out })
}

/// A `NumberSeries` body.
pub fn number_series(values: &[u64]) -> (b: Body)
    ensures
        b matches Body::NumberSeries(d) && d.values@ == values@,
{
    let mut out: Vec<u64> = Vec::new();
    let mut i: usize = 0;
    while i < values.len()
        invariant
            i <= values@.len(),
            out@ == values@.take(i as int),
        decreases values@.len() - i,
    {
        out.push(values[i]);
        i = i + 1;
    }
    assert(values@.take(values@.len() as int) =~= values@);
    Body::NumberSeries(NumberSeriesData { values: out })
}

/// Deterministic cell value of the sample heatmap.
pub open spec fn heatmap_cell(r: int, c: int) -> int {
    ((r % 9) * 3 + (c % 9) * 5) % 9
}

/// A `rows × cols` sample heatmap with a repeating pattern of values 0..=8.
pub fn heatmap_grid(rows: usize, cols: usize) -> (b: Body)
    ensures
        b matches Body::Heatmap(d) && d.cells@.len() == rows && forall|r: int|
            0 <= r < rows ==> #[trigger] d.cells@[r]@.len() == cols && forall|c: int|
                0 <= c < cols ==> #[trigger] d.cells@[r]@[c] == heatmap_cell(r, c),
{
    let mut cells: Vec<Vec<u32>> = Vec::new();
    let mut r: usize = 0;
    while r < rows
        invariant
            r <= rows,
            cells@.len() == r,
            forall|i: int|
                0 <= i < r ==> #[trigger] cells@[i]@.len() == cols && forall|c: int|
                    0 <= c < cols ==> #[trigger] cells@[i]@[c] == heatmap_cell(i, c),
        decreases rows - r,
    {
        let mut row: Vec<u32> = Vec::new();
        let mut c: usize = 0;
        while c < cols
            invariant
                r < rows,
                c <= cols,
                row@.len() == c,
                forall|k: int| 0 <= k < c ==> #[trigger] row@[k] == heatmap_cell(r as int, k),
            decreases cols - c,
        {
            let v = ((r % 9) * 3 + (c % 9) * 5) % 9;
            let v = v as u32;
            row.push(v);
            c = c + 1;
        }
        cells.push(row);
        r = r + 1;
    }
    Body::Heatmap(HeatmapData { cells, thresholds: None, row_labels: None, col_labels: None })
}

/// A `Calendar` body.
pub fn calendar(year: i32, month: u8, day: Option<u8>, events: &[u8]) -> (b: Body)
    ensures
        b matches Body::Calendar(d) && d.year == year && d.month == month && d.day == day
            && d.events@ == events@,
{
    let mut out: Vec<u8> = Vec::new();
    let mut i: usize = 0;
    while i < events.len()
        invariant
            i <= events@.len(),
            out@ == events@.take(i as int),
        decreases events@.len() - i,
    {
        out.push(events[i]);
        i = i + 1;
    }
    assert(events@.take(events@.len() as int) =~= events@);
    Body::Calendar(CalendarData { year, month, day, events: out })
}

} // verus!
