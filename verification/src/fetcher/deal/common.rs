//! The row every `deal_*` source normalises into, and the bodies built from a list of rows,
//! so each source renders `[Store] Title  $price (X% off)` the same way.

use vstd::prelude::*;
use vstd::string::*;

use crate::payload::{
    BadgeData, Bar, BarsData, Body, EntriesData, Entry, ImageLinkedItem, ImageLinkedListData,
    LinkedLine, LinkedTextBlockData, MarkdownTextBlockData, Status, TextBlockData, TextData,
    TimelineData, TimelineEvent,
};
use crate::rank::{rows_view, sort_by_count_desc, sort_rows};
use crate::render::Shape;
use crate::text::opt_string_view;
use crate::text::{chars_of, dec, join, join_strings, push_char, u64_to_string, views};

verus! {

/// Multi-row shapes show at most this many deals.
pub const MAX_ROWS: usize = 20;

/// Longer bar and entry labels end in an ellipsis.
pub const LABEL_MAX_CHARS: usize = 40;

/// One deal, whatever its source.
#[derive(Debug, Clone)]
pub struct DealRow {
    pub title: String,
    pub image_url: Option<String>,
    pub sale_price: Option<String>,
    pub original_price: Option<String>,
    pub discount_pct: Option<u32>,
    pub store: Option<String>,
    pub link: String,
    /// Publication time, Unix seconds.
    pub published: Option<i64>,
}

/// `Title  $4.99 (50% off from $9.99)`, each piece left out when unknown.
pub open spec fn spec_label(r: DealRow) -> Seq<char> {
    r.title@ + match (r.sale_price, r.original_price, r.discount_pct) {
        (Some(p), Some(o), Some(pct)) => "  "@ + p@ + " ("@ + dec(pct as nat) + "% off from "@ + o@
            + ")"@,
        (Some(p), _, Some(pct)) => "  "@ + p@ + " ("@ + dec(pct as nat) + "% off)"@,
        (Some(p), _, None) => "  "@ + p@,
        (None, _, Some(pct)) => "  "@ + dec(pct as nat) + "% off"@,
        (None, _, None) => Seq::empty(),
    }
}

/// The label behind `[Store] ` when the store is known.
pub open spec fn spec_label_with_store(r: DealRow) -> Seq<char> {
    match r.store {
        Some(s) => "["@ + s@ + "] "@ + spec_label(r),
        None => spec_label(r),
    }
}

/// The known pieces of `Store`, price and `N% off`.
pub open spec fn subtitle_pieces(r: DealRow) -> Seq<Seq<char>> {
    (match r.store {
        Some(s) => seq![s@],
        None => Seq::empty(),
    }) + (match r.sale_price {
        Some(p) => seq![p@],
        None => Seq::empty(),
    }) + (match r.discount_pct {
        Some(pct) => seq![dec(pct as nat) + "% off"@],
        None => Seq::empty(),
    })
}

/// `Store · $X · 50% off` from the known pieces; none when nothing is known.
pub open spec fn spec_subtitle(r: DealRow) -> Option<Seq<char>> {
    if subtitle_pieces(r).len() == 0 {
        None
    } else {
        Some(join(subtitle_pieces(r), " · "@))
    }
}

fn pct_off(pct: u32) -> (s: String)
    ensures
        s@ == dec(pct as nat) + "% off"@,
{
    let mut s = u64_to_string(pct as u64);
    s.append("% off");
    s
}

impl DealRow {
    /// The row's label.
    pub fn label(&self) -> (s: String)
        ensures
            s@ == spec_label(*self),
    {
        let mut s = String::from_str(self.title.as_str());
        match (&self.sale_price, &self.original_price, self.discount_pct) {
            (Some(price), Some(orig), Some(pct)) => {
                s.append("  ");
                s.append(price.as_str());
                s.append(" (");
                let p = u64_to_string(pct as u64);
                s.append(p.as_str());
                s.append("% off from ");
                s.append(orig.as_str());
                s.append(")");
            },
            (Some(price), _, Some(pct)) => {
                s.append("  ");
                s.append(price.as_str());
                s.append(" (");
                let p = u64_to_string(pct as u64);
                s.append(p.as_str());
                s.append("% off)");
            },
            (Some(price), _, None) => {
                s.append("  ");
                s.append(price.as_str());
            },
            (None, _, Some(pct)) => {
                s.append("  ");
                let p = pct_off(pct);
                s.append(p.as_str());
            },
            (None, _, None) => {
                proof {
                    assert(s@ + Seq::<char>::empty() =~= s@);
                }
            },
        }
        s
    }

    /// The label, behind `[Store] ` when the store is known.
    pub fn label_with_store(&self) -> (s: String)
        ensures
            s@ == spec_label_with_store(*self),
    {
        match &self.store {
            Some(store) => {
                let mut s = String::from_str("[");
                s.append(store.as_str());
                s.append("] ");
                let l = self.label();
                s.append(l.as_str());
                s
            },
            None => self.label(),
        }
    }

    /// Short subtitle for timeline and card rows.
    pub fn subtitle(&self) -> (r: Option<String>)
        ensures
            opt_string_view(r) == spec_subtitle(*self),
    {
        let mut pieces: Vec<String> = Vec::new();
        match &self.store {
            Some(s) => pieces.push(String::from_str(s.as_str())),
            None => {},
        }
        match &self.sale_price {
            Some(p) => pieces.push(String::from_str(p.as_str())),
            None => {},
        }
        match self.discount_pct {
            Some(pct) => pieces.push(pct_off(pct)),
            None => {},
        }
        assert(views(pieces@) =~= subtitle_pieces(*self));
        if pieces.len() == 0 {
            None
        } else {
            Some(join_strings(&pieces, " · "))
        }
    }
}

/// `s` cut to `max` characters, the last one replaced by `…` when it was longer.
pub open spec fn spec_truncate(s: Seq<char>, max: nat) -> Seq<char> {
    if s.len() <= max {
        s
    } else {
        s.take(max - 1).push('…')
    }
}

/// Shortens a label to `max` characters.
pub fn truncate(s: &str, max: usize) -> (r: String)
    requires
        max > 0 || s@.len() == 0,
    ensures
        r@ == spec_truncate(s@, max as nat),
{
    let v = chars_of(s);
    if v.len() <= max {
        String::from_str(s)
    } else {
        let mut r = crate::text::substring(&v, 0, max - 1);
        push_char(&mut r, '…');
        assert(r@ =~= s@.take(max - 1).push('…'));
        r
    }
}

/// A discount of at least half is good news.
pub open spec fn spec_status_for_pct(pct: u32) -> Status {
    if pct >= 50 {
        Status::Okay
    } else {
        Status::Warn
    }
}

/// Tone of a discount.
pub fn status_for_pct(pct: u32) -> (s: Status)
    ensures
        s == spec_status_for_pct(pct),
{
    if pct >= 50 {
        Status::Okay
    } else {
        Status::Warn
    }
}

/// The discount of a row, zero when unknown.
pub open spec fn pct_of(r: DealRow) -> u32 {
    match r.discount_pct {
        Some(p) => p,
        None => 0,
    }
}

/// Index of the row with the largest discount (the last one among equals).
pub fn top_row(rows: &[DealRow]) -> (r: Option<usize>)
    ensures
        match r {
            Some(i) => i < rows@.len() && (forall|j: int| 0 <= j < rows@.len() ==> pct_of(rows@[j])
                <= pct_of(rows@[i as int])) && (forall|j: int| i < j < rows@.len() ==> pct_of(
                rows@[j],
            ) < pct_of(rows@[i as int])),
            None => rows@.len() == 0,
        },
{
    if rows.len() == 0 {
        return None;
    }
    let mut best: usize = 0;
    let mut i: usize = 1;
    while i < rows.len()
        invariant
            1 <= i <= rows@.len(),
            best < i,
            forall|j: int| 0 <= j < i ==> pct_of(rows@[j]) <= pct_of(rows@[best as int]),
            forall|j: int| best < j < i ==> pct_of(rows@[j]) < pct_of(rows@[best as int]),
        decreases rows@.len() - i,
    {
        let p = match rows[i].discount_pct {
            Some(p) => p,
            None => 0,
        };
        let b = match rows[best].discount_pct {
            Some(p) => p,
            None => 0,
        };
        if p >= b {
            best = i;
        }
        i += 1;
    }
    Some(best)
}

/// `price (N% off)`, `price`, `N% off`, or `—`.
pub open spec fn spec_entry_value(r: DealRow) -> Seq<char> {
    match (r.sale_price, r.discount_pct) {
        (Some(p), Some(pct)) => p@ + " ("@ + (dec(pct as nat) + "% off"@) + ")"@,
        (Some(p), None) => p@,
        (None, Some(pct)) => dec(pct as nat) + "% off"@,
        (None, None) => "—"@,
    }
}

/// The entry value of a row.
pub fn entry_value(r: &DealRow) -> (s: String)
    ensures
        s@ == spec_entry_value(*r),
{
    match (&r.sale_price, r.discount_pct) {
        (Some(price), Some(pct)) => {
            let mut s = String::from_str(price.as_str());
            s.append(" (");
            let p = pct_off(pct);
            s.append(p.as_str());
            s.append(")");
            s
        },
        (Some(price), None) => String::from_str(price.as_str()),
        (None, Some(pct)) => pct_off(pct),
        (None, None) => String::from_str("—"),
    }
}

/// What `linked_text_block_body` yields.
pub open spec fn linked_text_block_rows_ok(rows: Seq<DealRow>, b: Body) -> bool {
    (b matches Body::LinkedTextBlock(d) && d.items@.len() == rows.len() && forall|i: int|
            0 <= i < rows.len() ==> #[trigger] d.items@[i].text@ == spec_label_with_store(rows[i])
                && opt_string_view(d.items@[i].url) == Some(rows[i].link@))
}

/// What `text_block_body` yields.
pub open spec fn text_block_rows_ok(rows: Seq<DealRow>, b: Body) -> bool {
    (b matches Body::TextBlock(d) && views(d.lines@) == Seq::new(
            rows.len(),
            |i: int| spec_label_with_store(rows[i])))
}

/// What `markdown_body` yields.
pub open spec fn markdown_rows_ok(rows: Seq<DealRow>, b: Body) -> bool {
    (b matches Body::MarkdownTextBlock(d) && d.value@ == join(
            Seq::new(rows.len(), |i: int| markdown_item(rows[i])),
            "\n"@))
}

/// What `text_body` yields.
pub open spec fn text_rows_ok(rows: Seq<DealRow>, b: Body) -> bool {
    (rows.len() == 0 ==> (b matches Body::Text(d) && d.value@.len() == 0)) && (rows.len() > 0 ==> (b matches Body::Text(d) && exists|i: int|
            0 <= i < rows.len() && (forall|j: int| 0 <= j < rows.len() ==> pct_of(rows[j])
                <= pct_of(rows[i])) && (forall|j: int| i < j < rows.len() ==> pct_of(rows[j])
                < pct_of(rows[i])) && d.value@ == spec_label_with_store(rows[i])))
}

/// What `entries_body` yields.
pub open spec fn entries_rows_ok(rows: Seq<DealRow>, b: Body) -> bool {
    (b matches Body::Entries(d) && d.items@.len() == rows.len() && forall|i: int|
            0 <= i < rows.len() ==> entry_ok(rows[i], #[trigger] d.items@[i]))
}

/// What `bars_body` yields.
pub open spec fn bars_rows_ok(rows: Seq<DealRow>, b: Body) -> bool {
    match b {
        Body::Bars(d) => d.bars@.len() == rows.len() && forall|i: int|
            0 <= i < rows.len() ==> #[trigger] d.bars@[i].label@ == sort_rows(bar_rows(rows), false)[i].0
                && d.bars@[i].value == sort_rows(bar_rows(rows), false)[i].1 && d.bars@[i].value_label
                is None,
        _ => false,
    }
}

/// What `badge_body` yields.
pub open spec fn badge_rows_ok(rows: Seq<DealRow>, b: Body) -> bool {
    (rows.len() == 0 ==> (b matches Body::Badge(d) && (d.status, d.label@) == spec_badge(0))) && (rows.len() > 0 ==> (b matches Body::Badge(d) && exists|i: int|
            0 <= i < rows.len() && (forall|j: int| 0 <= j < rows.len() ==> pct_of(rows[j])
                <= pct_of(rows[i])) && (d.status, d.label@) == spec_badge(pct_of(rows[i]))))
}

/// What `timeline_body` yields.
pub open spec fn timeline_rows_ok(rows: Seq<DealRow>, b: Body) -> bool {
    (b matches Body::Timeline(d) && d.events@.len() == rows.len() && forall|i: int|
            0 <= i < rows.len() ==> event_ok(rows[i], #[trigger] d.events@[i]))
}

/// One linked line per row: the label with its store, to the deal.
pub fn linked_text_block_body(rows: &[DealRow]) -> (b: Body)
    ensures
        linked_text_block_rows_ok(rows@, b),
{
    let mut items: Vec<LinkedLine> = Vec::new();
    let mut i: usize = 0;
    while i < rows.len()
        invariant
            i <= rows@.len(),
            items@.len() == i,
            forall|k: int|
                0 <= k < i ==> #[trigger] items@[k].text@ == spec_label_with_store(rows@[k])
                    && opt_string_view(items@[k].url) == Some(rows@[k].link@),
        decreases rows@.len() - i,
    {
        let ghost prev = items@;
        items.push(
            LinkedLine {
                text: rows[i].label_with_store(),
                url: Some(String::from_str(rows[i].link.as_str())),
            },
        );
        assert forall|k: int| 0 <= k < i + 1 implies #[trigger] items@[k].text@
            == spec_label_with_store(rows@[k]) && opt_string_view(items@[k].url) == Some(
            rows@[k].link@,
        ) by {
            if k < i {
                assert(items@[k] == prev[k]);
            }
        }
        i += 1;
    }
    Body::LinkedTextBlock(LinkedTextBlockData { items })
}

fn labels_with_store(rows: &[DealRow]) -> (v: Vec<String>)
    ensures
        views(v@) == Seq::new(rows@.len(), |i: int| spec_label_with_store(rows@[i])),
{
    let mut v: Vec<String> = Vec::new();
    let mut i: usize = 0;
    while i < rows.len()
        invariant
            i <= rows@.len(),
            v@.len() == i,
            forall|k: int| 0 <= k < i ==> #[trigger] v@[k]@ == spec_label_with_store(rows@[k]),
        decreases rows@.len() - i,
    {
        v.push(rows[i].label_with_store());
        i += 1;
    }
    assert(views(v@) =~= Seq::new(rows@.len(), |k: int| spec_label_with_store(rows@[k])));
    v
}

/// One line per row: the label with its store.
pub fn text_block_body(rows: &[DealRow]) -> (b: Body)
    ensures
        text_block_rows_ok(rows@, b),
{
    Body::TextBlock(TextBlockData { lines: labels_with_store(rows) })
}

/// `- [label](link)` per row.
pub open spec fn markdown_item(r: DealRow) -> Seq<char> {
    "- ["@ + spec_label_with_store(r) + "]("@ + r.link@ + ")"@
}

/// A bullet list of links, one per row.
pub fn markdown_body(rows: &[DealRow]) -> (b: Body)
    ensures
        markdown_rows_ok(rows@, b),
{
    let mut v: Vec<String> = Vec::new();
    let mut i: usize = 0;
    while i < rows.len()
        invariant
            i <= rows@.len(),
            v@.len() == i,
            forall|k: int| 0 <= k < i ==> #[trigger] v@[k]@ == markdown_item(rows@[k]),
        decreases rows@.len() - i,
    {
        let mut s = String::from_str("- [");
        let l = rows[i].label_with_store();
        s.append(l.as_str());
        s.append("](");
        s.append(rows[i].link.as_str());
        s.append(")");
        v.push(s);
        i += 1;
    }
    assert(views(v@) =~= Seq::new(rows@.len(), |k: int| markdown_item(rows@[k])));
    Body::MarkdownTextBlock(MarkdownTextBlockData { value: join_strings(&v, "\n") })
}

/// The headline: the label of the row with the largest discount, empty without rows.
pub fn text_body(rows: &[DealRow]) -> (b: Body)
    ensures
        text_rows_ok(rows@, b),
{
    match top_row(rows) {
        Some(i) => Body::Text(TextData { value: rows[i].label_with_store() }),
        None => Body::Text(TextData { value: String::new() }),
    }
}

/// The entry of a row: the shortened title, the price and discount, toned by discount.
pub open spec fn entry_ok(r: DealRow, e: Entry) -> bool {
    &&& e.key@ == spec_truncate(r.title@, LABEL_MAX_CHARS as nat)
    &&& opt_string_view(e.value) == Some(spec_entry_value(r))
    &&& e.status == Some(spec_status_for_pct(pct_of(r)))
}

/// One entry per row.
pub fn entries_body(rows: &[DealRow]) -> (b: Body)
    ensures
        entries_rows_ok(rows@, b),
{
    let mut items: Vec<Entry> = Vec::new();
    let mut i: usize = 0;
    while i < rows.len()
        invariant
            i <= rows@.len(),
            items@.len() == i,
            forall|k: int| 0 <= k < i ==> entry_ok(rows@[k], #[trigger] items@[k]),
        decreases rows@.len() - i,
    {
        let pct = match rows[i].discount_pct {
            Some(p) => p,
            None => 0,
        };
        let e = Entry {
            key: truncate(rows[i].title.as_str(), LABEL_MAX_CHARS),
            value: Some(entry_value(&rows[i])),
            status: Some(status_for_pct(pct)),
        };
        assert(entry_ok(rows@[i as int], e));
        items.push(e);
        i += 1;
    }
    Body::Entries(EntriesData { items })
}

/// The rows as `(shortened title, discount)` pairs.
pub open spec fn bar_rows(rows: Seq<DealRow>) -> Seq<(Seq<char>, u64)> {
    Seq::new(
        rows.len(),
        |i: int| (spec_truncate(rows[i].title@, LABEL_MAX_CHARS as nat), pct_of(rows[i]) as u64),
    )
}

/// Bars by discount, largest first (equal discounts keep their order), titled by the
/// shortened title.
#[verifier::spinoff_prover]
pub fn bars_body(rows: &[DealRow]) -> (b: Body)
    ensures
        bars_rows_ok(rows@, b),
{
    let mut pairs: Vec<(String, u64)> = Vec::new();
    let mut i: usize = 0;
    while i < rows.len()
        invariant
            i <= rows@.len(),
            pairs@.len() == i,
            forall|k: int| 0 <= k < i ==> #[trigger] rows_view(pairs@)[k] == bar_rows(rows@)[k],
        decreases rows@.len() - i,
    {
        let pct = match rows[i].discount_pct {
            Some(p) => p,
            None => 0,
        };
        let ghost prev = pairs@;
        pairs.push((truncate(rows[i].title.as_str(), LABEL_MAX_CHARS), pct as u64));
        assert forall|k: int| 0 <= k < i + 1 implies #[trigger] rows_view(pairs@)[k] == bar_rows(
            rows@,
        )[k] by {
            if k < i {
                assert(pairs@[k] == prev[k]);
                assert(rows_view(prev)[k] == bar_rows(rows@)[k]);
            }
        }
        i += 1;
    }
    assert(rows_view(pairs@) =~= bar_rows(rows@));
    let sorted = sort_by_count_desc(&pairs);
    proof {
        crate::rank::lemma_sort_rows_sorted(bar_rows(rows@), false);
    }
    let ghost sv = rows_view(sorted@);
    let mut bars: Vec<Bar> = Vec::new();
    let mut j: usize = 0;
    while j < sorted.len()
        invariant
            sv == rows_view(sorted@),
            sv == sort_rows(bar_rows(rows@), false),
            sv.len() == rows@.len(),
            j <= sorted@.len(),
            bars@.len() == j,
            forall|k: int|
                0 <= k < j ==> #[trigger] bars@[k].label@ == sv[k].0 && bars@[k].value == sv[k].1
                    && bars@[k].value_label is None,
        decreases sorted@.len() - j,
    {
        assert(sv[j as int] == (sorted@[j as int].0@, sorted@[j as int].1));
        let ghost prev = bars@;
        bars.push(
            Bar {
                label: String::from_str(sorted[j].0.as_str()),
                value: sorted[j].1,
                value_label: None,
            },
        );
        assert forall|k: int| 0 <= k < j + 1 implies #[trigger] bars@[k].label@ == sv[k].0
            && bars@[k].value == sv[k].1 && bars@[k].value_label is None by {
            if k < j {
                assert(bars@[k] == prev[k]);
            }
        }
        j += 1;
    }
    Body::Bars(BarsData { bars })
}

/// Badge for the best discount: `free this week` at 100%, `N% off` (okay from 50%,
/// warning below), `no deals` without any discount.
pub open spec fn spec_badge(best: u32) -> (Status, Seq<char>) {
    if best == 100 {
        (Status::Okay, "free this week"@)
    } else if best >= 50 {
        (Status::Okay, dec(best as nat) + "% off"@)
    } else if best > 0 {
        (Status::Warn, dec(best as nat) + "% off"@)
    } else {
        (Status::Warn, "no deals"@)
    }
}

/// The best discount badge.
pub fn badge_body(rows: &[DealRow]) -> (b: Body)
    ensures
        badge_rows_ok(rows@, b),
{
    let best = match top_row(rows) {
        Some(i) => match rows[i].discount_pct {
            Some(p) => p,
            None => 0,
        },
        None => 0,
    };
    let (status, label) = if best == 100 {
        (Status::Okay, String::from_str("free this week"))
    } else if best >= 50 {
        (Status::Okay, pct_off(best))
    } else if best > 0 {
        (Status::Warn, pct_off(best))
    } else {
        (Status::Warn, String::from_str("no deals"))
    };
    Body::Badge(BadgeData { status, label })
}

/// The event of a row: publish time (0 when unknown), title, subtitle, tone.
pub open spec fn event_ok(r: DealRow, e: TimelineEvent) -> bool {
    &&& e.timestamp == match r.published {
        Some(t) => t,
        None => 0,
    }
    &&& e.title@ == r.title@
    &&& opt_string_view(e.detail) == spec_subtitle(r)
    &&& e.status == Some(spec_status_for_pct(pct_of(r)))
}

/// One event per row.
pub fn timeline_body(rows: &[DealRow]) -> (b: Body)
    ensures
        timeline_rows_ok(rows@, b),
{
    let mut events: Vec<TimelineEvent> = Vec::new();
    let mut i: usize = 0;
    while i < rows.len()
        invariant
            i <= rows@.len(),
            events@.len() == i,
            forall|k: int| 0 <= k < i ==> event_ok(rows@[k], #[trigger] events@[k]),
        decreases rows@.len() - i,
    {
        let pct = match rows[i].discount_pct {
            Some(p) => p,
            None => 0,
        };
        let ts = match rows[i].published {
            Some(t) => t,
            None => 0,
        };
        let detail = rows[i].subtitle();
        let e = TimelineEvent {
            timestamp: ts,
            title: String::from_str(rows[i].title.as_str()),
            detail,
            status: Some(status_for_pct(pct)),
        };
        assert(event_ok(rows@[i as int], e));
        events.push(e);
        i += 1;
    }
    Body::Timeline(TimelineData { events })
}

/// The card of a row: title, link to the deal, its thumbnail, and the subtitle.
pub open spec fn card_ok(r: DealRow, thumb: Option<String>, c: ImageLinkedItem) -> bool {
    &&& c.title@ == r.title@
    &&& opt_string_view(c.url) == Some(r.link@)
    &&& opt_string_view(c.thumbnail_path) == opt_string_view(thumb)
    &&& opt_string_view(c.subtitle) == spec_subtitle(r)
}

/// One card per row, paired by position with the downloaded thumbnails.
pub fn image_linked_body(rows: &[DealRow], thumbnails: &Vec<Option<String>>) -> (b: Body)
    requires
        thumbnails@.len() == rows@.len(),
    ensures
        b matches Body::ImageLinkedList(d) && d.items@.len() == rows@.len() && forall|i: int|
            0 <= i < rows@.len() ==> card_ok(rows@[i], thumbnails@[i], #[trigger] d.items@[i]),
{
    let mut items: Vec<ImageLinkedItem> = Vec::new();
    let mut i: usize = 0;
    while i < rows.len()
        invariant
            thumbnails@.len() == rows@.len(),
            i <= rows@.len(),
            items@.len() == i,
            forall|k: int| 0 <= k < i ==> card_ok(rows@[k], thumbnails@[k], #[trigger] items@[k]),
        decreases rows@.len() - i,
    {
        let c = ImageLinkedItem {
            title: String::from_str(rows[i].title.as_str()),
            url: Some(String::from_str(rows[i].link.as_str())),
            thumbnail_path: crate::text::clone_opt(&thumbnails[i]),
            subtitle: rows[i].subtitle(),
        };
        assert(card_ok(rows@[i as int], thumbnails@[i as int], c));
        items.push(c);
        i += 1;
    }
    Body::ImageLinkedList(ImageLinkedListData { items })
}

/// Shapes with a body of their own (cards are built from downloaded thumbnails instead).
pub open spec fn has_row_body(shape: Shape) -> bool {
    shape == Shape::LinkedTextBlock || shape == Shape::TextBlock || shape
        == Shape::MarkdownTextBlock || shape == Shape::Text || shape == Shape::Entries || shape
        == Shape::Bars || shape == Shape::Badge || shape == Shape::Timeline
}

/// The body for a shape that needs no download; none for the others.
pub fn body_for_shape(rows: &[DealRow], shape: Shape) -> (r: Option<Body>)
    ensures
        r is Some <==> has_row_body(shape),
        r matches Some(b) ==> crate::payload::spec_shape_of(b) == shape && rows_body_ok(rows@, shape, b),
{
    match shape {
        Shape::LinkedTextBlock => Some(linked_text_block_body(rows)),
        Shape::TextBlock => Some(text_block_body(rows)),
        Shape::MarkdownTextBlock => Some(markdown_body(rows)),
        Shape::Text => Some(text_body(rows)),
        Shape::Entries => Some(entries_body(rows)),
        Shape::Bars => Some(bars_body(rows)),
        Shape::Badge => Some(badge_body(rows)),
        Shape::Timeline => Some(timeline_body(rows)),
        _ => None,
    }
}

/// What the row body of a shape is.
pub open spec fn rows_body_ok(rows: Seq<DealRow>, shape: Shape, b: Body) -> bool {
    match shape {
        Shape::LinkedTextBlock => linked_text_block_rows_ok(rows, b),
        Shape::TextBlock => text_block_rows_ok(rows, b),
        Shape::MarkdownTextBlock => markdown_rows_ok(rows, b),
        Shape::Text => text_rows_ok(rows, b),
        Shape::Entries => entries_rows_ok(rows, b),
        Shape::Bars => bars_rows_ok(rows, b),
        Shape::Badge => badge_rows_ok(rows, b),
        Shape::Timeline => timeline_rows_ok(rows, b),
        _ => linked_text_block_rows_ok(rows, b),
    }
}

/// The body for any shape but the card list: the shape's own body, linked rows for the
/// shapes the family does not draw.
pub fn render_rows(rows: &[DealRow], shape: Shape) -> (b: Body)
    ensures
        rows_body_ok(rows@, shape, b),
{
    match body_for_shape(rows, shape) {
        Some(b) => b,
        None => linked_text_block_body(rows),
    }
}

} // verus!
