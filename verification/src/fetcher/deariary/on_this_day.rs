//! `deariary_on_this_day` — past entries from the same calendar day 1, 3 and 6 months and
//! 1 to 5 years ago, fetched side by side. Anchors without an entry are skipped; the rows
//! keep the anchors' order, most recent past first.

use vstd::prelude::*;
use vstd::string::*;

use crate::fetcher::github::common::{cache_key as keyed_cache_key, spec_cache_key};
use crate::fetcher::{FetchContext, FetchError, OptionSchema, Safety};
use crate::payload::{
    spec_shape_of, BadgeData, Body, EntriesData, Entry, LinkedLine, LinkedTextBlockData,
    MarkdownTextBlockData, Status, TextBlockData, TextData, TimelineData, TimelineEvent,
};
use crate::render::{shape_in, Shape};
use crate::samples;
use crate::text::{opt_str_view, opt_string_view};
use crate::text::{dec, join, join_strings, views};
use crate::time::{
    day_number, epoch_day, lemma_months_before_earlier, months_before, noon_utc_seconds,
    spec_months_before, valid_date, Date,
};

use super::client::{entry_url, spec_entry_url, ApiEntry};

verus! {

/// The `deariary_on_this_day` fetcher.
pub struct DeariaryOnThisDay;

/// Widget options.
#[derive(Debug, Default, Clone)]
pub struct Options {
    pub token: Option<String>,
}

/// Number of look-back anchors.
pub const ANCHOR_COUNT: usize = 8;

/// Label of anchor `i`, most recent first.
pub open spec fn anchor_label(i: int) -> Seq<char> {
    if i == 0 {
        "1 month ago"@
    } else if i == 1 {
        "3 months ago"@
    } else if i == 2 {
        "6 months ago"@
    } else if i == 3 {
        "1 year ago"@
    } else if i == 4 {
        "2 years ago"@
    } else if i == 5 {
        "3 years ago"@
    } else if i == 6 {
        "4 years ago"@
    } else {
        "5 years ago"@
    }
}

/// Months back of anchor `i`.
pub open spec fn anchor_months(i: int) -> u32 {
    if i == 0 {
        1
    } else if i == 1 {
        3
    } else if i == 2 {
        6
    } else if i == 3 {
        12
    } else if i == 4 {
        24
    } else if i == 5 {
        36
    } else if i == 6 {
        48
    } else {
        60
    }
}

/// Label and months back of anchor `i`.
pub fn anchor(i: usize) -> (r: (&'static str, u32))
    requires
        i < 8,
    ensures
        r.0@ == anchor_label(i as int),
        r.1 == anchor_months(i as int),
{
    if i == 0 {
        ("1 month ago", 1)
    } else if i == 1 {
        ("3 months ago", 3)
    } else if i == 2 {
        ("6 months ago", 6)
    } else if i == 3 {
        ("1 year ago", 12)
    } else if i == 4 {
        ("2 years ago", 24)
    } else if i == 5 {
        ("3 years ago", 36)
    } else if i == 6 {
        ("4 years ago", 48)
    } else {
        ("5 years ago", 60)
    }
}

/// Every anchor, most recent first.
#[verifier::spinoff_prover]
pub fn anchors() -> (r: Vec<(&'static str, u32)>)
    ensures
        r@.len() == 8,
        forall|i: int| 0 <= i < 8 ==> #[trigger] r@[i].0@ == anchor_label(i) && r@[i].1 == anchor_months(i),
{
    let mut r: Vec<(&'static str, u32)> = Vec::new();
    let mut i: usize = 0;
    while i < ANCHOR_COUNT
        invariant
            i <= 8,
            r@.len() == i,
            forall|j: int| 0 <= j < i ==> #[trigger] r@[j].0@ == anchor_label(j) && r@[j].1 == anchor_months(j),
        decreases 8 - i,
    {
        r.push(anchor(i));
        i = i + 1;
    }
    r
}

pub open spec fn spec_shapes() -> Seq<Shape> {
    seq![
        Shape::TextBlock,
        Shape::Timeline,
        Shape::Text,
        Shape::MarkdownTextBlock,
        Shape::LinkedTextBlock,
        Shape::Entries,
        Shape::Badge,
    ]
}

impl DeariaryOnThisDay {
    /// Catalog name.
    pub fn name(&self) -> (r: &'static str)
        ensures
            r@ == "deariary_on_this_day"@,
    {
        "deariary_on_this_day"
    }

    /// Trust class.
    pub fn safety(&self) -> (r: Safety)
        ensures
            r == Safety::Safe,
    {
        Safety::Safe
    }

    /// One-paragraph catalog description.
    pub fn description(&self) -> (r: &'static str)
        ensures
            r@ == "Past auto-generated deariary.com entries from the same calendar day, fetched in parallel for 1m / 3m / 6m / 1y / 2y / 3y / 4y / 5y ago. Anchors with no entry are silently skipped. `TextBlock` is the default; `Timeline` plots the surviving anchors chronologically; `LinkedTextBlock` is a list of clickable rows; `Text` and `Badge` headline the most distant hit."@,
    {
        "Past auto-generated deariary.com entries from the same calendar day, fetched in parallel for 1m / 3m / 6m / 1y / 2y / 3y / 4y / 5y ago. Anchors with no entry are silently skipped. `TextBlock` is the default; `Timeline` plots the surviving anchors chronologically; `LinkedTextBlock` is a list of clickable rows; `Text` and `Badge` headline the most distant hit."
    }

    /// Shapes this fetcher can produce.
    pub fn shapes(&self) -> (r: Vec<Shape>)
        ensures
            r@ == spec_shapes(),
    {
        let r = vec![
            Shape::TextBlock,
            Shape::Timeline,
            Shape::Text,
            Shape::MarkdownTextBlock,
            Shape::LinkedTextBlock,
            Shape::Entries,
            Shape::Badge,
        ];
        assert(r@ =~= spec_shapes());
        r
    }

    /// Shape used when the widget names none.
    pub fn default_shape(&self) -> (r: Shape)
        ensures
            r == Shape::TextBlock,
    {
        Shape::TextBlock
    }

    /// Documented options.
    pub fn option_schemas(&self) -> (r: Vec<OptionSchema>)
        ensures
            r@.len() == 1,
            r@[0].name@ == "token"@,
            r@[0].default is None,
    {
        vec![
            OptionSchema {
                name: "token",
                type_hint: "string",
                required: false,
                default: None,
                description: "Deariary API token. Falls back to the `DEARIARY_TOKEN` env var.",
            },
        ]
    }

    /// Cache key: the context plus the serialized options.
    pub fn cache_key(&self, ctx: &FetchContext, options_text: &str) -> (k: String)
        ensures
            k@ == spec_cache_key("deariary_on_this_day"@, *ctx, options_text@),
    {
        keyed_cache_key("deariary_on_this_day", ctx, options_text)
    }

    /// Catalog sample for a supported shape.
    pub fn sample_body(&self, shape: Shape) -> (r: Option<Body>)
        ensures
            r is Some <==> shape_in(shape, spec_shapes()),
            r matches Some(b) ==> spec_shape_of(b) == shape,
            shape == Shape::Badge ==> (r matches Some(Body::Badge(d)) && d.status == Status::Okay
                && d.label@ == "📔 3 years ago"@),
            shape == Shape::TextBlock ==> (r matches Some(b) && samples::lines_are(
                b,
                seq![
                    "1 month ago — Reviewing PRs and shipping the heatmap renderer"@,
                    "1 year ago — A quiet writing day"@,
                    "3 years ago — First commit on splashboard"@,
                ],
            )),
            shape == Shape::Timeline ==> (r matches Some(b) && samples::events_are(
                b,
                seq![
                    (
                        1_775_000_000i64,
                        "Reviewing PRs and shipping the heatmap renderer"@,
                        Some("1 month ago"@),
                    ),
                    (1_745_000_000i64, "A quiet writing day"@, Some("1 year ago"@)),
                    (1_682_000_000i64, "First commit on splashboard"@, Some("3 years ago"@)),
                ],
            )),
            shape == Shape::Text ==> (r matches Some(Body::Text(d)) && d.value@
                == "📔 3 years ago: First commit on splashboard"@),
            shape == Shape::MarkdownTextBlock ==> (r matches Some(Body::MarkdownTextBlock(d))
                && d.value@
                == "- **1 month ago** — Reviewing PRs and shipping the heatmap renderer\n- **1 year ago** — A quiet writing day\n- **3 years ago** — First commit on splashboard"@),
            shape == Shape::LinkedTextBlock ==> (r matches Some(b) && samples::links_are(
                b,
                seq![
                    ("1 month ago — Reviewing PRs"@, Some("https://app.deariary.com/entries/2026/03/27"@)),
                    ("1 year ago — A quiet writing day"@, Some("https://app.deariary.com/entries/2025/04/27"@)),
                    ("3 years ago — First commit"@, Some("https://app.deariary.com/entries/2023/04/27"@)),
                ],
            )),
            shape == Shape::Entries ==> (r matches Some(b) && samples::entries_are(
                b,
                seq![
                    ("1 month ago"@, "Reviewing PRs"@),
                    ("1 year ago"@, "A quiet writing day"@),
                    ("3 years ago"@, "First commit on splashboard"@),
                ],
            )),
    {
        assert(spec_shapes()[0] == Shape::TextBlock);
        assert(spec_shapes()[1] == Shape::Timeline);
        assert(spec_shapes()[2] == Shape::Text);
        assert(spec_shapes()[3] == Shape::MarkdownTextBlock);
        assert(spec_shapes()[4] == Shape::LinkedTextBlock);
        assert(spec_shapes()[5] == Shape::Entries);
        assert(spec_shapes()[6] == Shape::Badge);
        match shape {
            Shape::TextBlock => Some(lines_sample()),
            Shape::Timeline => Some(timeline_sample()),
            Shape::Text => Some(samples::text("📔 3 years ago: First commit on splashboard")),
            Shape::MarkdownTextBlock => Some(
                samples::markdown(
                    "- **1 month ago** — Reviewing PRs and shipping the heatmap renderer\n- **1 year ago** — A quiet writing day\n- **3 years ago** — First commit on splashboard",
                ),
            ),
            Shape::LinkedTextBlock => Some(linked_sample()),
            Shape::Entries => Some(entries_sample()),
            Shape::Badge => Some(samples::badge(Status::Okay, "📔 3 years ago")),
            _ => None,
        }
    }
}

/// The text-block sample: three past entries.
fn lines_sample() -> (b: Body)
    ensures
        samples::lines_are(
            b,
            seq![
                "1 month ago — Reviewing PRs and shipping the heatmap renderer"@,
                "1 year ago — A quiet writing day"@,
                "3 years ago — First commit on splashboard"@,
            ],
        ),
        spec_shape_of(b) == Shape::TextBlock,
{
    samples::text_block(
        &[
            "1 month ago — Reviewing PRs and shipping the heatmap renderer",
            "1 year ago — A quiet writing day",
            "3 years ago — First commit on splashboard",
        ],
    )
}

/// The timeline sample: three past entries, dated.
fn timeline_sample() -> (b: Body)
    ensures
        samples::events_are(
            b,
            seq![
                (1_775_000_000i64, "Reviewing PRs and shipping the heatmap renderer"@, Some("1 month ago"@)),
                (1_745_000_000i64, "A quiet writing day"@, Some("1 year ago"@)),
                (1_682_000_000i64, "First commit on splashboard"@, Some("3 years ago"@)),
            ],
        ),
        spec_shape_of(b) == Shape::Timeline,
{
    samples::timeline(
        &[
            (1_775_000_000, "Reviewing PRs and shipping the heatmap renderer", Some("1 month ago")),
            (1_745_000_000, "A quiet writing day", Some("1 year ago")),
            (1_682_000_000, "First commit on splashboard", Some("3 years ago")),
        ],
    )
}

/// The entries sample: three past entries under their anchors.
fn entries_sample() -> (b: Body)
    ensures
        samples::entries_are(
            b,
            seq![
                ("1 month ago"@, "Reviewing PRs"@),
                ("1 year ago"@, "A quiet writing day"@),
                ("3 years ago"@, "First commit on splashboard"@),
            ],
        ),
        spec_shape_of(b) == Shape::Entries,
{
    samples::entries(
        &[
            ("1 month ago", "Reviewing PRs"),
            ("1 year ago", "A quiet writing day"),
            ("3 years ago", "First commit on splashboard"),
        ],
    )
}

/// The linked sample: three past entries with their links.
fn linked_sample() -> (b: Body)
    ensures
        samples::links_are(
            b,
            seq![
                ("1 month ago — Reviewing PRs"@, Some("https://app.deariary.com/entries/2026/03/27"@)),
                ("1 year ago — A quiet writing day"@, Some("https://app.deariary.com/entries/2025/04/27"@)),
                ("3 years ago — First commit"@, Some("https://app.deariary.com/entries/2023/04/27"@)),
            ],
        ),
        spec_shape_of(b) == Shape::LinkedTextBlock,
{
    samples::linked_text_block(
        &[
            ("1 month ago — Reviewing PRs", Some("https://app.deariary.com/entries/2026/03/27")),
            ("1 year ago — A quiet writing day", Some("https://app.deariary.com/entries/2025/04/27")),
            ("3 years ago — First commit", Some("https://app.deariary.com/entries/2023/04/27")),
        ],
    )
}

/// The day `months` months before today, clamped to a shorter month's last day; none
/// before the earliest representable date.
pub fn anchor_date(today: Date, months: u32) -> (r: Option<Date>)
    requires
        valid_date(today),
    ensures
        r == spec_months_before(today, months as int),
{
    months_before(today, months)
}

/// `(anchor, date)` of the anchors whose date exists, in anchor order.
pub open spec fn spec_anchor_dates(today: Date, n: int) -> Seq<(usize, Date)>
    decreases n,
{
    if n <= 0 {
        Seq::empty()
    } else {
        let rest = spec_anchor_dates(today, n - 1);
        match spec_months_before(today, anchor_months(n - 1) as int) {
            Some(d) => rest.push(((n - 1) as usize, d)),
            None => rest,
        }
    }
}

/// How far back a number of months reads: `1 month ago`, `N months ago` under a year,
/// `1 year ago` and `N years ago` for whole years.
pub open spec fn ago_text(months: nat) -> Seq<char> {
    if months % 12 == 0 && months >= 12 {
        if months == 12 {
            "1 year ago"@
        } else {
            dec(months / 12) + " years ago"@
        }
    } else if months == 1 {
        "1 month ago"@
    } else {
        dec(months) + " months ago"@
    }
}

/// Each anchor's label says how far back it looks (`N years ago` is 12·N months), and
/// every anchor looks strictly further back than the one before it.
pub proof fn lemma_anchor_labels_match_months(i: int, j: int)
    requires
        0 <= i < j < 8,
    ensures
        anchor_label(i) == ago_text(anchor_months(i) as nat),
        anchor_label(j) == ago_text(anchor_months(j) as nat),
        anchor_months(i) < anchor_months(j),
{
    lemma_anchor_label_matches(i);
    lemma_anchor_label_matches(j);
}

proof fn lemma_anchor_label_matches(i: int)
    requires
        0 <= i < 8,
    ensures
        anchor_label(i) == ago_text(anchor_months(i) as nat),
{
    reveal_strlit("1 month ago");
    reveal_strlit("3 months ago");
    reveal_strlit("6 months ago");
    reveal_strlit("1 year ago");
    reveal_strlit("2 years ago");
    reveal_strlit("3 years ago");
    reveal_strlit("4 years ago");
    reveal_strlit("5 years ago");
    reveal_strlit(" months ago");
    reveal_strlit(" years ago");
    let m = anchor_months(i) as nat;
    if m % 12 == 0 && m >= 12 && m != 12 {
        assert(dec(m / 12) == seq![crate::text::digit_char(m / 12)]);
        assert(anchor_label(i) =~= dec(m / 12) + " years ago"@);
    } else if m != 1 && m != 12 {
        assert(dec(m) == seq![crate::text::digit_char(m)]);
        assert(anchor_label(i) =~= dec(m) + " months ago"@);
    }
}

/// `x` is an earlier anchor than `y` and looks up a later day.
pub open spec fn comes_before(x: (usize, Date), y: (usize, Date)) -> bool {
    x.0 < y.0 && day_number(y.1) < day_number(x.1)
}

/// `(anchor, date)` pairs come in anchor order, each date strictly earlier than the one
/// before it, and each is the day its anchor's months back give.
pub open spec fn anchor_dates_ordered(today: Date, s: Seq<(usize, Date)>) -> bool {
    &&& forall|a: int, b: int| 0 <= a < b < s.len() ==> #[trigger] comes_before(s[a], s[b])
    &&& forall|a: int|
        0 <= a < s.len() ==> #[trigger] s[a].0 < 8 && spec_months_before(
            today,
            anchor_months(s[a].0 as int) as int,
        ) == Some(s[a].1)
}

/// For a real day, the anchor dates come strictly earlier with each anchor: no two anchors
/// look up the same day, and further anchors look up earlier days.
pub proof fn lemma_anchor_dates_decrease(today: Date, n: int)
    requires
        valid_date(today),
        0 <= n <= 8,
    ensures
        anchor_dates_ordered(today, spec_anchor_dates(today, n)),
        forall|a: int| 0 <= a < spec_anchor_dates(today, n).len() ==> #[trigger] spec_anchor_dates(today, n)[a].0 < n,
    decreases n,
{
    if n > 0 {
        lemma_anchor_dates_decrease(today, n - 1);
        let rest = spec_anchor_dates(today, n - 1);
        assert(anchor_dates_ordered(today, rest));
        match spec_months_before(today, anchor_months(n - 1) as int) {
            Some(d) => {
                let s = rest.push(((n - 1) as usize, d));
                assert forall|a: int, b: int| 0 <= a < b < s.len() implies #[trigger] comes_before(
                    s[a],
                    s[b],
                ) by {
                    if b == s.len() - 1 {
                        assert(s[a] == rest[a]);
                        assert(s[b] == ((n - 1) as usize, d));
                        let ia = rest[a].0 as int;
                        assert(rest[a].0 < n - 1);
                        assert(spec_months_before(today, anchor_months(ia) as int) == Some(rest[a].1));
                        lemma_anchor_labels_match_months(ia, n - 1);
                        lemma_months_before_earlier(
                            today,
                            anchor_months(ia) as int,
                            anchor_months(n - 1) as int,
                        );
                        assert(day_number(d) < day_number(rest[a].1));
                    } else {
                        assert(s[a] == rest[a] && s[b] == rest[b]);
                        assert(comes_before(rest[a], rest[b]));
                    }
                }
                assert forall|a: int| 0 <= a < s.len() implies #[trigger] s[a].0 < 8
                    && spec_months_before(today, anchor_months(s[a].0 as int) as int) == Some(
                    s[a].1,
                ) by {
                    if a < rest.len() {
                        assert(s[a] == rest[a]);
                    }
                }
                assert forall|a: int| 0 <= a < s.len() implies #[trigger] s[a].0 < n by {
                    if a < rest.len() {
                        assert(s[a] == rest[a]);
                    }
                }
            },
            None => {},
        }
    }
}

/// The dates to look up, one per anchor that has one.
pub fn anchor_dates(today: Date) -> (r: Vec<(usize, Date)>)
    requires
        valid_date(today),
    ensures
        r@ == spec_anchor_dates(today, 8),
{
    let mut r: Vec<(usize, Date)> = Vec::new();
    let mut i: usize = 0;
    while i < ANCHOR_COUNT
        invariant
            i <= 8,
            valid_date(today),
            r@ == spec_anchor_dates(today, i as int),
        decreases 8 - i,
    {
        let (_, months) = anchor(i);
        match anchor_date(today, months) {
            Some(d) => r.push((i, d)),
            None => {},
        }
        i = i + 1;
    }
    r
}

/// Entries that came back, in arrival order.
pub open spec fn arrived_hits(results: Seq<(usize, Result<Option<ApiEntry>, FetchError>)>) -> Seq<(usize, ApiEntry)>
    decreases results.len(),
{
    if results.len() == 0 {
        Seq::empty()
    } else {
        let rest = arrived_hits(results.drop_last());
        match results.last().1 {
            Ok(Some(e)) => rest.push((results.last().0, e)),
            _ => rest,
        }
    }
}

/// Lookups that failed.
pub open spec fn failures(results: Seq<(usize, Result<Option<ApiEntry>, FetchError>)>) -> nat
    decreases results.len(),
{
    if results.len() == 0 {
        0
    } else {
        failures(results.drop_last()) + (if results.last().1 is Err { 1nat } else { 0nat })
    }
}

/// The error of the last failed lookup to arrive.
pub open spec fn last_failure(results: Seq<(usize, Result<Option<ApiEntry>, FetchError>)>) -> Option<FetchError>
    decreases results.len(),
{
    if results.len() == 0 {
        None
    } else {
        match results.last().1 {
            Err(e) => Some(e),
            _ => last_failure(results.drop_last()),
        }
    }
}

/// Inserts a hit after every hit of a smaller or equal anchor.
pub open spec fn insert_hit(s: Seq<(usize, ApiEntry)>, x: (usize, ApiEntry)) -> Seq<(usize, ApiEntry)>
    decreases s.len(),
{
    if s.len() == 0 {
        seq![x]
    } else if x.0 < s[0].0 {
        seq![x] + s
    } else {
        seq![s[0]] + insert_hit(s.drop_first(), x)
    }
}

/// Hits ordered by anchor, hits of one anchor in arrival order (a stable sort).
pub open spec fn sort_hits(s: Seq<(usize, ApiEntry)>) -> Seq<(usize, ApiEntry)>
    decreases s.len(),
{
    if s.len() == 0 {
        s
    } else {
        insert_hit(sort_hits(s.drop_last()), s.last())
    }
}

proof fn lemma_insert_hit_at(s: Seq<(usize, ApiEntry)>, x: (usize, ApiEntry), p: int)
    requires
        0 <= p <= s.len(),
        forall|k: int| 0 <= k < p ==> !(x.0 < #[trigger] s[k].0),
        p == s.len() || x.0 < s[p].0,
    ensures
        insert_hit(s, x) == s.insert(p, x),
    decreases p,
{
    if s.len() == 0 {
        assert(s.insert(p, x) =~= seq![x]);
    } else if p == 0 {
        assert(s.insert(0, x) =~= seq![x] + s);
    } else {
        let t = s.drop_first();
        assert forall|k: int| 0 <= k < p - 1 implies !(x.0 < #[trigger] t[k].0) by {
            assert(t[k] == s[k + 1]);
        }
        lemma_insert_hit_at(t, x, p - 1);
        assert(s.insert(p, x) =~= seq![s[0]] + t.insert(p - 1, x));
    }
}

/// Outcome of the look-ups, given as `(anchor, outcome)` in arrival order, of `spawned`
/// started ones: the error of the last failure when every look-up failed and none
/// returned an entry, else the entries ordered by anchor.
pub open spec fn spec_gather(results: Seq<(usize, Result<Option<ApiEntry>, FetchError>)>, spawned: nat) -> Result<
    Seq<(usize, ApiEntry)>,
    FetchError,
> {
    let hits = arrived_hits(results);
    if hits.len() == 0 && failures(results) == spawned && spawned > 0 && last_failure(results) is Some {
        Err(last_failure(results).unwrap())
    } else {
        Ok(sort_hits(hits))
    }
}

/// Hits ordered by anchor: no hit follows one of a later anchor.
pub open spec fn hits_in_anchor_order(s: Seq<(usize, ApiEntry)>) -> bool {
    forall|i: int, j: int| 0 <= i < j < s.len() ==> s[i].0 <= s[j].0
}

proof fn lemma_insert_hit_keeps_order(s: Seq<(usize, ApiEntry)>, x: (usize, ApiEntry))
    requires
        hits_in_anchor_order(s),
    ensures
        hits_in_anchor_order(insert_hit(s, x)),
        insert_hit(s, x).to_multiset() == s.to_multiset().insert(x),
    decreases s.len(),
{
    broadcast use vstd::multiset::group_multiset_axioms;
    broadcast use vstd::seq_lib::group_to_multiset_ensures;
    let r = insert_hit(s, x);
    if s.len() == 0 {
        assert(r =~= s.push(x));
    } else if x.0 < s[0].0 {
        assert(r =~= seq![x] + s);
        assert forall|i: int, j: int| 0 <= i < j < r.len() implies r[i].0 <= r[j].0 by {
            if i == 0 {
                assert(r[j] == s[j - 1]);
                if j - 1 > 0 {
                    assert(s[0].0 <= s[j - 1].0);
                }
            } else {
                assert(r[i] == s[i - 1] && r[j] == s[j - 1]);
            }
        }
        vstd::seq_lib::lemma_multiset_commutative(seq![x], s);
        assert(s + seq![x] =~= s.push(x));
    } else {
        let t = s.drop_first();
        assert(hits_in_anchor_order(t)) by {
            assert forall|i: int, j: int| 0 <= i < j < t.len() implies t[i].0 <= t[j].0 by {
                assert(t[i] == s[i + 1] && t[j] == s[j + 1]);
            }
        }
        lemma_insert_hit_keeps_order(t, x);
        let u = insert_hit(t, x);
        assert(r =~= seq![s[0]] + u);
        assert forall|i: int, j: int| 0 <= i < j < r.len() implies r[i].0 <= r[j].0 by {
            if i == 0 {
                assert(r[j] == u[j - 1]);
                assert(u.contains(u[j - 1]));
                if u[j - 1] != x {
                    assert(u.to_multiset().count(u[j - 1]) > 0);
                    assert(t.to_multiset().insert(x).count(u[j - 1]) == t.to_multiset().count(u[j - 1]));
                    assert(t.to_multiset().count(u[j - 1]) > 0);
                    assert(t.contains(u[j - 1]));
                    let k = choose|k: int| 0 <= k < t.len() && t[k] == u[j - 1];
                    assert(s[k + 1] == t[k]);
                }
            } else {
                assert(r[i] == u[i - 1] && r[j] == u[j - 1]);
            }
        }
        vstd::seq_lib::lemma_multiset_commutative(seq![s[0]], u);
        vstd::seq_lib::lemma_multiset_commutative(seq![s[0]], t);
        assert(seq![s[0]] + t =~= s);
        assert(u + seq![s[0]] =~= u.push(s[0]));
        assert(t + seq![s[0]] =~= t.push(s[0]));
        assert(r.to_multiset() =~= s.to_multiset().insert(x));
    }
}

/// Sorting hits orders them by anchor and keeps exactly the hits it was given.
pub proof fn lemma_sort_hits(s: Seq<(usize, ApiEntry)>)
    ensures
        hits_in_anchor_order(sort_hits(s)),
        sort_hits(s).to_multiset() == s.to_multiset(),
    decreases s.len(),
{
    broadcast use vstd::multiset::group_multiset_axioms;
    broadcast use vstd::seq_lib::group_to_multiset_ensures;
    if s.len() > 0 {
        lemma_sort_hits(s.drop_last());
        lemma_insert_hit_keeps_order(sort_hits(s.drop_last()), s.last());
        assert(s.drop_last().push(s.last()) =~= s);
    }
}

/// Whatever order the look-ups finish in, the hits come out ordered by anchor (most
/// recent past first), and they are exactly the entries that came back.
pub proof fn lemma_hits_in_anchor_order(results: Seq<(usize, Result<Option<ApiEntry>, FetchError>)>, spawned: nat)
    ensures
        spec_gather(results, spawned) matches Ok(h) ==> hits_in_anchor_order(h)
            && h.to_multiset() == arrived_hits(results).to_multiset(),
{
    lemma_sort_hits(arrived_hits(results));
}

/// Combines the per-anchor look-ups, in the order they finished.
pub fn gather_hits(results: Vec<(usize, Result<Option<ApiEntry>, FetchError>)>, spawned: usize) -> (r: Result<
    Vec<(usize, ApiEntry)>,
    FetchError,
>)
    ensures
        match spec_gather(results@, spawned as nat) {
            Ok(h) => r matches Ok(v) && v@ == h,
            Err(e) => r matches Err(x) && x == e,
        },
{
    let ghost rs = results@;
    let n = results.len();
    let mut rest = results;
    let mut sorted: Vec<(usize, ApiEntry)> = Vec::new();
    let mut any_hit = false;
    let mut errors: usize = 0;
    let mut last: Option<FetchError> = None;
    let mut i: usize = 0;
    assert(rs.take(0) =~= Seq::<(usize, Result<Option<ApiEntry>, FetchError>)>::empty());
    assert(rest@ =~= rs.skip(0));
    while rest.len() > 0
        invariant
            n == rs.len(),
            i <= rs.len(),
            rest@ =~= rs.skip(i as int),
            sorted@ == sort_hits(arrived_hits(rs.take(i as int))),
            any_hit == (arrived_hits(rs.take(i as int)).len() > 0),
            errors == failures(rs.take(i as int)),
            errors <= i,
            last == last_failure(rs.take(i as int)),
        decreases rest@.len(),
    {
        let ghost pre = arrived_hits(rs.take(i as int));
        assert(rs.take(i + 1).drop_last() =~= rs.take(i as int));
        assert(rest@[0] == rs[i as int]);
        assert(rs.take(i + 1).last() == rs[i as int]);
        let (idx, outcome) = rest.remove(0);
        assert(rest@ =~= rs.skip(i + 1));
        match outcome {
            Ok(Some(e)) => {
                let ghost x = (idx, e);
                let mut p: usize = 0;
                while p < sorted.len() && !(idx < sorted[p].0)
                    invariant
                        p <= sorted@.len(),
                        forall|k: int| 0 <= k < p ==> !(idx < #[trigger] sorted@[k].0),
                    decreases sorted@.len() - p,
                {
                    p = p + 1;
                }
                proof {
                    lemma_insert_hit_at(sorted@, x, p as int);
                    assert(arrived_hits(rs.take(i + 1)) =~= pre.push(x));
                    assert(pre.push(x).drop_last() =~= pre);
                }
                sorted.insert(p, (idx, e));
                any_hit = true;
            },
            Ok(None) => {},
            Err(err) => {
                errors = errors + 1;
                last = Some(err);
            },
        }
        i = i + 1;
    }
    assert(rs.take(rs.len() as int) =~= rs);
    if !any_hit && errors == spawned && spawned > 0 {
        match last {
            Some(e) => return Err(e),
            None => {},
        }
    }
    Ok(sorted)
}

/// `label — title` of a hit.
pub open spec fn hit_line(h: (usize, ApiEntry)) -> Seq<char> {
    anchor_label(h.0 as int) + " — "@ + h.1.title@
}

/// `- **label** — title` of a hit.
pub open spec fn hit_markdown(h: (usize, ApiEntry)) -> Seq<char> {
    "- **"@ + anchor_label(h.0 as int) + "** — "@ + h.1.title@
}

fn hit_line_of(h: &(usize, ApiEntry)) -> (s: String)
    requires
        h.0 < 8,
    ensures
        s@ == hit_line(*h),
{
    let (label, _) = anchor(h.0);
    let mut s = String::from_str(label);
    s.append(" — ");
    s.append(h.1.title.as_str());
    s
}

fn hit_markdown_of(h: &(usize, ApiEntry)) -> (s: String)
    requires
        h.0 < 8,
    ensures
        s@ == hit_markdown(*h),
{
    let (label, _) = anchor(h.0);
    let mut s = String::from_str("- **");
    s.append(label);
    s.append("** — ");
    s.append(h.1.title.as_str());
    s
}

/// Noon UTC of an anchor's date, when the date exists.
pub open spec fn anchor_noon(today: Date, idx: int) -> Option<i64> {
    match spec_months_before(today, anchor_months(idx) as int) {
        Some(d) => Some(((day_number(d) - epoch_day()) * 86400 + 43200) as i64),
        None => None,
    }
}

/// The hits whose anchor date exists, as timeline events: (time, title, label).
pub open spec fn timeline_rows(hits: Seq<(usize, ApiEntry)>, today: Date) -> Seq<(i64, String, Seq<char>)>
    decreases hits.len(),
{
    if hits.len() == 0 {
        Seq::empty()
    } else {
        let rest = timeline_rows(hits.drop_last(), today);
        let h = hits.last();
        match anchor_noon(today, h.0 as int) {
            Some(t) => rest.push((t, h.1.title, anchor_label(h.0 as int))),
            None => rest,
        }
    }
}

/// All anchors are known ones.
pub open spec fn known_anchors(hits: Seq<(usize, ApiEntry)>) -> bool {
    forall|i: int| 0 <= i < hits.len() ==> #[trigger] hits[i].0 < 8
}

/// What `render_body` yields for each shape.
pub open spec fn on_this_day_body_ok(hits: Seq<(usize, ApiEntry)>, shape: Shape, today: Date, b: Body) -> bool {
    match shape {
        Shape::Text => b matches Body::Text(d) && d.value@ == (if hits.len() == 0 {
            Seq::empty()
        } else {
            "📔 "@ + anchor_label(hits.last().0 as int) + ": "@ + hits.last().1.title@
        }),
        Shape::MarkdownTextBlock => b matches Body::MarkdownTextBlock(d) && d.value@ == join(
            Seq::new(hits.len(), |i: int| hit_markdown(hits[i])),
            "\n"@,
        ),
        Shape::LinkedTextBlock => b matches Body::LinkedTextBlock(d) && d.items@.len() == hits.len()
            && forall|i: int|
            0 <= i < hits.len() ==> #[trigger] d.items@[i].text@ == hit_line(hits[i])
                && opt_string_view(d.items@[i].url) == Some(spec_entry_url(hits[i].1.date@)),
        Shape::Entries => b matches Body::Entries(d) && d.items@.len() == hits.len() && forall|i: int|
            0 <= i < hits.len() ==> #[trigger] d.items@[i].key@ == anchor_label(hits[i].0 as int)
                && opt_string_view(d.items@[i].value) == Some(hits[i].1.title@)
                && d.items@[i].status is None,
        Shape::Badge => b matches Body::Badge(d) && (if hits.len() == 0 {
            d.status == Status::Warn && d.label@ == "📔 no past entries"@
        } else {
            d.status == Status::Okay && d.label@ == "📔 "@ + anchor_label(hits.last().0 as int)
        }),
        Shape::Timeline => b matches Body::Timeline(d) && events_match(
            d.events@,
            timeline_rows(hits, today),
        ),
        _ => b matches Body::TextBlock(d) && d.lines@.len() == hits.len() && forall|i: int|
            0 <= i < hits.len() ==> #[trigger] d.lines@[i]@ == hit_line(hits[i]),
    }
}

/// Timeline events carrying exactly the given (time, title, label) rows.
pub open spec fn events_match(events: Seq<TimelineEvent>, rows: Seq<(i64, String, Seq<char>)>) -> bool {
    events.len() == rows.len() && forall|i: int|
        0 <= i < rows.len() ==> #[trigger] events[i].timestamp == rows[i].0 && events[i].title
            == rows[i].1 && opt_string_view(events[i].detail) == Some(rows[i].2) && events[i].status is None
}

fn timeline_body(hits: &[(usize, ApiEntry)], today: Date) -> (b: Body)
    requires
        valid_date(today),
        known_anchors(hits@),
    ensures
        b matches Body::Timeline(d) && events_match(d.events@, timeline_rows(hits@, today)),
{
    let mut events: Vec<TimelineEvent> = Vec::new();
    let mut i: usize = 0;
    assert(hits@.take(0) =~= Seq::<(usize, ApiEntry)>::empty());
    while i < hits.len()
        invariant
            i <= hits@.len(),
            valid_date(today),
            known_anchors(hits@),
            events_match(events@, timeline_rows(hits@.take(i as int), today)),
        decreases hits@.len() - i,
    {
        let ghost pre = timeline_rows(hits@.take(i as int), today);
        let ghost before = events@;
        assert(hits@.take(i + 1).drop_last() =~= hits@.take(i as int));
        assert(hits@.take(i + 1).last() == hits@[i as int]);
        assert(hits@[i as int].0 < 8);
        let (label, months) = anchor(hits[i].0);
        match anchor_date(today, months) {
            Some(d) => {
                let ts = noon_utc_seconds(d);
                let ev = TimelineEvent {
                    timestamp: ts,
                    title: hits[i].1.title.clone(),
                    detail: Some(String::from_str(label)),
                    status: None,
                };
                events.push(ev);
                let ghost row = (ts, hits@[i as int].1.title, anchor_label(hits@[i as int].0 as int));
                assert(timeline_rows(hits@.take(i + 1), today) == pre.push(row));
                assert forall|k: int| 0 <= k < pre.len() + 1 implies #[trigger] events@[k].timestamp
                    == pre.push(row)[k].0 && events@[k].title == pre.push(row)[k].1 && opt_string_view(
                    events@[k].detail,
                ) == Some(pre.push(row)[k].2) && events@[k].status is None by {
                    if k < pre.len() {
                        assert(events@[k] == before[k]);
                    }
                }
            },
            None => {
                assert(timeline_rows(hits@.take(i + 1), today) == pre);
            },
        }
        i = i + 1;
    }
    assert(hits@.take(hits@.len() as int) =~= hits@);
    Body::Timeline(TimelineData { events })
}

/// Renders the hits (ordered by anchor) in the requested shape; unlisted shapes get the
/// text block. `Text` and `Badge` headline the most distant hit.
#[verifier::spinoff_prover]
pub fn render_body(hits: &[(usize, ApiEntry)], shape: Shape, today: Date) -> (b: Body)
    requires
        valid_date(today),
        known_anchors(hits@),
    ensures
        on_this_day_body_ok(hits@, shape, today, b),
{
    match shape {
        Shape::Text => {
            if hits.len() == 0 {
                Body::Text(TextData { value: String::new() })
            } else {
                let last = &hits[hits.len() - 1];
                assert(last.0 < 8);
                let (label, _) = anchor(last.0);
                let mut value = String::from_str("📔 ");
                value.append(label);
                value.append(": ");
                value.append(last.1.title.as_str());
                Body::Text(TextData { value })
            }
        },
        Shape::MarkdownTextBlock => {
            let mut items: Vec<String> = Vec::new();
            let mut i: usize = 0;
            while i < hits.len()
                invariant
                    i <= hits@.len(),
                    known_anchors(hits@),
                    items@.len() == i,
                    forall|j: int| 0 <= j < i ==> #[trigger] items@[j]@ == hit_markdown(hits@[j]),
                decreases hits@.len() - i,
            {
                assert(hits@[i as int].0 < 8);
                items.push(hit_markdown_of(&hits[i]));
                i = i + 1;
            }
            assert(views(items@) =~= Seq::new(hits@.len(), |i: int| hit_markdown(hits@[i])));
            let value = join_strings(&items, "\n");
            Body::MarkdownTextBlock(MarkdownTextBlockData { value })
        },
        Shape::LinkedTextBlock => {
            let mut items: Vec<LinkedLine> = Vec::new();
            let mut i: usize = 0;
            while i < hits.len()
                invariant
                    i <= hits@.len(),
                    known_anchors(hits@),
                    items@.len() == i,
                    forall|j: int|
                        0 <= j < i ==> #[trigger] items@[j].text@ == hit_line(hits@[j]) && opt_string_view(
                            items@[j].url,
                        ) == Some(spec_entry_url(hits@[j].1.date@)),
                decreases hits@.len() - i,
            {
                assert(hits@[i as int].0 < 8);
                items.push(
                    LinkedLine { text: hit_line_of(&hits[i]), url: Some(entry_url(hits[i].1.date.as_str())) },
                );
                i = i + 1;
            }
            Body::LinkedTextBlock(LinkedTextBlockData { items })
        },
        Shape::Entries => {
            let mut items: Vec<Entry> = Vec::new();
            let mut i: usize = 0;
            while i < hits.len()
                invariant
                    i <= hits@.len(),
                    known_anchors(hits@),
                    items@.len() == i,
                    forall|j: int|
                        0 <= j < i ==> #[trigger] items@[j].key@ == anchor_label(hits@[j].0 as int)
                            && opt_string_view(items@[j].value) == Some(hits@[j].1.title@)
                            && items@[j].status is None,
                decreases hits@.len() - i,
            {
                assert(hits@[i as int].0 < 8);
                let (label, _) = anchor(hits[i].0);
                items.push(
                    Entry {
                        key: String::from_str(label),
                        value: Some(hits[i].1.title.clone()),
                        status: None,
                    },
                );
                i = i + 1;
            }
            Body::Entries(EntriesData { items })
        },
        Shape::Badge => {
            if hits.len() == 0 {
                Body::Badge(
                    BadgeData { status: Status::Warn, label: String::from_str("📔 no past entries") },
                )
            } else {
                let last = &hits[hits.len() - 1];
                assert(last.0 < 8);
                let (label, _) = anchor(last.0);
                let mut text = String::from_str("📔 ");
                text.append(label);
                Body::Badge(BadgeData { status: Status::Okay, label: text })
            }
        },
        Shape::Timeline => timeline_body(hits, today),
        _ => {
            let mut lines: Vec<String> = Vec::new();
            let mut i: usize = 0;
            while i < hits.len()
                invariant
                    i <= hits@.len(),
                    known_anchors(hits@),
                    lines@.len() == i,
                    forall|j: int| 0 <= j < i ==> #[trigger] lines@[j]@ == hit_line(hits@[j]),
                decreases hits@.len() - i,
            {
                assert(hits@[i as int].0 < 8);
                lines.push(hit_line_of(&hits[i]));
                i = i + 1;
            }
            Body::TextBlock(TextBlockData { lines })
        },
    }
}

} // verus!
