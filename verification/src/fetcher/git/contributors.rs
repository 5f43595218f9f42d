//! `git_contributors` — commit authors over the last N days (30 unless the format names
//! another positive number), ranked by commit count with equal counts by name, at most
//! ten. `Bars` is the default; `Entries` lists `name: count`, `TextBlock` `name  count`
//! lines, `MarkdownTextBlock` a numbered list and `Text` a one-line summary.

use vstd::prelude::*;
use vstd::string::*;

use crate::fetcher::{FetchContext, OptionSchema, Safety};
use crate::payload::{Bar, BarsData, Body, EntriesData, Entry, MarkdownTextBlockData, TextBlockData};
use crate::rank::{rank_top, rows_view, sort_rows, tally, tally_ok};
use crate::render::Shape;
use crate::samples;
use crate::text::opt_string_view;
use crate::text::{dec, join, join_strings, u64_to_string, views};

use super::{repo_cache_key, spec_repo_cache_key, text_body};

pub use super::churn::{parse_days, DEFAULT_DAYS};

verus! {

/// The `git_contributors` fetcher.
pub struct GitContributors;

/// Authors kept in the ranking.
pub const MAX_ENTRIES: usize = 10;

pub open spec fn spec_shapes() -> Seq<Shape> {
    seq![Shape::Bars, Shape::Entries, Shape::TextBlock, Shape::MarkdownTextBlock, Shape::Text]
}

impl GitContributors {
    /// Catalog name.
    pub fn name(&self) -> (r: &'static str)
        ensures
            r@ == "git_contributors"@,
    {
        "git_contributors"
    }

    /// Trust class.
    pub fn safety(&self) -> (r: Safety)
        ensures
            r == Safety::Safe,
    {
        Safety::Safe
    }

    /// One-paragraph catalog description.
    pub fn description(&self) -> (r: &'static str)
        ensures
            r@ == "Top commit authors over the last N days (default 30, override with `format = \"N\"`), ranked by commit count and capped at ten. Bars/Entries/TextBlock/MarkdownTextBlock all carry the ranking; Text is the headline summary."@,
    {
        "Top commit authors over the last N days (default 30, override with `format = \"N\"`), ranked by commit count and capped at ten. Bars/Entries/TextBlock/MarkdownTextBlock all carry the ranking; Text is the headline summary."
    }

    /// Shapes this fetcher can produce.
    pub fn shapes(&self) -> (r: Vec<Shape>)
        ensures
            r@ == spec_shapes(),
    {
        let r = vec![Shape::Bars, Shape::Entries, Shape::TextBlock, Shape::MarkdownTextBlock, Shape::Text];
        assert(r@ =~= spec_shapes());
        r
    }

    /// Shape used when the widget names none.
    pub fn default_shape(&self) -> (r: Shape)
        ensures
            r == Shape::Bars,
    {
        Shape::Bars
    }

    /// Documented options.
    pub fn option_schemas(&self) -> (r: Vec<OptionSchema>)
        ensures
            r@.len() == 0,
    {
        vec![

        ]
    }

}


impl GitContributors {
    /// Cache key for the repository rooted at `root`.
    pub fn cache_key(&self, ctx: &FetchContext, root: &str) -> (k: String)
        ensures
            k@ == spec_repo_cache_key("git_contributors"@, root@, *ctx),
    {
        repo_cache_key("git_contributors", root, ctx)
    }

    /// Canned body per supported shape.
    pub fn sample_body(&self, shape: Shape) -> (r: Option<Body>)
        ensures
            shape == Shape::Text ==> (r matches Some(Body::Text(d)) && d.value@
                == "alice (42), bob (28), charlie (17), dave (9)"@),
            shape == Shape::MarkdownTextBlock ==> (r matches Some(Body::MarkdownTextBlock(d))
                && d.value@
                == "1. **alice** — 42\n2. **bob** — 28\n3. **charlie** — 17\n4. **dave** — 9"@),
            shape == Shape::Entries ==> (r matches Some(Body::Entries(d)) && d.items@.len() == 4),
            shape == Shape::Bars ==> (r matches Some(Body::Bars(d)) && d.bars@.len() == 4),
            shape == Shape::TextBlock ==> (r matches Some(Body::TextBlock(d)) && d.lines@.len()
                == 4),
            !(shape == Shape::Entries || shape == Shape::Bars || shape == Shape::TextBlock || shape
                == Shape::MarkdownTextBlock || shape == Shape::Text) ==> r is None,
    {
        match shape {
            Shape::Bars => Some(
                samples::bars(&[("alice", 42), ("bob", 28), ("charlie", 17), ("dave", 9)]),
            ),
            Shape::Entries => Some(
                samples::entries(
                    &[("alice", "42"), ("bob", "28"), ("charlie", "17"), ("dave", "9")],
                ),
            ),
            Shape::TextBlock => Some(
                samples::text_block(&["alice  42", "bob  28", "charlie  17", "dave  9"]),
            ),
            Shape::MarkdownTextBlock => Some(
                samples::markdown(
                    "1. **alice** — 42\n2. **bob** — 28\n3. **charlie** — 17\n4. **dave** — 9",
                ),
            ),
            Shape::Text => Some(samples::text("alice (42), bob (28), charlie (17), dave (9)")),
            _ => None,
        }
    }
}

/// Ranking of the commit authors (one name per commit): the ten most frequent authors,
/// most commits first and equal counts by name.
pub fn rank_authors(authors: &Vec<String>) -> (ranked: Vec<(String, u64)>)
    requires
        authors@.len() <= u64::MAX,
    ensures
        exists|totals: Seq<(Seq<char>, u64)>|
            tally_ok(views(authors@), totals) && rows_view(ranked@) == sort_rows(
                totals,
                true,
            ).take(if MAX_ENTRIES < totals.len() { MAX_ENTRIES as int } else { totals.len() as int }),
{
    let totals = tally(authors);
    let ranked = rank_top(&totals, MAX_ENTRIES);
    assert(tally_ok(views(authors@), rows_view(totals@)));
    ranked
}

/// `name  count`.
pub open spec fn name_count(r: (Seq<char>, u64)) -> Seq<char> {
    r.0 + "  "@ + dec(r.1 as nat)
}

/// `<n>. **name** — count`, numbered from 1.
pub open spec fn markdown_row(i: int, r: (Seq<char>, u64)) -> Seq<char> {
    dec((i + 1) as nat) + ". **"@ + r.0 + "** — "@ + dec(r.1 as nat)
}

/// `name (count)`.
pub open spec fn summary_row(r: (Seq<char>, u64)) -> Seq<char> {
    r.0 + " ("@ + dec(r.1 as nat) + ")"@
}

/// One bar per row: the author and the commit count.
pub open spec fn bars_ok(rows: Seq<(Seq<char>, u64)>, bars: Seq<Bar>) -> bool {
    &&& bars.len() == rows.len()
    &&& forall|i: int|
        0 <= i < rows.len() ==> #[trigger] bars[i].label@ == rows[i].0 && bars[i].value == rows[i].1
            && bars[i].value_label is None
}

/// One entry per row: the author and the commit count in decimal.
pub open spec fn entries_ok(rows: Seq<(Seq<char>, u64)>, items: Seq<Entry>) -> bool {
    &&& items.len() == rows.len()
    &&& forall|i: int|
        0 <= i < rows.len() ==> #[trigger] items[i].key@ == rows[i].0 && opt_string_view(
            items[i].value,
        ) == Some(dec(rows[i].1 as nat)) && items[i].status is None
}

/// What a ranking renders as, per shape (`Bars` for every shape not listed).
pub open spec fn contributors_body_ok(rows: Seq<(Seq<char>, u64)>, shape: Shape, b: Body) -> bool {
    match shape {
        Shape::Entries => b matches Body::Entries(d) && entries_ok(rows, d.items@),
        Shape::TextBlock => b matches Body::TextBlock(d) && views(d.lines@) == Seq::new(
            rows.len(),
            |i: int| name_count(rows[i]),
        ),
        Shape::MarkdownTextBlock => b matches Body::MarkdownTextBlock(d) && d.value@ == join(
            Seq::new(rows.len(), |i: int| markdown_row(i, rows[i])),
            "\n"@,
        ),
        Shape::Text => b matches Body::Text(d) && d.value@ == join(
            Seq::new(rows.len(), |i: int| summary_row(rows[i])),
            ", "@,
        ),
        _ => b matches Body::Bars(d) && bars_ok(rows, d.bars@),
    }
}

fn name_count_line(r: &(String, u64)) -> (s: String)
    ensures
        s@ == name_count((r.0@, r.1)),
{
    let mut s = String::from_str(r.0.as_str());
    s.append("  ");
    let c = u64_to_string(r.1);
    s.append(c.as_str());
    s
}

fn summary_line(r: &(String, u64)) -> (s: String)
    ensures
        s@ == summary_row((r.0@, r.1)),
{
    let mut s = String::from_str(r.0.as_str());
    s.append(" (");
    let c = u64_to_string(r.1);
    s.append(c.as_str());
    s.append(")");
    s
}

fn markdown_line(i: usize, r: &(String, u64)) -> (s: String)
    requires
        i < usize::MAX,
    ensures
        s@ == markdown_row(i as int, (r.0@, r.1)),
{
    let mut s = u64_to_string((i + 1) as u64);
    s.append(". **");
    s.append(r.0.as_str());
    s.append("** — ");
    let c = u64_to_string(r.1);
    s.append(c.as_str());
    s
}

/// Renders the ranking into the requested shape.
pub fn render_body(ranked: &Vec<(String, u64)>, shape: Shape) -> (b: Body)
    ensures
        contributors_body_ok(rows_view(ranked@), shape, b),
{
    let ghost rows = rows_view(ranked@);
    let n = ranked.len();
    match shape {
        Shape::Entries => {
            let mut items: Vec<Entry> = Vec::new();
            let mut i: usize = 0;
            while i < n
                invariant
                    n == ranked@.len(),
                    rows == rows_view(ranked@),
                    i <= n,
                    items@.len() == i,
                    forall|k: int|
                        0 <= k < i ==> #[trigger] items@[k].key@ == rows[k].0 && opt_string_view(
                            items@[k].value,
                        ) == Some(dec(rows[k].1 as nat)) && items@[k].status is None,
                decreases n - i,
            {
                items.push(
                    Entry {
                        key: String::from_str(ranked[i].0.as_str()),
                        value: Some(u64_to_string(ranked[i].1)),
                        status: None,
                    },
                );
                i += 1;
            }
            assert(items@.len() == rows.len());
            assert(entries_ok(rows, items@));
            Body::Entries(EntriesData { items })
        },
        Shape::TextBlock => {
            let mut lines: Vec<String> = Vec::new();
            let mut i: usize = 0;
            while i < n
                invariant
                    n == ranked@.len(),
                    rows == rows_view(ranked@),
                    i <= n,
                    lines@.len() == i,
                    forall|k: int| 0 <= k < i ==> #[trigger] lines@[k]@ == name_count(rows[k]),
                decreases n - i,
            {
                assert(rows[i as int] == (ranked@[i as int].0@, ranked@[i as int].1));
                lines.push(name_count_line(&ranked[i]));
                i += 1;
            }
            assert(views(lines@) =~= Seq::new(rows.len(), |k: int| name_count(rows[k])));
            Body::TextBlock(TextBlockData { lines })
        },
        Shape::MarkdownTextBlock => {
            let mut lines: Vec<String> = Vec::new();
            let mut i: usize = 0;
            while i < n
                invariant
                    n == ranked@.len(),
                    rows == rows_view(ranked@),
                    i <= n,
                    lines@.len() == i,
                    forall|k: int| 0 <= k < i ==> #[trigger] lines@[k]@ == markdown_row(k, rows[k]),
                decreases n - i,
            {
                assert(rows[i as int] == (ranked@[i as int].0@, ranked@[i as int].1));
                lines.push(markdown_line(i, &ranked[i]));
                i += 1;
            }
            assert(views(lines@) =~= Seq::new(rows.len(), |k: int| markdown_row(k, rows[k])));
            let value = join_strings(&lines, "\n");
            Body::MarkdownTextBlock(MarkdownTextBlockData { value })
        },
        Shape::Text => {
            let mut parts: Vec<String> = Vec::new();
            let mut i: usize = 0;
            while i < n
                invariant
                    n == ranked@.len(),
                    rows == rows_view(ranked@),
                    i <= n,
                    parts@.len() == i,
                    forall|k: int| 0 <= k < i ==> #[trigger] parts@[k]@ == summary_row(rows[k]),
                decreases n - i,
            {
                assert(rows[i as int] == (ranked@[i as int].0@, ranked@[i as int].1));
                parts.push(summary_line(&ranked[i]));
                i += 1;
            }
            assert(views(parts@) =~= Seq::new(rows.len(), |k: int| summary_row(rows[k])));
            let value = join_strings(&parts, ", ");
            text_body(value.as_str())
        },
        _ => {
            let mut bars: Vec<Bar> = Vec::new();
            let mut i: usize = 0;
            while i < n
                invariant
                    n == ranked@.len(),
                    rows == rows_view(ranked@),
                    i <= n,
                    bars@.len() == i,
                    forall|k: int|
                        0 <= k < i ==> #[trigger] bars@[k].label@ == rows[k].0 && bars@[k].value
                            == rows[k].1 && bars@[k].value_label is None,
                decreases n - i,
            {
                bars.push(
                    Bar {
                        label: String::from_str(ranked[i].0.as_str()),
                        value: ranked[i].1,
                        value_label: None,
                    },
                );
                i += 1;
            }
            assert(bars@.len() == rows.len());
            assert(bars_ok(rows, bars@));
            Body::Bars(BarsData { bars })
        },
    }
}

} // verus!
