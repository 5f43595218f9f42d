//! `git_churn` — the files changed most often over the last N days (30 unless the format
//! names another positive number), at most ten. `Entries` lists `path: count`, `Bars`
//! ranks them, `TextBlock` has one `path (count)` line each, `MarkdownTextBlock` a numbered
//! list, and `Text` a one-line summary by file name.

use vstd::prelude::*;
use vstd::string::*;

use crate::fetcher::{FetchContext, OptionSchema, Safety};
use crate::payload::{Bar, BarsData, Body, EntriesData, Entry, MarkdownTextBlockData, TextBlockData};
use crate::rank::{rank_top, rows_view, sort_rows, tally, tally_ok};
use crate::render::Shape;
use crate::samples;
use crate::text::{opt_str_view, opt_string_view};
use crate::text::{after_last, after_last_char, dec, join, join_strings, parse_u64, spec_parse_u64, trim, trim_str, u64_to_string, views};

use super::{repo_cache_key, spec_repo_cache_key, text_body};

verus! {

/// The `git_churn` fetcher.
pub struct GitChurn;

/// Days looked back when the format names no positive number.
pub const DEFAULT_DAYS: u64 = 30;

/// Files kept in the ranking.
pub const TOP_FILES: usize = 10;

/// Commits the history walk reads at most.
pub const MAX_COMMITS: usize = 500;

pub open spec fn spec_shapes() -> Seq<Shape> {
    seq![Shape::Entries, Shape::Bars, Shape::TextBlock, Shape::MarkdownTextBlock, Shape::Text]
}

impl GitChurn {
    /// Catalog name.
    pub fn name(&self) -> (r: &'static str)
        ensures
            r@ == "git_churn"@,
    {
        "git_churn"
    }

    /// Trust class.
    pub fn safety(&self) -> (r: Safety)
        ensures
            r == Safety::Safe,
    {
        Safety::Safe
    }

    /// One-paragraph catalog description.
    pub fn description(&self) -> (r: &'static str)
        ensures
            r@ == "Top files by change count over the last N days (default 30, override with `format = \"N\"`), capped at ten. Pairs with `code_largest_files` for 'where's the action vs where's the mass' framing."@,
    {
        "Top files by change count over the last N days (default 30, override with `format = \"N\"`), capped at ten. Pairs with `code_largest_files` for 'where's the action vs where's the mass' framing."
    }

    /// Shapes this fetcher can produce.
    pub fn shapes(&self) -> (r: Vec<Shape>)
        ensures
            r@ == spec_shapes(),
    {
        let r = vec![Shape::Entries, Shape::Bars, Shape::TextBlock, Shape::MarkdownTextBlock, Shape::Text];
        assert(r@ =~= spec_shapes());
        r
    }

    /// Shape used when the widget names none.
    pub fn default_shape(&self) -> (r: Shape)
        ensures
            r == Shape::Entries,
    {
        Shape::Entries
    }

    /// Documented options.
    pub fn option_schemas(&self) -> (r: Vec<OptionSchema>)
        ensures
            r@.len() == 0,
    {
        vec![

        ]
    }

}


impl GitChurn {
    /// Cache key for the repository rooted at `root`.
    pub fn cache_key(&self, ctx: &FetchContext, root: &str) -> (k: String)
        ensures
            k@ == spec_repo_cache_key("git_churn"@, root@, *ctx),
    {
        repo_cache_key("git_churn", root, ctx)
    }

    /// Canned body per supported shape.
    pub fn sample_body(&self, shape: Shape) -> (r: Option<Body>)
        ensures
            shape == Shape::Text ==> (r matches Some(Body::Text(d)) && d.value@
                == "main.rs (42), lib.rs (31), mod.rs (18)"@),
            shape == Shape::MarkdownTextBlock ==> (r matches Some(Body::MarkdownTextBlock(d))
                && d.value@
                == "1. `src/main.rs` — 42\n2. `src/lib.rs` — 31\n3. `src/render/mod.rs` — 18\n4. `src/fetcher/mod.rs` — 12"@),
            shape == Shape::Entries ==> (r matches Some(Body::Entries(d)) && d.items@.len() == 4),
            shape == Shape::Bars ==> (r matches Some(Body::Bars(d)) && d.bars@.len() == 4),
            shape == Shape::TextBlock ==> (r matches Some(Body::TextBlock(d)) && d.lines@.len()
                == 4),
            !(shape == Shape::Entries || shape == Shape::Bars || shape == Shape::TextBlock || shape
                == Shape::MarkdownTextBlock || shape == Shape::Text) ==> r is None,
    {
        match shape {
            Shape::Entries => Some(
                samples::entries(
                    &[
                        ("src/main.rs", "42"),
                        ("src/lib.rs", "31"),
                        ("src/render/mod.rs", "18"),
                        ("src/fetcher/mod.rs", "12"),
                    ],
                ),
            ),
            Shape::Bars => Some(
                samples::bars(
                    &[
                        ("src/main.rs", 42),
                        ("src/lib.rs", 31),
                        ("src/render/mod.rs", 18),
                        ("src/fetcher/mod.rs", 12),
                    ],
                ),
            ),
            Shape::TextBlock => Some(
                samples::text_block(
                    &[
                        "src/main.rs (42)",
                        "src/lib.rs (31)",
                        "src/render/mod.rs (18)",
                        "src/fetcher/mod.rs (12)",
                    ],
                ),
            ),
            Shape::MarkdownTextBlock => Some(
                samples::markdown(
                    "1. `src/main.rs` — 42\n2. `src/lib.rs` — 31\n3. `src/render/mod.rs` — 18\n4. `src/fetcher/mod.rs` — 12",
                ),
            ),
            Shape::Text => Some(samples::text("main.rs (42), lib.rs (31), mod.rs (18)")),
            _ => None,
        }
    }
}

/// Days to look back: the trimmed format as a positive number, else 30.
pub open spec fn spec_parse_days(format: Option<Seq<char>>) -> u64 {
    match format {
        Some(f) => match spec_parse_u64(trim(f)) {
            Some(n) => if n > 0 {
                n
            } else {
                DEFAULT_DAYS
            },
            None => DEFAULT_DAYS,
        },
        None => DEFAULT_DAYS,
    }
}

/// The look-back window named by the format.
pub fn parse_days(format: Option<&str>) -> (d: u64)
    ensures
        d == spec_parse_days(opt_str_view(format)),
        d > 0,
{
    match format {
        Some(f) => {
            let t = trim_str(f);
            match parse_u64(t.as_str()) {
                Some(n) => if n > 0 {
                    n
                } else {
                    DEFAULT_DAYS
                },
                None => DEFAULT_DAYS,
            }
        },
        None => DEFAULT_DAYS,
    }
}

/// Oldest commit time the walk keeps: `days` whole days before `now`.
pub fn cutoff_seconds(now: i64, days: u64) -> (c: i64)
    requires
        days * 86_400 <= i64::MAX,
        now - days * 86_400 >= i64::MIN,
    ensures
        c == now - days * 86_400,
{
    now - (days as i64) * 86_400
}

/// Ranking of the changed paths (one entry per change): the ten most changed files, most
/// changes first and equal counts by path.
pub fn rank_changes(changed_paths: &Vec<String>) -> (ranked: Vec<(String, u64)>)
    requires
        changed_paths@.len() <= u64::MAX,
    ensures
        exists|totals: Seq<(Seq<char>, u64)>|
            tally_ok(views(changed_paths@), totals) && rows_view(ranked@) == sort_rows(
                totals,
                true,
            ).take(if TOP_FILES < totals.len() { TOP_FILES as int } else { totals.len() as int }),
{
    let totals = tally(changed_paths);
    let ranked = rank_top(&totals, TOP_FILES);
    assert(tally_ok(views(changed_paths@), rows_view(totals@)));
    ranked
}

/// The file name of a path: the text after its last `/`.
pub fn short_path(path: &str) -> (s: String)
    ensures
        s@ == after_last(path@, '/'),
{
    after_last_char(path, '/')
}

/// `path (count)`.
pub open spec fn path_count(r: (Seq<char>, u64)) -> Seq<char> {
    r.0 + " ("@ + dec(r.1 as nat) + ")"@
}

/// `<n>. `path` — count`, numbered from 1.
pub open spec fn markdown_row(i: int, r: (Seq<char>, u64)) -> Seq<char> {
    dec((i + 1) as nat) + ". `"@ + r.0 + "` — "@ + dec(r.1 as nat)
}

/// `basename (count)`.
pub open spec fn short_row(r: (Seq<char>, u64)) -> Seq<char> {
    after_last(r.0, '/') + " ("@ + dec(r.1 as nat) + ")"@
}

/// What a ranking renders as, per shape (`Entries` for every shape not listed).
pub open spec fn churn_body_ok(rows: Seq<(Seq<char>, u64)>, shape: Shape, b: Body) -> bool {
    match shape {
        Shape::Bars => b matches Body::Bars(d) && bars_ok(rows, d.bars@),
        Shape::TextBlock => b matches Body::TextBlock(d) && views(d.lines@) == Seq::new(
            rows.len(),
            |i: int| path_count(rows[i]),
        ),
        Shape::MarkdownTextBlock => b matches Body::MarkdownTextBlock(d) && d.value@ == join(
            Seq::new(rows.len(), |i: int| markdown_row(i, rows[i])),
            "\n"@,
        ),
        Shape::Text => b matches Body::Text(d) && d.value@ == join(
            Seq::new(rows.len(), |i: int| short_row(rows[i])),
            ", "@,
        ),
        _ => b matches Body::Entries(d) && entries_ok(rows, d.items@),
    }
}

/// One bar per row: the path and its count.
pub open spec fn bars_ok(rows: Seq<(Seq<char>, u64)>, bars: Seq<Bar>) -> bool {
    &&& bars.len() == rows.len()
    &&& forall|i: int|
        0 <= i < rows.len() ==> #[trigger] bars[i].label@ == rows[i].0 && bars[i].value == rows[i].1
            && bars[i].value_label is None
}

/// One entry per row: the path and its count in decimal.
pub open spec fn entries_ok(rows: Seq<(Seq<char>, u64)>, items: Seq<Entry>) -> bool {
    &&& items.len() == rows.len()
    &&& forall|i: int|
        0 <= i < rows.len() ==> #[trigger] items[i].key@ == rows[i].0 && opt_string_view(
            items[i].value,
        ) == Some(dec(rows[i].1 as nat)) && items[i].status is None
}

fn path_count_line(r: &(String, u64)) -> (s: String)
    ensures
        s@ == path_count((r.0@, r.1)),
{
    let mut s = String::from_str(r.0.as_str());
    s.append(" (");
    let c = u64_to_string(r.1);
    s.append(c.as_str());
    s.append(")");
    s
}

fn short_row_line(r: &(String, u64)) -> (s: String)
    ensures
        s@ == short_row((r.0@, r.1)),
{
    let mut s = short_path(r.0.as_str());
    s.append(" (");
    let c = u64_to_string(r.1);
    s.append(c.as_str());
    s.append(")");
    s
}

fn markdown_line(i: usize, r: &(String, u64)) -> (s: String)
    requires
        i < usize::MAX,
    ensures
        s@ == markdown_row(i as int, (r.0@, r.1)),
{
    let mut s = u64_to_string((i + 1) as u64);
    s.append(". `");
    s.append(r.0.as_str());
    s.append("` — ");
    let c = u64_to_string(r.1);
    s.append(c.as_str());
    s
}

/// Renders the ranking into the requested shape.
pub fn render_body(ranked: &Vec<(String, u64)>, shape: Shape) -> (b: Body)
    ensures
        churn_body_ok(rows_view(ranked@), shape, b),
{
    let ghost rows = rows_view(ranked@);
    let n = ranked.len();
    match shape {
        Shape::Bars => {
            let mut bars: Vec<Bar> = Vec::new();
            let mut i: usize = 0;
            while i < n
                invariant
                    n == ranked@.len(),
                    rows == rows_view(ranked@),
                    i <= n,
                    bars@.len() == i,
                    forall|k: int|
                        0 <= k < i ==> #[trigger] bars@[k].label@ == rows[k].0 && bars@[k].value
                            == rows[k].1 && bars@[k].value_label is None,
                decreases n - i,
            {
                bars.push(
                    Bar {
                        label: String::from_str(ranked[i].0.as_str()),
                        value: ranked[i].1,
                        value_label: None,
                    },
                );
                i += 1;
            }
            assert(bars_ok(rows, bars@));
            Body::Bars(BarsData { bars })
        },
        Shape::TextBlock => {
            let mut lines: Vec<String> = Vec::new();
            let mut i: usize = 0;
            while i < n
                invariant
                    n == ranked@.len(),
                    rows == rows_view(ranked@),
                    i <= n,
                    lines@.len() == i,
                    forall|k: int| 0 <= k < i ==> #[trigger] lines@[k]@ == path_count(rows[k]),
                decreases n - i,
            {
                assert(rows[i as int] == (ranked@[i as int].0@, ranked@[i as int].1));
                lines.push(path_count_line(&ranked[i]));
                i += 1;
            }
            assert(views(lines@) =~= Seq::new(rows.len(), |k: int| path_count(rows[k])));
            Body::TextBlock(TextBlockData { lines })
        },
        Shape::MarkdownTextBlock => {
            let mut lines: Vec<String> = Vec::new();
            let mut i: usize = 0;
            while i < n
                invariant
                    n == ranked@.len(),
                    rows == rows_view(ranked@),
                    i <= n,
                    lines@.len() == i,
                    forall|k: int| 0 <= k < i ==> #[trigger] lines@[k]@ == markdown_row(k, rows[k]),
                decreases n - i,
            {
                assert(rows[i as int] == (ranked@[i as int].0@, ranked@[i as int].1));
                lines.push(markdown_line(i, &ranked[i]));
                i += 1;
            }
            assert(views(lines@) =~= Seq::new(rows.len(), |k: int| markdown_row(k, rows[k])));
            let value = join_strings(&lines, "\n");
            Body::MarkdownTextBlock(MarkdownTextBlockData { value })
        },
        Shape::Text => {
            let mut parts: Vec<String> = Vec::new();
            let mut i: usize = 0;
            while i < n
                invariant
                    n == ranked@.len(),
                    rows == rows_view(ranked@),
                    i <= n,
                    parts@.len() == i,
                    forall|k: int| 0 <= k < i ==> #[trigger] parts@[k]@ == short_row(rows[k]),
                decreases n - i,
            {
                assert(rows[i as int] == (ranked@[i as int].0@, ranked@[i as int].1));
                parts.push(short_row_line(&ranked[i]));
                i += 1;
            }
            assert(views(parts@) =~= Seq::new(rows.len(), |k: int| short_row(rows[k])));
            let value = join_strings(&parts, ", ");
            text_body(value.as_str())
        },
        _ => {
            let mut items: Vec<Entry> = Vec::new();
            let mut i: usize = 0;
            while i < n
                invariant
                    n == ranked@.len(),
                    rows == rows_view(ranked@),
                    i <= n,
                    items@.len() == i,
                    forall|k: int|
                        0 <= k < i ==> #[trigger] items@[k].key@ == rows[k].0 && opt_string_view(
                            items@[k].value,
                        ) == Some(dec(rows[k].1 as nat)) && items@[k].status is None,
                decreases n - i,
            {
                items.push(
                    Entry {
                        key: String::from_str(ranked[i].0.as_str()),
                        value: Some(u64_to_string(ranked[i].1)),
                        status: None,
                    },
                );
                i += 1;
            }
            assert(items@.len() == rows.len());
            assert(entries_ok(rows, items@));
            Body::Entries(EntriesData { items })
        },
    }
}

} // verus!
