//! `github_languages` — the byte count per language of a repository, largest first.
//! Languages beyond the limit fold into one `other` bucket so the totals still add up to
//! the repository's full byte count. Percentages are the exact ratio rounded half to even.

use vstd::prelude::*;
use vstd::string::*;

use crate::fetcher::FetchContext;
use super::common::{cache_key as keyed_cache_key, spec_cache_key};

use crate::fetcher::{OptionSchema, Safety};
use crate::payload::{Bar, BarsData, Body, EntriesData, Entry, MarkdownTextBlockData, TextBlockData, TextData};
use crate::rank::{
    lemma_row_sum_concat, lemma_sort_rows_sum, row_sum, rows_view, seq_lt, sort_by_count_desc,
    sort_rows, total_of,
};
use crate::render::Shape;
use crate::samples;
use crate::text::{opt_str_view, opt_string_view};
use crate::text::{dec, join, join_strings, push_char, u64_to_string, views};

use super::common::RepoSlug;

verus! {

/// The `github_languages` fetcher.
pub struct GithubLanguages;

/// Widget options.
#[derive(Debug, Default, Clone)]
pub struct Options {
    pub repo: Option<String>,
    pub limit: Option<u32>,
}

/// Languages shown when no limit is configured.
pub const DEFAULT_LIMIT: usize = 6;

pub open spec fn spec_shapes() -> Seq<Shape> {
    seq![Shape::Bars, Shape::Entries, Shape::TextBlock, Shape::MarkdownTextBlock, Shape::Text]
}

impl GithubLanguages {
    /// Cache key: the context plus the target repository (`owner/name`).
    pub fn cache_key(&self, ctx: &FetchContext, repo: &str) -> (k: String)
        ensures
            k@ == spec_cache_key("github_languages"@, *ctx, repo@),
    {
        keyed_cache_key("github_languages", ctx, repo)
    }
}

impl GithubLanguages {
    /// Catalog name.
    pub fn name(&self) -> (r: &'static str)
        ensures
            r@ == "github_languages"@,
    {
        "github_languages"
    }

    /// Trust class.
    pub fn safety(&self) -> (r: Safety)
        ensures
            r == Safety::Safe,
    {
        Safety::Safe
    }

    /// One-paragraph catalog description.
    pub fn description(&self) -> (r: &'static str)
        ensures
            r@ == "Language byte-count breakdown for a repo, sorted by size. `Bars` / `Entries` / `TextBlock` / `MarkdownTextBlock` carry the full ranking with percent values; `Text` collapses to a `\"Rust 87% · TOML 8% · …\"` headline. Languages beyond `limit` collapse into a single `other` bucket so totals stay honest."@,
    {
        "Language byte-count breakdown for a repo, sorted by size. `Bars` / `Entries` / `TextBlock` / `MarkdownTextBlock` carry the full ranking with percent values; `Text` collapses to a `\"Rust 87% · TOML 8% · …\"` headline. Languages beyond `limit` collapse into a single `other` bucket so totals stay honest."
    }

    /// Shapes this fetcher can produce.
    pub fn shapes(&self) -> (r: Vec<Shape>)
        ensures
            r@ == spec_shapes(),
    {
        let r = vec![Shape::Bars, Shape::Entries, Shape::TextBlock, Shape::MarkdownTextBlock, Shape::Text];
        assert(r@ =~= spec_shapes());
        r
    }

    /// Shape used when the widget names none.
    pub fn default_shape(&self) -> (r: Shape)
        ensures
            r == Shape::Bars,
    {
        Shape::Bars
    }

    /// Documented options.
    pub fn option_schemas(&self) -> (r: Vec<OptionSchema>)
        ensures
            r@.len() == 2,
            r@[0].name@ == "repo"@,
            r@[0].required == false,
            opt_str_view(r@[0].default) == Some("git remote of cwd"@),
            r@[1].name@ == "limit"@,
            r@[1].required == false,
            opt_str_view(r@[1].default) == Some("6"@),
    {
        vec![
            OptionSchema {
                name: "repo",
                type_hint: "\"owner/name\"",
                required: false,
                default: Some("git remote of cwd"),
                description: "Repository to query. Falls back to the current directory's github remote.",
            },
            OptionSchema {
                name: "limit",
                type_hint: "integer (1..=20)",
                required: false,
                default: Some("6"),
                description: "Maximum number of languages to surface. Smaller slices collapse into the tail.",
            },
        ]
    }

}


impl GithubLanguages {
    /// Canned body per supported shape.
    pub fn sample_body(&self, shape: Shape) -> (r: Option<Body>)
        ensures
            shape == Shape::Text ==> (r matches Some(Body::Text(d)) && d.value@
                == "Rust 87% · TOML 8% · Shell 5%"@),
            shape == Shape::MarkdownTextBlock ==> (r matches Some(Body::MarkdownTextBlock(d))
                && d.value@ == "- **Rust** — 87.0%\n- **TOML** — 8.0%\n- **Shell** — 5.0%"@),
            shape == Shape::Bars ==> (r matches Some(Body::Bars(d)) && d.bars@.len() == 3),
            shape == Shape::Entries ==> (r matches Some(Body::Entries(d)) && d.items@.len() == 3),
            shape == Shape::TextBlock ==> (r matches Some(Body::TextBlock(d)) && d.lines@.len()
                == 3),
            !(shape == Shape::Bars || shape == Shape::Entries || shape == Shape::TextBlock || shape
                == Shape::MarkdownTextBlock || shape == Shape::Text) ==> r is None,
    {
        match shape {
            Shape::Bars => Some(
                samples::bars(&[("Rust", 87_000), ("TOML", 8_000), ("Shell", 5_000)]),
            ),
            Shape::Entries => Some(
                samples::entries(&[("Rust", "87%"), ("TOML", "8%"), ("Shell", "5%")]),
            ),
            Shape::TextBlock => Some(
                samples::text_block(&["Rust  87.0%", "TOML  8.0%", "Shell  5.0%"]),
            ),
            Shape::MarkdownTextBlock => Some(
                samples::markdown("- **Rust** — 87.0%\n- **TOML** — 8.0%\n- **Shell** — 5.0%"),
            ),
            Shape::Text => Some(samples::text("Rust 87% · TOML 8% · Shell 5%")),
            _ => None,
        }
    }
}

/// Languages endpoint of a repository.
pub fn request_path(slug: &RepoSlug) -> (r: String)
    ensures
        r@ == "/repos/"@ + slug.owner@ + "/"@ + slug.name@ + "/languages"@,
{
    let mut r = String::from_str("/repos/");
    r.append(slug.owner.as_str());
    r.append("/");
    r.append(slug.name.as_str());
    r.append("/languages");
    r
}

/// The configured limit (default 6), at least one.
pub open spec fn spec_limit(opts: Options) -> usize {
    let l = match opts.limit {
        Some(n) => n as usize,
        None => DEFAULT_LIMIT,
    };
    if l < 1 {
        1
    } else {
        l
    }
}

/// Languages to surface.
pub fn effective_limit(opts: &Options) -> (l: usize)
    ensures
        l == spec_limit(*opts),
        l >= 1,
{
    let l = match opts.limit {
        Some(n) => n as usize,
        None => DEFAULT_LIMIT,
    };
    if l < 1 {
        1
    } else {
        l
    }
}

/// Largest first (equal sizes keep their order); past `limit` languages, all but the first
/// `limit - 1` fold into an `other` bucket, left out when it would be empty.
pub open spec fn spec_top_n(raw: Seq<(Seq<char>, u64)>, limit: usize) -> Seq<(Seq<char>, u64)> {
    let all = sort_rows(raw, false);
    if all.len() <= limit {
        all
    } else {
        let k = if limit == 0 { 0 } else { limit - 1 };
        let other = row_sum(all.skip(k));
        all.take(k) + if other > 0 {
            seq![("other"@, other as u64)]
        } else {
            Seq::empty()
        }
    }
}

/// The bytes folded into `other`: all but the first `limit - 1` languages by size, when
/// there are more than `limit`; nothing otherwise.
pub open spec fn folded_sum(raw: Seq<(Seq<char>, u64)>, limit: usize) -> nat {
    let all = sort_rows(raw, false);
    if all.len() <= limit {
        0
    } else {
        row_sum(all.skip(if limit == 0 { 0 } else { limit - 1 }))
    }
}

/// Folding the tail into `other` keeps the total byte count.
pub proof fn lemma_top_n_keeps_total(raw: Seq<(Seq<char>, u64)>, limit: usize)
    requires
        row_sum(raw) <= u64::MAX,
    ensures
        row_sum(spec_top_n(raw, limit)) == row_sum(raw),
{
    let all = sort_rows(raw, false);
    lemma_sort_rows_sum(raw, false);
    crate::rank::lemma_sort_rows_sorted(raw, false);
    if all.len() > limit {
        let k: int = if limit == 0 { 0 } else { limit - 1 };
        lemma_row_sum_concat(all.take(k), all.skip(k));
        assert(all.take(k) + all.skip(k) =~= all);
        let other = row_sum(all.skip(k));
        if other > 0 {
            let tail = seq![("other"@, other as u64)];
            lemma_row_sum_concat(all.take(k), tail);
            assert(tail.drop_last() =~= Seq::<(Seq<char>, u64)>::empty());
            reveal_with_fuel(row_sum, 2);
        } else {
            assert(all.take(k) + Seq::<(Seq<char>, u64)>::empty() =~= all.take(k));
        }
    }
}

/// Nothing is folded while the languages fit the limit: the ranking then holds exactly
/// the input's rows, each once, largest first, and no `other` row appears.
pub proof fn lemma_top_n_within_limit(raw: Seq<(Seq<char>, u64)>, limit: usize)
    requires
        raw.len() <= limit,
    ensures
        spec_top_n(raw, limit).len() == raw.len(),
        spec_top_n(raw, limit).to_multiset() == raw.to_multiset(),
        forall|i: int, j: int|
            0 <= i < j < raw.len() ==> spec_top_n(raw, limit)[i].1 >= spec_top_n(raw, limit)[j].1,
{
    crate::rank::lemma_sort_rows_sorted(raw, false);
    crate::rank::lemma_sort_rows_permutes(raw, false);
    let s = sort_rows(raw, false);
    assert forall|i: int, j: int| 0 <= i < j < raw.len() implies s[i].1 >= s[j].1 by {
        assert(!crate::rank::goes_before(false, s[j], s[i]));
    }
}

/// Past the limit, the `limit - 1` largest languages stay, largest first, and every
/// other one is folded into a single `other` row carrying their byte total (left out when
/// that total is zero): no kept language is smaller than a folded one.
pub proof fn lemma_top_n_folds_the_smallest(raw: Seq<(Seq<char>, u64)>, limit: usize) -> (tail: Seq<
    (Seq<char>, u64),
>)
    requires
        raw.len() > limit >= 1,
    ensures
        (spec_top_n(raw, limit).take(limit - 1) + tail).to_multiset() == raw.to_multiset(),
        forall|i: int, j: int|
            0 <= i < limit - 1 && 0 <= j < tail.len() ==> spec_top_n(raw, limit)[i].1 >= tail[j].1,
        forall|i: int, j: int|
            0 <= i < j < limit - 1 ==> spec_top_n(raw, limit)[i].1 >= spec_top_n(raw, limit)[j].1,
        row_sum(tail) > 0 ==> spec_top_n(raw, limit).len() == limit && spec_top_n(raw, limit)[limit
            - 1] == ("other"@, row_sum(tail) as u64),
        row_sum(tail) == 0 ==> spec_top_n(raw, limit).len() == limit - 1,
{
    crate::rank::lemma_sort_rows_sorted(raw, false);
    crate::rank::lemma_sort_rows_permutes(raw, false);
    let s = sort_rows(raw, false);
    let k: int = limit - 1;
    let tail = s.skip(k);
    let out = spec_top_n(raw, limit);
    assert(s.take(k) + tail =~= s);
    assert(out.take(k) =~= s.take(k));
    assert forall|i: int, j: int| 0 <= i < k && 0 <= j < tail.len() implies out[i].1 >= tail[j].1 by {
        assert(tail[j] == s[k + j]);
        assert(!crate::rank::goes_before(false, s[k + j], s[i]));
    }
    assert forall|i: int, j: int| 0 <= i < j < k implies out[i].1 >= out[j].1 by {
        assert(!crate::rank::goes_before(false, s[j], s[i]));
    }
    tail
}

/// The languages come as a map walks them: each name once, in ascending order.
pub open spec fn keys_ascending(rows: Seq<(Seq<char>, u64)>) -> bool {
    forall|i: int, j: int| 0 <= i < j < rows.len() ==> seq_lt(rows[i].0, rows[j].0)
}

/// The ranking with the tail folded into `other`.
#[verifier::spinoff_prover]
pub fn top_n(raw: &Vec<(String, u64)>, limit: usize) -> (out: Vec<(String, u64)>)
    requires
        keys_ascending(rows_view(raw@)),
        folded_sum(rows_view(raw@), limit) <= u64::MAX,
    ensures
        rows_view(out@) == spec_top_n(rows_view(raw@), limit),
{
    let all = sort_by_count_desc(raw);
    proof {
        lemma_sort_rows_sum(rows_view(raw@), false);
        crate::rank::lemma_sort_rows_sorted(rows_view(raw@), false);
    }
    if all.len() <= limit {
        return all;
    }
    let k: usize = if limit == 0 { 0 } else { limit - 1 };
    let ghost sorted = rows_view(all@);
    let mut out: Vec<(String, u64)> = Vec::new();
    let mut other: u64 = 0;
    let mut i: usize = 0;
    proof {
        lemma_row_sum_concat(sorted.take(k as int), sorted.skip(k as int));
        assert(sorted.take(k as int) + sorted.skip(k as int) =~= sorted);
        assert(sorted.skip(k as int).take(0) =~= Seq::<(Seq<char>, u64)>::empty());
    }
    while i < all.len()
        invariant
            sorted == rows_view(all@),
            row_sum(sorted.skip(k as int)) <= u64::MAX,
            k < all@.len(),
            i <= all@.len(),
            i <= k ==> rows_view(out@) == sorted.take(i as int) && other == 0,
            i > k ==> rows_view(out@) == sorted.take(k as int) && other == row_sum(
                sorted.skip(k as int).take(i - k),
            ),
        decreases all@.len() - i,
    {
        if i < k {
            let name = all[i].0.clone();
            out.push((name, all[i].1));
            assert(rows_view(out@) =~= sorted.take(i + 1));
        } else {
            let ghost tail = sorted.skip(k as int);
            proof {
                assert(tail.take(i + 1 - k).drop_last() =~= tail.take(i - k));
                assert(tail.take(i + 1 - k).last() == sorted[i as int]);
                lemma_row_sum_concat(tail.take(i + 1 - k), tail.skip(i + 1 - k));
                assert(tail.take(i + 1 - k) + tail.skip(i + 1 - k) =~= tail);
                if i == k {
                    assert(tail.take(0) =~= Seq::<(Seq<char>, u64)>::empty());
                }
            }
            other = other + all[i].1;
        }
        i += 1;
    }
    assert(sorted.skip(k as int).take(all@.len() - k) =~= sorted.skip(k as int));
    if other > 0 {
        out.push((String::from_str("other"), other));
    }
    assert(rows_view(out@) =~= spec_top_n(rows_view(raw@), limit));
    out
}

/// `value / total` in units of `1 / scale`, rounded half to even.
pub open spec fn scaled_ratio(value: nat, total: nat, scale: nat) -> nat {
    let num = value * scale;
    let q = num / total;
    let r = num % total;
    if 2 * r > total || (2 * r == total && q % 2 == 1) {
        q + 1
    } else {
        q
    }
}

/// `value` as a percentage of `total` with one decimal (`0%` for an empty total).
pub open spec fn spec_format_percent(value: u64, total: u64) -> Seq<char> {
    if total == 0 {
        "0%"@
    } else {
        let p = scaled_ratio(value as nat, total as nat, 1000);
        dec(p / 10) + "."@ + dec(p % 10) + "%"@
    }
}

/// `value` as a whole percentage of `total` (`0%` for an empty total).
pub open spec fn spec_format_percent_short(value: u64, total: u64) -> Seq<char> {
    if total == 0 {
        "0%"@
    } else {
        dec(scaled_ratio(value as nat, total as nat, 100)) + "%"@
    }
}

fn rounded_ratio(value: u64, total: u64, scale: u64) -> (p: u128)
    requires
        total > 0,
        scale == 100 || scale == 1000,
    ensures
        p == scaled_ratio(value as nat, total as nat, scale as nat),
{
    let num: u128 = (value as u128) * (scale as u128);
    let t = total as u128;
    let q = num / t;
    let r = num % t;
    assert(r < t);
    if 2 * r > t || (2 * r == t && q % 2 == 1) {
        assert(q < num + 1) by (nonlinear_arith)
            requires
                q == num / t,
                t > 0,
        ;
        q + 1
    } else {
        q
    }
}

fn u128_to_string(n: u128) -> (s: String)
    ensures
        s@ == dec(n as nat),
    decreases n,
{
    if n < 10 {
        u64_to_string(n as u64)
    } else {
        let mut s = u128_to_string(n / 10);
        let d = u64_to_string((n % 10) as u64);
        s.append(d.as_str());
        assert(dec((n % 10) as nat) =~= seq![crate::text::digit_char((n % 10) as nat)]);
        s
    }
}

/// Percentage with one decimal.
pub fn format_percent(value: u64, total: u64) -> (s: String)
    ensures
        s@ == spec_format_percent(value, total),
{
    if total == 0 {
        return String::from_str("0%");
    }
    let p = rounded_ratio(value, total, 1000);
    let mut s = u128_to_string(p / 10);
    s.append(".");
    let d = u128_to_string(p % 10);
    s.append(d.as_str());
    s.append("%");
    s
}

/// Whole percentage.
pub fn format_percent_short(value: u64, total: u64) -> (s: String)
    ensures
        s@ == spec_format_percent_short(value, total),
{
    if total == 0 {
        return String::from_str("0%");
    }
    let p = rounded_ratio(value, total, 100);
    let mut s = u128_to_string(p);
    s.append("%");
    s
}

/// `label  pct` lines.
pub open spec fn line_of(r: (Seq<char>, u64), total: u64) -> Seq<char> {
    r.0 + "  "@ + spec_format_percent(r.1, total)
}

/// `- **label** — pct` bullets.
pub open spec fn bullet_of(r: (Seq<char>, u64), total: u64) -> Seq<char> {
    "- **"@ + r.0 + "** — "@ + spec_format_percent(r.1, total)
}

/// `label pct` headline parts with whole percentages.
pub open spec fn headline_part(r: (Seq<char>, u64), total: u64) -> Seq<char> {
    r.0 + " "@ + spec_format_percent_short(r.1, total)
}

/// Entries: each language with its one-decimal share of the listed total.
#[verifier::spinoff_prover]
pub fn to_entries(sorted: &Vec<(String, u64)>) -> (items: Vec<Entry>)
    requires
        row_sum(rows_view(sorted@)) <= u64::MAX,
    ensures
        items@.len() == sorted@.len(),
        forall|i: int|
            0 <= i < sorted@.len() ==> #[trigger] items@[i].key@ == sorted@[i].0@ && opt_string_view(
                items@[i].value,
            ) == Some(spec_format_percent(sorted@[i].1, row_sum(rows_view(sorted@)) as u64))
                && items@[i].status is None,
{
    let total = total_of(sorted);
    let mut items: Vec<Entry> = Vec::new();
    let mut i: usize = 0;
    while i < sorted.len()
        invariant
            total == row_sum(rows_view(sorted@)),
            i <= sorted@.len(),
            items@.len() == i,
            forall|k: int|
                0 <= k < i ==> #[trigger] items@[k].key@ == sorted@[k].0@ && opt_string_view(
                    items@[k].value,
                ) == Some(spec_format_percent(sorted@[k].1, total)) && items@[k].status is None,
        decreases sorted@.len() - i,
    {
        items.push(
            Entry {
                key: String::from_str(sorted[i].0.as_str()),
                value: Some(format_percent(sorted[i].1, total)),
                status: None,
            },
        );
        i += 1;
    }
    items
}

/// One `label  pct` line per language.
pub fn text_lines(sorted: &Vec<(String, u64)>) -> (lines: Vec<String>)
    requires
        row_sum(rows_view(sorted@)) <= u64::MAX,
    ensures
        views(lines@) == Seq::new(
            sorted@.len(),
            |i: int| line_of(rows_view(sorted@)[i], row_sum(rows_view(sorted@)) as u64),
        ),
{
    let total = total_of(sorted);
    let ghost rows = rows_view(sorted@);
    let mut lines: Vec<String> = Vec::new();
    let mut i: usize = 0;
    while i < sorted.len()
        invariant
            rows == rows_view(sorted@),
            total == row_sum(rows),
            i <= sorted@.len(),
            lines@.len() == i,
            forall|k: int| 0 <= k < i ==> #[trigger] lines@[k]@ == line_of(rows[k], total),
        decreases sorted@.len() - i,
    {
        let mut s = String::from_str(sorted[i].0.as_str());
        s.append("  ");
        let p = format_percent(sorted[i].1, total);
        s.append(p.as_str());
        assert(rows[i as int] == (sorted@[i as int].0@, sorted@[i as int].1));
        lines.push(s);
        i += 1;
    }
    assert(views(lines@) =~= Seq::new(sorted@.len(), |k: int| line_of(rows[k], total)));
    lines
}

/// The bullets joined by newlines.
pub fn markdown_text(sorted: &Vec<(String, u64)>) -> (s: String)
    requires
        row_sum(rows_view(sorted@)) <= u64::MAX,
    ensures
        s@ == join(
            Seq::new(
                sorted@.len(),
                |i: int| bullet_of(rows_view(sorted@)[i], row_sum(rows_view(sorted@)) as u64),
            ),
            "\n"@,
        ),
{
    let total = total_of(sorted);
    let ghost rows = rows_view(sorted@);
    let mut parts: Vec<String> = Vec::new();
    let mut i: usize = 0;
    while i < sorted.len()
        invariant
            rows == rows_view(sorted@),
            total == row_sum(rows),
            i <= sorted@.len(),
            parts@.len() == i,
            forall|k: int| 0 <= k < i ==> #[trigger] parts@[k]@ == bullet_of(rows[k], total),
        decreases sorted@.len() - i,
    {
        let mut s = String::from_str("- **");
        s.append(sorted[i].0.as_str());
        s.append("** — ");
        let p = format_percent(sorted[i].1, total);
        s.append(p.as_str());
        assert(rows[i as int] == (sorted@[i as int].0@, sorted@[i as int].1));
        parts.push(s);
        i += 1;
    }
    assert(views(parts@) =~= Seq::new(sorted@.len(), |k: int| bullet_of(rows[k], total)));
    join_strings(&parts, "\n")
}

/// The headline parts joined by ` · `.
pub fn text_headline(sorted: &Vec<(String, u64)>) -> (s: String)
    requires
        row_sum(rows_view(sorted@)) <= u64::MAX,
    ensures
        s@ == join(
            Seq::new(
                sorted@.len(),
                |i: int| headline_part(rows_view(sorted@)[i], row_sum(rows_view(sorted@)) as u64),
            ),
            " · "@,
        ),
{
    let total = total_of(sorted);
    let ghost rows = rows_view(sorted@);
    let mut parts: Vec<String> = Vec::new();
    let mut i: usize = 0;
    while i < sorted.len()
        invariant
            rows == rows_view(sorted@),
            total == row_sum(rows),
            i <= sorted@.len(),
            parts@.len() == i,
            forall|k: int| 0 <= k < i ==> #[trigger] parts@[k]@ == headline_part(rows[k], total),
        decreases sorted@.len() - i,
    {
        let mut s = String::from_str(sorted[i].0.as_str());
        s.append(" ");
        let p = format_percent_short(sorted[i].1, total);
        s.append(p.as_str());
        assert(rows[i as int] == (sorted@[i as int].0@, sorted@[i as int].1));
        parts.push(s);
        i += 1;
    }
    assert(views(parts@) =~= Seq::new(sorted@.len(), |k: int| headline_part(rows[k], total)));
    join_strings(&parts, " · ")
}

/// The bars match the rows one for one: label and byte count, no value label.
pub open spec fn bars_match(bars: Seq<Bar>, rows: Seq<(Seq<char>, u64)>) -> bool {
    &&& bars.len() == rows.len()
    &&& forall|i: int|
        0 <= i < bars.len() ==> #[trigger] bars[i].label@ == rows[i].0 && bars[i].value
            == rows[i].1 && bars[i].value_label is None
}

/// The body for the language byte counts: the folded ranking as bars (the default), or
/// with percentages as entries, lines, bullets or a one-line headline.
#[verifier::spinoff_prover]
pub fn build_body(raw: &Vec<(String, u64)>, shape: Shape, limit: usize) -> (b: Body)
    requires
        keys_ascending(rows_view(raw@)),
        folded_sum(rows_view(raw@), limit) <= u64::MAX,
        shape == Shape::Entries || shape == Shape::TextBlock || shape == Shape::MarkdownTextBlock
            || shape == Shape::Text ==> row_sum(rows_view(raw@)) <= u64::MAX,
    ensures
        shape == Shape::Bars ==> (b matches Body::Bars(d) && bars_match(
            d.bars@,
            spec_top_n(rows_view(raw@), limit),
        )),
        shape == Shape::Text ==> (b matches Body::Text(d) && d.value@ == join(
            Seq::new(
                spec_top_n(rows_view(raw@), limit).len(),
                |i: int| headline_part(spec_top_n(rows_view(raw@), limit)[i], row_sum(rows_view(raw@)) as u64),
            ),
            " · "@,
        )),
{
    if shape == Shape::Bars {
        let sorted = top_n(raw, limit);
        let bars = bars_of(&sorted);
        return Body::Bars(BarsData { bars });
    }
    let sorted = top_n(raw, limit);
    proof {
        if row_sum(rows_view(raw@)) <= u64::MAX {
            lemma_top_n_keeps_total(rows_view(raw@), limit);
        }
    }
    match shape {
        Shape::Entries => Body::Entries(EntriesData { items: to_entries(&sorted) }),
        Shape::TextBlock => Body::TextBlock(TextBlockData { lines: text_lines(&sorted) }),
        Shape::MarkdownTextBlock => Body::MarkdownTextBlock(
            MarkdownTextBlockData { value: markdown_text(&sorted) },
        ),
        Shape::Text => Body::Text(TextData { value: text_headline(&sorted) }),
        _ => {
            let bars = bars_of(&sorted);
            Body::Bars(BarsData { bars })
        },
    }
}

/// One bar per row: the language and its byte count.
pub fn bars_of(sorted: &Vec<(String, u64)>) -> (bars: Vec<Bar>)
    ensures
        bars_match(bars@, rows_view(sorted@)),
{
    let ghost rows = rows_view(sorted@);
    let mut bars: Vec<Bar> = Vec::new();
    let n = sorted.len();
    let mut i: usize = 0;
    while i < n
        invariant
            n == sorted@.len(),
            rows == rows_view(sorted@),
            i <= n,
            bars@.len() == i,
            forall|k: int|
                0 <= k < i ==> #[trigger] bars@[k].label@ == rows[k].0 && bars@[k].value
                    == rows[k].1 && bars@[k].value_label is None,
        decreases sorted@.len() - i,
    {
        assert(rows[i as int] == (sorted@[i as int].0@, sorted@[i as int].1));
        let ghost prev = bars@;
        bars.push(
            Bar {
                label: String::from_str(sorted[i].0.as_str()),
                value: sorted[i].1,
                value_label: None,
            },
        );
        assert forall|k: int| 0 <= k < i + 1 implies #[trigger] bars@[k].label@ == rows[k].0
            && bars@[k].value == rows[k].1 && bars@[k].value_label is None by {
            if k < i {
                assert(bars@[k] == prev[k]);
            }
        }
        i += 1;
    }
    bars
}

} // verus!
