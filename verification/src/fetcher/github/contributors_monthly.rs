//! `github_contributors_monthly` — who is shipping lately: commits per contributor over the
//! last N days (30 by default), from the repository statistics, most commits first.

use vstd::prelude::*;
use vstd::string::*;

use crate::fetcher::FetchContext;
use super::common::{cache_key as keyed_cache_key, spec_cache_key};

use crate::fetcher::{spec_limit, limit_or, FetchError, OptionSchema, Safety};
use crate::payload::{
    Bar, BarsData, Body, EntriesData, Entry, LinkedLine, LinkedTextBlockData,
    MarkdownTextBlockData, TextBlockData, TextData,
};
use crate::rank::{rows_view, sort_by_count_desc, sort_rows};
use crate::render::Shape;
use crate::samples;
use crate::text::{opt_str_view, opt_string_view};
use crate::text::{dec, join, join_strings, u64_to_string, views};

use super::common::RepoSlug;

verus! {

/// The `github_contributors_monthly` fetcher.
pub struct GithubContributorsMonthly;

/// Widget options.
#[derive(Debug, Default, Clone)]
pub struct Options {
    pub repo: Option<String>,
    pub limit: Option<u32>,
    pub days: Option<u32>,
}

/// A contributor's account.
#[derive(Debug, Clone)]
pub struct Author {
    pub login: String,
}

/// One week of a contributor's activity: its Sunday (Unix seconds) and its commits.
#[derive(Debug, Clone, Copy)]
pub struct Week {
    pub w: i64,
    pub c: u64,
}

/// A contributor in the repository statistics (anonymous ones have no author).
#[derive(Debug, Clone)]
pub struct Contributor {
    pub author: Option<Author>,
    pub weeks: Vec<Week>,
}

pub open spec fn spec_shapes() -> Seq<Shape> {
    seq![Shape::Bars, Shape::LinkedTextBlock, Shape::Entries, Shape::TextBlock, Shape::MarkdownTextBlock, Shape::Text]
}

impl GithubContributorsMonthly {
    /// Cache key: the context plus the target repository (`owner/name`).
    pub fn cache_key(&self, ctx: &FetchContext, repo: &str) -> (k: String)
        ensures
            k@ == spec_cache_key("github_contributors_monthly"@, *ctx, repo@),
    {
        keyed_cache_key("github_contributors_monthly", ctx, repo)
    }
}

impl GithubContributorsMonthly {
    /// Catalog name.
    pub fn name(&self) -> (r: &'static str)
        ensures
            r@ == "github_contributors_monthly"@,
    {
        "github_contributors_monthly"
    }

    /// Trust class.
    pub fn safety(&self) -> (r: Safety)
        ensures
            r == Safety::Safe,
    {
        Safety::Safe
    }

    /// One-paragraph catalog description.
    pub fn description(&self) -> (r: &'static str)
        ensures
            r@ == "Top contributors to a repo over the last N days, ranked by commit count. Bars / Entries / LinkedTextBlock / TextBlock / MarkdownTextBlock all carry the ranking; Text collapses to a `\"@alice +42 / @bob +27 / …\"` headline."@,
    {
        "Top contributors to a repo over the last N days, ranked by commit count. Bars / Entries / LinkedTextBlock / TextBlock / MarkdownTextBlock all carry the ranking; Text collapses to a `\"@alice +42 / @bob +27 / …\"` headline."
    }

    /// Shapes this fetcher can produce.
    pub fn shapes(&self) -> (r: Vec<Shape>)
        ensures
            r@ == spec_shapes(),
    {
        let r = vec![Shape::Bars, Shape::LinkedTextBlock, Shape::Entries, Shape::TextBlock, Shape::MarkdownTextBlock, Shape::Text];
        assert(r@ =~= spec_shapes());
        r
    }

    /// Shape used when the widget names none.
    pub fn default_shape(&self) -> (r: Shape)
        ensures
            r == Shape::Bars,
    {
        Shape::Bars
    }

    /// Documented options.
    pub fn option_schemas(&self) -> (r: Vec<OptionSchema>)
        ensures
            r@.len() == 3,
            r@[0].name@ == "repo"@,
            r@[0].required == false,
            opt_str_view(r@[0].default) == Some("git remote of cwd"@),
            r@[1].name@ == "limit"@,
            r@[1].required == false,
            opt_str_view(r@[1].default) == Some("10"@),
            r@[2].name@ == "days"@,
            r@[2].required == false,
            opt_str_view(r@[2].default) == Some("30"@),
    {
        vec![
            OptionSchema {
                name: "repo",
                type_hint: "\"owner/name\"",
                required: false,
                default: Some("git remote of cwd"),
                description: "Repository to query.",
            },
            OptionSchema {
                name: "limit",
                type_hint: "integer (1..=30)",
                required: false,
                default: Some("10"),
                description: "Maximum number of contributors to show.",
            },
            OptionSchema {
                name: "days",
                type_hint: "integer (7..=365)",
                required: false,
                default: Some("30"),
                description: "Window size (in days) the monthly total is summed over.",
            },
        ]
    }

}


impl GithubContributorsMonthly {
    /// Canned body per supported shape.
    pub fn sample_body(&self, shape: Shape) -> (r: Option<Body>)
        ensures
            shape == Shape::Text ==> (r matches Some(Body::Text(d)) && d.value@
                == "@alice +42 · @bob +27 · @charlie +11"@),
            shape == Shape::MarkdownTextBlock ==> (r matches Some(Body::MarkdownTextBlock(d))
                && d.value@ == "1. **@alice** — 42\n2. **@bob** — 27\n3. **@charlie** — 11"@),
            shape == Shape::Bars ==> (r matches Some(Body::Bars(d)) && d.bars@.len() == 3),
            shape == Shape::Entries ==> (r matches Some(Body::Entries(d)) && d.items@.len() == 3),
            shape == Shape::LinkedTextBlock ==> (r matches Some(Body::LinkedTextBlock(d))
                && d.items@.len() == 3),
            shape == Shape::TextBlock ==> (r matches Some(Body::TextBlock(d)) && d.lines@.len()
                == 3),
            !(shape == Shape::Bars || shape == Shape::Entries || shape == Shape::LinkedTextBlock
                || shape == Shape::TextBlock || shape == Shape::MarkdownTextBlock || shape
                == Shape::Text) ==> r is None,
    {
        match shape {
            Shape::Bars => Some(samples::bars(&[("alice", 42), ("bob", 27), ("charlie", 11)])),
            Shape::Entries => Some(
                samples::entries(&[("alice", "42"), ("bob", "27"), ("charlie", "11")]),
            ),
            Shape::LinkedTextBlock => Some(
                samples::linked_text_block(
                    &[
                        ("alice  42", Some("https://github.com/alice")),
                        ("bob  27", Some("https://github.com/bob")),
                        ("charlie  11", Some("https://github.com/charlie")),
                    ],
                ),
            ),
            Shape::TextBlock => Some(
                samples::text_block(&["alice  42", "bob  27", "charlie  11"]),
            ),
            Shape::MarkdownTextBlock => Some(
                samples::markdown("1. **@alice** — 42\n2. **@bob** — 27\n3. **@charlie** — 11"),
            ),
            Shape::Text => Some(samples::text("@alice +42 · @bob +27 · @charlie +11")),
            _ => None,
        }
    }
}

/// Statistics endpoint of a repository.
pub fn stats_path(slug: &RepoSlug) -> (r: String)
    ensures
        r@ == "https://api.github.com/repos/"@ + slug.owner@ + "/"@ + slug.name@
            + "/stats/contributors"@,
{
    let mut r = String::from_str("https://api.github.com/repos/");
    r.append(slug.owner.as_str());
    r.append("/");
    r.append(slug.name.as_str());
    r.append("/stats/contributors");
    r
}

/// Rows shown: the configured limit (default 10) within 1..=30.
pub fn row_limit(opts: &Options) -> (l: usize)
    ensures
        l == spec_limit(opts.limit, 10, 1, 30),
{
    limit_or(opts.limit, 10, 1, 30) as usize
}

/// Days summed: the configured window (default 30) within 7..=365.
pub fn window_days(opts: &Options) -> (d: i64)
    ensures
        d == spec_limit(opts.days, 30, 7, 365),
{
    limit_or(opts.days, 30, 7, 365) as i64
}

/// The error while the statistics are still being computed (the API answered 202).
pub fn warming_up() -> (e: FetchError)
    ensures
        e matches FetchError::Failed(m) && m@ == "github: stats warming up (refresh in a minute)"@,
{
    FetchError::Failed(String::from_str("github: stats warming up (refresh in a minute)"))
}

/// Commits in the weeks that start at or after `cutoff`.
pub open spec fn recent_commits(weeks: Seq<Week>, cutoff: int) -> nat
    decreases weeks.len(),
{
    if weeks.len() == 0 {
        0
    } else {
        recent_commits(weeks.drop_last(), cutoff) + if weeks.last().w >= cutoff {
            weeks.last().c as nat
        } else {
            0
        }
    }
}

/// One row per named contributor with commits in the window.
pub open spec fn contributor_rows(stats: Seq<Contributor>, cutoff: int) -> Seq<(Seq<char>, u64)>
    decreases stats.len(),
{
    if stats.len() == 0 {
        Seq::empty()
    } else {
        let rest = contributor_rows(stats.drop_last(), cutoff);
        let c = stats.last();
        let n = recent_commits(c.weeks@, cutoff);
        match c.author {
            Some(a) => if n > 0 {
                rest.push((a.login@, n as u64))
            } else {
                rest
            },
            None => rest,
        }
    }
}

/// No contributor's windowed total overflows.
pub open spec fn totals_fit(stats: Seq<Contributor>, cutoff: int) -> bool {
    forall|i: int| 0 <= i < stats.len() ==> recent_commits(#[trigger] stats[i].weeks@, cutoff) <= u64::MAX
}

fn windowed(weeks: &Vec<Week>, cutoff: i64) -> (n: u64)
    requires
        recent_commits(weeks@, cutoff as int) <= u64::MAX,
    ensures
        n == recent_commits(weeks@, cutoff as int),
{
    let mut n: u64 = 0;
    let mut i: usize = 0;
    assert(weeks@.take(0) =~= Seq::<Week>::empty());
    while i < weeks.len()
        invariant
            i <= weeks@.len(),
            recent_commits(weeks@, cutoff as int) <= u64::MAX,
            n == recent_commits(weeks@.take(i as int), cutoff as int),
        decreases weeks@.len() - i,
    {
        proof {
            lemma_recent_commits_prefix(weeks@, cutoff as int, i + 1);
            assert(weeks@.take(i + 1).drop_last() =~= weeks@.take(i as int));
        }
        if weeks[i].w >= cutoff {
            n = n + weeks[i].c;
        }
        i += 1;
    }
    assert(weeks@.take(weeks@.len() as int) =~= weeks@);
    n
}

proof fn lemma_recent_commits_prefix(weeks: Seq<Week>, cutoff: int, k: int)
    requires
        0 <= k <= weeks.len(),
    ensures
        recent_commits(weeks.take(k), cutoff) <= recent_commits(weeks, cutoff),
    decreases weeks.len(),
{
    if k < weeks.len() {
        lemma_recent_commits_prefix(weeks.drop_last(), cutoff, k);
        assert(weeks.drop_last().take(k) =~= weeks.take(k));
    } else {
        assert(weeks.take(k) =~= weeks);
    }
}

/// Named contributors with commits since `now - days`, most commits first (equal counts
/// keep the statistics' order), at most `limit`.
pub fn top_contributors(stats: &Vec<Contributor>, now: i64, days: i64, limit: usize) -> (rows: Vec<(String, u64)>)
    requires
        0 <= days <= 365,
        now - days * 86_400 >= i64::MIN,
        totals_fit(stats@, now - days * 86_400),
    ensures
        rows_view(rows@) == ({
            let all = sort_rows(contributor_rows(stats@, now - days * 86_400), false);
            all.take(if limit < all.len() { limit as int } else { all.len() as int })
        }),
{
    let cutoff = now - days * 86_400;
    let mut found: Vec<(String, u64)> = Vec::new();
    let mut i: usize = 0;
    assert(stats@.take(0) =~= Seq::<Contributor>::empty());
    while i < stats.len()
        invariant
            i <= stats@.len(),
            cutoff == now - days * 86_400,
            totals_fit(stats@, cutoff as int),
            rows_view(found@) == contributor_rows(stats@.take(i as int), cutoff as int),
        decreases stats@.len() - i,
    {
        let c = &stats[i];
        let n = windowed(&c.weeks, cutoff);
        let ghost pre = rows_view(found@);
        assert(stats@.take(i + 1).drop_last() =~= stats@.take(i as int));
        assert(stats@.take(i + 1).last() == stats@[i as int]);
        match &c.author {
            Some(a) => {
                if n > 0 {
                    found.push((a.login.clone(), n));
                    assert(rows_view(found@) =~= pre.push((a.login@, n)));
                }
            },
            None => {},
        }
        i += 1;
    }
    assert(stats@.take(stats@.len() as int) =~= stats@);
    let mut rows = sort_by_count_desc(&found);
    proof {
        crate::rank::lemma_sort_rows_sorted(rows_view(found@), false);
    }
    rows.truncate(limit);
    assert(rows_view(rows@) =~= ({
        let all = sort_rows(contributor_rows(stats@, cutoff as int), false);
        all.take(if limit < all.len() { limit as int } else { all.len() as int })
    }));
    rows
}

/// `name  count`.
pub open spec fn name_count(r: (Seq<char>, u64)) -> Seq<char> {
    r.0 + "  "@ + dec(r.1 as nat)
}

/// `<n>. **@name** — count`, numbered from 1.
pub open spec fn markdown_row(i: int, r: (Seq<char>, u64)) -> Seq<char> {
    dec((i + 1) as nat) + ". **@"@ + r.0 + "** — "@ + dec(r.1 as nat)
}

/// `@name +count`.
pub open spec fn headline_part(r: (Seq<char>, u64)) -> Seq<char> {
    "@"@ + r.0 + " +"@ + dec(r.1 as nat)
}

/// What the ranking renders as, per shape (`Bars` for every shape not listed).
pub open spec fn monthly_body_ok(rows: Seq<(Seq<char>, u64)>, shape: Shape, b: Body) -> bool {
    match shape {
        Shape::Entries => b matches Body::Entries(d) && d.items@.len() == rows.len() && forall|i: int|
            0 <= i < rows.len() ==> #[trigger] d.items@[i].key@ == rows[i].0 && opt_string_view(
                d.items@[i].value,
            ) == Some(dec(rows[i].1 as nat)) && d.items@[i].status is None,
        Shape::LinkedTextBlock => b matches Body::LinkedTextBlock(d) && d.items@.len() == rows.len()
            && forall|i: int|
            0 <= i < rows.len() ==> #[trigger] d.items@[i].text@ == name_count(rows[i])
                && opt_string_view(d.items@[i].url) == Some("https://github.com/"@ + rows[i].0),
        Shape::TextBlock => b matches Body::TextBlock(d) && views(d.lines@) == Seq::new(
            rows.len(),
            |i: int| name_count(rows[i]),
        ),
        Shape::MarkdownTextBlock => b matches Body::MarkdownTextBlock(d) && d.value@ == join(
            Seq::new(rows.len(), |i: int| markdown_row(i, rows[i])),
            "\n"@,
        ),
        Shape::Text => b matches Body::Text(d) && d.value@ == join(
            Seq::new(rows.len(), |i: int| headline_part(rows[i])),
            " · "@,
        ),
        _ => b matches Body::Bars(d) && d.bars@.len() == rows.len() && forall|i: int|
            0 <= i < rows.len() ==> #[trigger] d.bars@[i].label@ == rows[i].0 && d.bars@[i].value
                == rows[i].1 && d.bars@[i].value_label is None,
    }
}

fn name_count_line(r: &(String, u64)) -> (s: String)
    ensures
        s@ == name_count((r.0@, r.1)),
{
    let mut s = String::from_str(r.0.as_str());
    s.append("  ");
    let c = u64_to_string(r.1);
    s.append(c.as_str());
    s
}

/// Renders the ranking into the requested shape.
pub fn render_body(rows: &Vec<(String, u64)>, shape: Shape) -> (b: Body)
    ensures
        monthly_body_ok(rows_view(rows@), shape, b),
{
    let ghost rv = rows_view(rows@);
    let n = rows.len();
    match shape {
        Shape::Entries => {
            let mut items: Vec<Entry> = Vec::new();
            let mut i: usize = 0;
            while i < n
                invariant
                    n == rows@.len(),
                    rv == rows_view(rows@),
                    i <= n,
                    items@.len() == i,
                    forall|k: int|
                        0 <= k < i ==> #[trigger] items@[k].key@ == rv[k].0 && opt_string_view(
                            items@[k].value,
                        ) == Some(dec(rv[k].1 as nat)) && items@[k].status is None,
                decreases n - i,
            {
                assert(rv[i as int] == (rows@[i as int].0@, rows@[i as int].1));
                let ghost prev = items@;
                items.push(
                    Entry {
                        key: String::from_str(rows[i].0.as_str()),
                        value: Some(u64_to_string(rows[i].1)),
                        status: None,
                    },
                );
                assert forall|k: int| 0 <= k < i + 1 implies #[trigger] items@[k].key@ == rv[k].0
                    && opt_string_view(items@[k].value) == Some(dec(rv[k].1 as nat))
                    && items@[k].status is None by {
                    if k < i {
                        assert(items@[k] == prev[k]);
                    }
                }
                i += 1;
            }
            Body::Entries(EntriesData { items })
        },
        Shape::LinkedTextBlock => {
            let mut items: Vec<LinkedLine> = Vec::new();
            let mut i: usize = 0;
            while i < n
                invariant
                    n == rows@.len(),
                    rv == rows_view(rows@),
                    i <= n,
                    items@.len() == i,
                    forall|k: int|
                        0 <= k < i ==> #[trigger] items@[k].text@ == name_count(rv[k])
                            && opt_string_view(items@[k].url) == Some(
                            "https://github.com/"@ + rv[k].0,
                        ),
                decreases n - i,
            {
                assert(rv[i as int] == (rows@[i as int].0@, rows@[i as int].1));
                let mut url = String::from_str("https://github.com/");
                url.append(rows[i].0.as_str());
                let ghost prev = items@;
                items.push(LinkedLine { text: name_count_line(&rows[i]), url: Some(url) });
                assert forall|k: int| 0 <= k < i + 1 implies #[trigger] items@[k].text@
                    == name_count(rv[k]) && opt_string_view(items@[k].url) == Some(
                    "https://github.com/"@ + rv[k].0,
                ) by {
                    if k < i {
                        assert(items@[k] == prev[k]);
                    }
                }
                i += 1;
            }
            Body::LinkedTextBlock(LinkedTextBlockData { items })
        },
        Shape::TextBlock => {
            let mut lines: Vec<String> = Vec::new();
            let mut i: usize = 0;
            while i < n
                invariant
                    n == rows@.len(),
                    rv == rows_view(rows@),
                    i <= n,
                    lines@.len() == i,
                    forall|k: int| 0 <= k < i ==> #[trigger] lines@[k]@ == name_count(rv[k]),
                decreases n - i,
            {
                assert(rv[i as int] == (rows@[i as int].0@, rows@[i as int].1));
                lines.push(name_count_line(&rows[i]));
                i += 1;
            }
            assert(views(lines@) =~= Seq::new(rv.len(), |k: int| name_count(rv[k])));
            Body::TextBlock(TextBlockData { lines })
        },
        Shape::MarkdownTextBlock => {
            let mut parts: Vec<String> = Vec::new();
            let mut i: usize = 0;
            while i < n
                invariant
                    n == rows@.len(),
                    rv == rows_view(rows@),
                    i <= n,
                    parts@.len() == i,
                    forall|k: int| 0 <= k < i ==> #[trigger] parts@[k]@ == markdown_row(k, rv[k]),
                decreases n - i,
            {
                assert(rv[i as int] == (rows@[i as int].0@, rows@[i as int].1));
                let mut s = u64_to_string((i + 1) as u64);
                s.append(". **@");
                s.append(rows[i].0.as_str());
                s.append("** — ");
                let c = u64_to_string(rows[i].1);
                s.append(c.as_str());
                parts.push(s);
                i += 1;
            }
            assert(views(parts@) =~= Seq::new(rv.len(), |k: int| markdown_row(k, rv[k])));
            Body::MarkdownTextBlock(MarkdownTextBlockData { value: join_strings(&parts, "\n") })
        },
        Shape::Text => {
            let mut parts: Vec<String> = Vec::new();
            let mut i: usize = 0;
            while i < n
                invariant
                    n == rows@.len(),
                    rv == rows_view(rows@),
                    i <= n,
                    parts@.len() == i,
                    forall|k: int| 0 <= k < i ==> #[trigger] parts@[k]@ == headline_part(rv[k]),
                decreases n - i,
            {
                assert(rv[i as int] == (rows@[i as int].0@, rows@[i as int].1));
                let mut s = String::from_str("@");
                s.append(rows[i].0.as_str());
                s.append(" +");
                let c = u64_to_string(rows[i].1);
                s.append(c.as_str());
                parts.push(s);
                i += 1;
            }
            assert(views(parts@) =~= Seq::new(rv.len(), |k: int| headline_part(rv[k])));
            Body::Text(TextData { value: join_strings(&parts, " · ") })
        },
        _ => {
            let mut bars: Vec<Bar> = Vec::new();
            let mut i: usize = 0;
            while i < n
                invariant
                    n == rows@.len(),
                    rv == rows_view(rows@),
                    i <= n,
                    bars@.len() == i,
                    forall|k: int|
                        0 <= k < i ==> #[trigger] bars@[k].label@ == rv[k].0 && bars@[k].value
                            == rv[k].1 && bars@[k].value_label is None,
                decreases n - i,
            {
                assert(rv[i as int] == (rows@[i as int].0@, rows@[i as int].1));
                let ghost prev = bars@;
                bars.push(
                    Bar {
                        label: String::from_str(rows[i].0.as_str()),
                        value: rows[i].1,
                        value_label: None,
                    },
                );
                assert forall|k: int| 0 <= k < i + 1 implies #[trigger] bars@[k].label@ == rv[k].0
                    && bars@[k].value == rv[k].1 && bars@[k].value_label is None by {
                    if k < i {
                        assert(bars@[k] == prev[k]);
                    }
                }
                i += 1;
            }
            Body::Bars(BarsData { bars })
        },
    }
}

} // verus!
