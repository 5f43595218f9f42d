//! `git_commits_activity` — commits per day over the last 52 weeks, laid out like GitHub's
//! contribution graph: the rightmost column holds this week, rows are weekdays from Sunday.
//! `Heatmap` is the default; `NumberSeries` flattens the grid into 364 daily points, oldest
//! first; `Text` is a one-line total.

use vstd::prelude::*;
use vstd::string::*;

use crate::fetcher::{FetchContext, Safety};
use crate::payload::{Body, HeatmapData, NumberSeriesData};
use crate::render::Shape;
use crate::samples;
use crate::text::{dec, u64_to_string, views};
use crate::time::{
    date_at, day_number, days_between, first_date, last_date, lemma_date_at,
    lemma_day_number_order, lemma_weekday_of_day_number, shift_days, short_month,
    spec_short_month, spec_weekday, valid_date, weekday_from_sunday, Date,
};

use super::{repo_cache_key, spec_repo_cache_key, text_body};

verus! {

/// The `git_commits_activity` fetcher.
pub struct GitCommitsActivity;

/// Columns of the grid, one per week.
pub const WEEKS: usize = 52;

/// Rows of the grid, one per weekday.
pub const DAYS_PER_WEEK: usize = 7;

pub open spec fn spec_shapes() -> Seq<Shape> {
    seq![Shape::Heatmap, Shape::NumberSeries, Shape::Text]
}

impl GitCommitsActivity {
    /// Catalog name.
    pub fn name(&self) -> (r: &'static str)
        ensures
            r@ == "git_commits_activity"@,
    {
        "git_commits_activity"
    }

    /// Trust class.
    pub fn safety(&self) -> (r: Safety)
        ensures
            r == Safety::Safe,
    {
        Safety::Safe
    }

    /// Shapes this fetcher can produce.
    pub fn shapes(&self) -> (r: Vec<Shape>)
        ensures
            r@ == spec_shapes(),
    {
        let r = vec![Shape::Heatmap, Shape::NumberSeries, Shape::Text];
        assert(r@ =~= spec_shapes());
        r
    }

    /// Shape used when the widget names none.
    pub fn default_shape(&self) -> (r: Shape)
        ensures
            r == Shape::Heatmap,
    {
        Shape::Heatmap
    }

    /// Cache key for the repository rooted at `root`.
    pub fn cache_key(&self, ctx: &FetchContext, root: &str) -> (k: String)
        ensures
            k@ == spec_repo_cache_key("git_commits_activity"@, root@, *ctx),
    {
        repo_cache_key("git_commits_activity", root, ctx)
    }

    /// Canned body per supported shape.
    pub fn sample_body(&self, shape: Shape) -> (r: Option<Body>)
        ensures
            shape == Shape::Heatmap ==> (r matches Some(Body::Heatmap(d)) && d.cells@.len() == 7),
            shape == Shape::NumberSeries ==> (r matches Some(Body::NumberSeries(d))
                && d.values@.len() == 20),
            shape == Shape::Text ==> (r matches Some(Body::Text(d)) && d.value@
                == "42 commits this month"@),
            !(shape == Shape::Heatmap || shape == Shape::NumberSeries || shape == Shape::Text)
                ==> r is None,
    {
        match shape {
            Shape::Heatmap => Some(samples::heatmap_grid(7, 14)),
            Shape::NumberSeries => Some(
                samples::number_series(
                    &[2, 5, 3, 8, 4, 9, 6, 11, 7, 3, 4, 6, 2, 5, 8, 10, 7, 4, 9, 6],
                ),
            ),
            Shape::Text => Some(samples::text("42 commits this month")),
            _ => None,
        }
    }
}

/// Days from the grid's first Sunday to `today`: 51 whole weeks plus today's weekday.
pub open spec fn grid_span(today: Date) -> int {
    357 + spec_weekday(today)
}

/// Ordinal day of the grid's first cell.
pub open spec fn grid_start_day(today: Date) -> int {
    day_number(today) - grid_span(today)
}

/// The grid, and the rest of today's week, lie in the range of representable dates.
pub open spec fn grid_fits(today: Date) -> bool {
    &&& valid_date(today)
    &&& day_number(first_date()) + 363 <= day_number(today)
    &&& day_number(today) + 6 <= day_number(last_date())
}

/// The Sunday of the leftmost column, so that today's week is the last column.
pub fn grid_start_date(today: Date) -> (start: Date)
    requires
        grid_fits(today),
    ensures
        valid_date(start),
        day_number(start) == grid_start_day(today),
        spec_weekday(start) == 0,
{
    let wd = weekday_from_sunday(today);
    let back: i64 = 357 + wd as i64;
    match shift_days(today, -back) {
        Some(s) => {
            proof {
                lemma_weekday_of_day_number(today);
                lemma_weekday_of_day_number(s);
                let t = day_number(today);
                assert((t - (357 + t % 7)) % 7 == 0) by (nonlinear_arith);
            }
            s
        },
        None => today,
    }
}

/// Row (weekday) and column (week) of a date in the grid that starts on ordinal day
/// `start_day` and ends today; none outside it.
pub open spec fn spec_cell_at(date: Date, start_day: int, today: Date) -> Option<(int, int)> {
    let from = day_number(date) - start_day;
    if from < 0 || day_number(date) > day_number(today) || from / 7 >= 52 {
        None
    } else {
        Some((spec_weekday(date), from / 7))
    }
}

/// Grid cell of a date, given the grid's first day and today.
pub fn cell_of(date: Date, start: Date, today: Date) -> (r: Option<(usize, usize)>)
    requires
        valid_date(date),
        valid_date(start),
        valid_date(today),
    ensures
        match r {
            Some(p) => spec_cell_at(date, day_number(start), today) == Some((p.0 as int, p.1 as int)),
            None => spec_cell_at(date, day_number(start), today) is None,
        },
{
    let from = days_between(start, date);
    let rest = days_between(date, today);
    if from < 0 || rest < 0 {
        return None;
    }
    let col = from / 7;
    if col >= 52 {
        return None;
    }
    let row = weekday_from_sunday(date);
    Some((row as usize, col as usize))
}

/// Commits among `dates` that fall in cell (`row`, `col`).
pub open spec fn cell_count(dates: Seq<Date>, start_day: int, today: Date, row: int, col: int) -> nat
    decreases dates.len(),
{
    if dates.len() == 0 {
        0
    } else {
        cell_count(dates.drop_last(), start_day, today, row, col) + (if spec_cell_at(
            dates.last(),
            start_day,
            today,
        ) == Some((row, col)) {
            1nat
        } else {
            0nat
        })
    }
}

/// A count saturated at `u32::MAX`.
pub open spec fn capped(n: nat) -> u32 {
    if n > u32::MAX {
        u32::MAX
    } else {
        n as u32
    }
}

/// Seven rows of 52 cells.
pub open spec fn grid_shape(g: Seq<Vec<u32>>) -> bool {
    g.len() == 7 && forall|r: int| 0 <= r < 7 ==> #[trigger] g[r]@.len() == 52
}

/// Today always lands in the rightmost column, in its weekday's row, and the grid's first
/// day (a Sunday) in the top-left cell.
pub proof fn lemma_today_in_last_column(today: Date, start: Date)
    requires
        grid_fits(today),
        valid_date(start),
        day_number(start) == grid_start_day(today),
    ensures
        spec_cell_at(today, grid_start_day(today), today) == Some((spec_weekday(today), 51int)),
        spec_cell_at(start, grid_start_day(today), today) == Some((0int, 0int)),
{
    lemma_weekday_of_day_number(today);
    lemma_weekday_of_day_number(start);
    let t = day_number(today);
    assert((357 + t % 7) / 7 == 51);
    assert((t - (357 + t % 7)) % 7 == 0) by (nonlinear_arith);
}

/// Commit counts per cell, cell (`r`, `c`) at index `r * 52 + c`.
fn count_cells(dates: &[Date], start: Date, today: Date) -> (counts: Vec<u32>)
    requires
        valid_date(start),
        valid_date(today),
        forall|i: int| 0 <= i < dates@.len() ==> valid_date(#[trigger] dates@[i]),
    ensures
        counts@.len() == 364,
        forall|j: int|
            0 <= j < 364 ==> #[trigger] counts@[j] == capped(
                cell_count(dates@, day_number(start), today, j / 52, j % 52),
            ),
{
    let ghost sd = day_number(start);
    let mut counts: Vec<u32> = Vec::new();
    let mut k: usize = 0;
    while k < 364
        invariant
            k <= 364,
            counts@.len() == k,
            forall|j: int| 0 <= j < k ==> #[trigger] counts@[j] == 0,
        decreases 364 - k,
    {
        counts.push(0);
        k = k + 1;
    }
    let mut i: usize = 0;
    assert(dates@.take(0) =~= Seq::<Date>::empty());
    while i < dates.len()
        invariant
            i <= dates@.len(),
            counts@.len() == 364,
            valid_date(start),
            valid_date(today),
            sd == day_number(start),
            forall|j: int| 0 <= j < dates@.len() ==> valid_date(#[trigger] dates@[j]),
            forall|j: int|
                0 <= j < 364 ==> #[trigger] counts@[j] == capped(
                    cell_count(dates@.take(i as int), sd, today, j / 52, j % 52),
                ),
        decreases dates@.len() - i,
    {
        let ghost prev = dates@.take(i as int);
        let ghost next = dates@.take(i + 1);
        assert(next.drop_last() =~= prev);
        assert(next.last() == dates@[i as int]);
        match cell_of(dates[i], start, today) {
            Some((row, col)) => {
                proof {
                    lemma_weekday_of_day_number(dates@[i as int]);
                }
                let idx = row * 52 + col;
                let v = counts[idx];
                counts.set(idx, v.saturating_add(1));
                proof {
                    assert forall|j: int| 0 <= j < 364 implies #[trigger] counts@[j] == capped(
                        cell_count(next, sd, today, j / 52, j % 52),
                    ) by {
                        let r = row as int;
                        let c = col as int;
                        assert((j / 52 == r && j % 52 == c) <==> j == r * 52 + c) by (nonlinear_arith)
                            requires
                                0 <= j < 364,
                                0 <= r < 7,
                                0 <= c < 52,
                        ;
                    }
                }
            },
            None => {
                assert forall|j: int| 0 <= j < 364 implies #[trigger] counts@[j] == capped(
                    cell_count(next, sd, today, j / 52, j % 52),
                ) by {
                    assert(cell_count(next, sd, today, j / 52, j % 52) == cell_count(
                        prev,
                        sd,
                        today,
                        j / 52,
                        j % 52,
                    ));
                }
            },
        }
        i = i + 1;
    }
    assert(dates@.take(dates@.len() as int) =~= dates@);
    counts
}

/// Cuts 364 counts into seven rows of 52.
fn rows_of(counts: &Vec<u32>) -> (grid: Vec<Vec<u32>>)
    requires
        counts@.len() == 364,
    ensures
        grid_shape(grid@),
        forall|r: int, c: int|
            0 <= r < 7 && 0 <= c < 52 ==> #[trigger] grid@[r]@[c] == counts@[r * 52 + c],
{
    let mut grid: Vec<Vec<u32>> = Vec::new();
    let mut r: usize = 0;
    while r < 7
        invariant
            r <= 7,
            counts@.len() == 364,
            grid@.len() == r,
            forall|a: int| 0 <= a < r ==> #[trigger] grid@[a]@.len() == 52,
            forall|a: int, c: int|
                0 <= a < r && 0 <= c < 52 ==> #[trigger] grid@[a]@[c] == counts@[a * 52 + c],
        decreases 7 - r,
    {
        let mut row: Vec<u32> = Vec::new();
        let mut c: usize = 0;
        while c < 52
            invariant
                r < 7,
                c <= 52,
                counts@.len() == 364,
                row@.len() == c,
                forall|b: int| 0 <= b < c ==> #[trigger] row@[b] == counts@[r * 52 + b],
            decreases 52 - c,
        {
            row.push(counts[r * 52 + c]);
            c = c + 1;
        }
        grid.push(row);
        r = r + 1;
    }
    grid
}

/// Commit counts per weekday and week for the commit dates `dates` (local calendar days),
/// the last column holding today's week.
pub fn commits_grid(dates: &[Date], today: Date) -> (grid: Vec<Vec<u32>>)
    requires
        grid_fits(today),
        forall|i: int| 0 <= i < dates@.len() ==> valid_date(#[trigger] dates@[i]),
    ensures
        grid_shape(grid@),
        forall|r: int, c: int|
            0 <= r < 7 && 0 <= c < 52 ==> #[trigger] grid@[r]@[c] == capped(
                cell_count(dates@, grid_start_day(today), today, r, c),
            ),
{
    let start = grid_start_date(today);
    let counts = count_cells(dates, start, today);
    let grid = rows_of(&counts);
    assert forall|r: int, c: int| 0 <= r < 7 && 0 <= c < 52 implies #[trigger] grid@[r]@[c]
        == capped(cell_count(dates@, grid_start_day(today), today, r, c)) by {
        let j = r * 52 + c;
        assert(j / 52 == r && j % 52 == c && 0 <= j < 364) by (nonlinear_arith)
            requires
                j == r * 52 + c,
                0 <= r < 7,
                0 <= c < 52,
        ;
        assert(counts@[j] == capped(cell_count(dates@, day_number(start), today, j / 52, j % 52)));
    }
    grid
}

/// Grid flattened day by day, oldest first: entry `k` is row `k % 7` of column `k / 7`.
pub fn flatten_by_day(grid: &Vec<Vec<u32>>) -> (out: Vec<u64>)
    requires
        grid_shape(grid@),
    ensures
        out@.len() == 364,
        forall|k: int| 0 <= k < 364 ==> #[trigger] out@[k] == grid@[k % 7]@[k / 7],
{
    let mut out: Vec<u64> = Vec::new();
    let mut col: usize = 0;
    while col < 52
        invariant
            col <= 52,
            grid_shape(grid@),
            out@.len() == col * 7,
            forall|k: int| 0 <= k < out@.len() ==> #[trigger] out@[k] == grid@[k % 7]@[k / 7],
        decreases 52 - col,
    {
        let mut row: usize = 0;
        while row < 7
            invariant
                col < 52,
                row <= 7,
                grid_shape(grid@),
                out@.len() == col * 7 + row,
                forall|k: int| 0 <= k < out@.len() ==> #[trigger] out@[k] == grid@[k % 7]@[k / 7],
            decreases 7 - row,
        {
            let ghost k = (col * 7 + row) as int;
            assert(k % 7 == row as int && k / 7 == col as int) by (nonlinear_arith)
                requires
                    k == col * 7 + row,
                    row < 7,
            ;
            assert(grid@[row as int]@.len() == 52);
            out.push(grid[row][col] as u64);
            row = row + 1;
        }
        col = col + 1;
    }
    out
}

/// Sum of a row of counts.
pub open spec fn row_total(row: Seq<u32>) -> nat
    decreases row.len(),
{
    if row.len() == 0 {
        0
    } else {
        row_total(row.drop_last()) + row.last() as nat
    }
}

/// Sum of every cell.
pub open spec fn grid_total(g: Seq<Vec<u32>>) -> nat
    decreases g.len(),
{
    if g.len() == 0 {
        0
    } else {
        grid_total(g.drop_last()) + row_total(g.last()@)
    }
}

proof fn lemma_row_total_same(s: Seq<u32>, t: Seq<u32>)
    requires
        s.len() == t.len(),
        forall|j: int| 0 <= j < s.len() ==> s[j] == t[j],
    ensures
        row_total(s) == row_total(t),
    decreases s.len(),
{
    if s.len() > 0 {
        lemma_row_total_same(s.drop_last(), t.drop_last());
    }
}

proof fn lemma_row_total_bump(s: Seq<u32>, t: Seq<u32>, c: int)
    requires
        s.len() == t.len(),
        0 <= c < s.len(),
        t[c] == s[c] + 1,
        forall|j: int| 0 <= j < s.len() && j != c ==> s[j] == t[j],
    ensures
        row_total(t) == row_total(s) + 1,
    decreases s.len(),
{
    if c == s.len() - 1 {
        lemma_row_total_same(s.drop_last(), t.drop_last());
    } else {
        lemma_row_total_bump(s.drop_last(), t.drop_last(), c);
    }
}

proof fn lemma_grid_total_same(g: Seq<Vec<u32>>, h: Seq<Vec<u32>>)
    requires
        g.len() == h.len(),
        forall|i: int| 0 <= i < g.len() ==> row_total(#[trigger] g[i]@) == row_total(h[i]@),
    ensures
        grid_total(g) == grid_total(h),
    decreases g.len(),
{
    if g.len() > 0 {
        lemma_grid_total_same(g.drop_last(), h.drop_last());
    }
}

proof fn lemma_grid_total_bump(g: Seq<Vec<u32>>, h: Seq<Vec<u32>>, r: int)
    requires
        g.len() == h.len(),
        0 <= r < g.len(),
        row_total(h[r]@) == row_total(g[r]@) + 1,
        forall|i: int| 0 <= i < g.len() && i != r ==> row_total(#[trigger] g[i]@) == row_total(h[i]@),
    ensures
        grid_total(h) == grid_total(g) + 1,
    decreases g.len(),
{
    if r == g.len() - 1 {
        lemma_grid_total_same(g.drop_last(), h.drop_last());
    } else {
        lemma_grid_total_bump(g.drop_last(), h.drop_last(), r);
    }
}

/// Every cell counts toward the total: in a 7×52 grid, one more commit in any single cell
/// (today's, in the last column, as much as any other) makes the total one larger, and an
/// empty grid totals zero.
pub proof fn lemma_total_counts_every_cell(g: Seq<Vec<u32>>, h: Seq<Vec<u32>>, r: int, c: int)
    requires
        grid_shape(g),
        grid_shape(h),
        0 <= r < 7,
        0 <= c < 52,
        h[r]@[c] == g[r]@[c] + 1,
        forall|i: int, j: int|
            0 <= i < 7 && 0 <= j < 52 && (i != r || j != c) ==> #[trigger] h[i]@[j] == g[i]@[j],
    ensures
        grid_total(h) == grid_total(g) + 1,
        (forall|i: int, j: int| 0 <= i < 7 && 0 <= j < 52 ==> #[trigger] g[i]@[j] == 0) ==> grid_total(
            g,
        ) == 0,
{
    assert forall|i: int| 0 <= i < 7 && i != r implies row_total(#[trigger] g[i]@) == row_total(
        h[i]@,
    ) by {
        assert forall|j: int| 0 <= j < g[i]@.len() implies g[i]@[j] == h[i]@[j] by {
            assert(h[i]@[j] == g[i]@[j]);
        }
        lemma_row_total_same(g[i]@, h[i]@);
    }
    assert forall|j: int| 0 <= j < 52 && j != c implies g[r]@[j] == h[r]@[j] by {
        assert(h[r]@[j] == g[r]@[j]);
    }
    lemma_row_total_bump(g[r]@, h[r]@, c);
    lemma_grid_total_bump(g, h, r);
    if forall|i: int, j: int| 0 <= i < 7 && 0 <= j < 52 ==> #[trigger] g[i]@[j] == 0 {
        lemma_empty_grid_total(g, 7);
    }
}

proof fn lemma_zero_row_total(s: Seq<u32>)
    requires
        forall|j: int| 0 <= j < s.len() ==> s[j] == 0,
    ensures
        row_total(s) == 0,
    decreases s.len(),
{
    if s.len() > 0 {
        lemma_zero_row_total(s.drop_last());
    }
}

proof fn lemma_empty_grid_total(g: Seq<Vec<u32>>, n: int)
    requires
        n == g.len(),
        n <= 7,
        grid_shape_prefix(g),
        forall|i: int, j: int| 0 <= i < n && 0 <= j < 52 ==> #[trigger] g[i]@[j] == 0,
    ensures
        grid_total(g) == 0,
    decreases n,
{
    if n > 0 {
        lemma_empty_grid_total(g.drop_last(), n - 1);
        assert forall|j: int| 0 <= j < g.last()@.len() implies g.last()@[j] == 0 by {
            assert(g[n - 1]@[j] == 0);
        }
        lemma_zero_row_total(g.last()@);
    }
}

/// Rows of 52 cells.
pub open spec fn grid_shape_prefix(g: Seq<Vec<u32>>) -> bool {
    forall|r: int| 0 <= r < g.len() ==> #[trigger] g[r]@.len() == 52
}

fn total_of(grid: &Vec<Vec<u32>>) -> (t: u64)
    requires
        grid_shape(grid@),
    ensures
        t == grid_total(grid@),
{
    let mut t: u64 = 0;
    let mut r: usize = 0;
    assert(grid@.take(0) =~= Seq::<Vec<u32>>::empty());
    while r < 7
        invariant
            r <= 7,
            grid_shape(grid@),
            t == grid_total(grid@.take(r as int)),
            t <= r * 52 * 4294967295,
        decreases 7 - r,
    {
        let row = &grid[r];
        assert(row@.len() == 52);
        let mut c: usize = 0;
        let ghost base = t as int;
        assert(row@.take(0) =~= Seq::<u32>::empty());
        while c < 52
            invariant
                r < 7,
                c <= 52,
                row@.len() == 52,
                base <= r * 52 * 4294967295,
                t == base + row_total(row@.take(c as int)),
                t <= base + c * 4294967295,
            decreases 52 - c,
        {
            assert(row@.take(c + 1).drop_last() =~= row@.take(c as int));
            t = t + row[c] as u64;
            c = c + 1;
        }
        assert(row@.take(52) =~= row@);
        assert(grid@.take(r + 1).drop_last() =~= grid@.take(r as int));
        r = r + 1;
    }
    assert(grid@.take(7) =~= grid@);
    t
}

/// Week `week` of the grid starting on ordinal `start_day`, read from its day `k` on: the
/// month of the first day that is the 1st of a month other than `last`.
pub open spec fn new_month_from(start_day: int, week: int, k: int, last: u32) -> Option<u32>
    decreases 7 - k,
{
    if k >= 7 || k < 0 {
        None
    } else {
        let d = date_at(start_day + 7 * week + k);
        if d.day == 1 && d.month != last {
            Some(d.month)
        } else {
            new_month_from(start_day, week, k + 1, last)
        }
    }
}

/// Column labels of the first `weeks` weeks, with the month last labelled: a week gets the
/// short name of a month that begins in it.
pub open spec fn week_labels(start_day: int, weeks: int) -> (Seq<Seq<char>>, u32)
    decreases weeks,
{
    if weeks <= 0 {
        (Seq::empty(), 0)
    } else {
        let (labels, last) = week_labels(start_day, weeks - 1);
        match new_month_from(start_day, weeks - 1, 0, last) {
            Some(m) => (labels.push(spec_short_month(m)), m),
            None => (labels.push(Seq::empty()), last),
        }
    }
}

/// One label per week of the grid starting at `start`: the short month name where a month
/// begins, empty elsewhere.
pub fn month_labels(start: Date) -> (labels: Vec<String>)
    requires
        valid_date(start),
        day_number(start) + 363 <= day_number(last_date()),
    ensures
        labels@.len() == 52,
        views(labels@) == week_labels(day_number(start), 52).0,
{
    let ghost sd = day_number(start);
    proof {
        assert(valid_date(first_date()));
        lemma_day_number_order(first_date(), start);
    }
    let mut labels: Vec<String> = Vec::new();
    let mut last: u32 = 0;
    let mut w: usize = 0;
    while w < 52
        invariant
            w <= 52,
            valid_date(start),
            sd == day_number(start),
            day_number(first_date()) <= sd,
            sd + 363 <= day_number(last_date()),
            labels@.len() == w,
            (views(labels@), last) == week_labels(sd, w as int),
        decreases 52 - w,
    {
        let mut found: Option<u32> = None;
        let mut k: usize = 0;
        while k < 7
            invariant_except_break
                found is None,
            invariant
                w < 52,
                k <= 7,
                valid_date(start),
                sd == day_number(start),
                day_number(first_date()) <= sd,
                sd + 363 <= day_number(last_date()),
                found is None ==> new_month_from(sd, w as int, 0, last) == new_month_from(
                    sd,
                    w as int,
                    k as int,
                    last,
                ),
            ensures
                found == new_month_from(sd, w as int, 0, last),
            decreases 7 - k,
        {
            let off: i64 = (7 * w + k) as i64;
            match shift_days(start, off) {
                Some(x) => {
                    proof {
                        lemma_date_at(x);
                    }
                    if x.day == 1 && x.month != last {
                        found = Some(x.month);
                        break;
                    }
                },
                None => {},
            }
            k = k + 1;
        }
        let ghost pre = views(labels@);
        match found {
            Some(m) => {
                labels.push(short_month(m));
                last = m;
            },
            None => {
                labels.push(String::new());
            },
        }
        proof {
            assert(views(labels@) =~= pre.push(views(labels@).last()));
        }
        w = w + 1;
    }
    labels
}

/// `N commits in the last 52 weeks`, empty when there were none.
pub open spec fn activity_summary(total: nat) -> Seq<char> {
    if total == 0 {
        Seq::empty()
    } else {
        dec(total) + " commits in the last 52 weeks"@
    }
}

/// What `render_body` yields for each shape.
pub open spec fn activity_body_ok(grid: Vec<Vec<u32>>, today: Date, shape: Shape, b: Body) -> bool {
    match shape {
        Shape::NumberSeries => b matches Body::NumberSeries(d) && d.values@.len() == 364
            && forall|k: int| 0 <= k < 364 ==> #[trigger] d.values@[k] == grid@[k % 7]@[k / 7],
        Shape::Text => b matches Body::Text(d) && d.value@ == activity_summary(grid_total(grid@)),
        _ => b matches Body::Heatmap(d) && d.cells == grid && d.thresholds is None
            && d.row_labels is None && match d.col_labels {
                Some(l) => views(l@) == week_labels(grid_start_day(today), 52).0,
                None => false,
            },
    }
}

/// Renders the grid in the requested shape; other shapes get the heatmap.
pub fn render_body(grid: Vec<Vec<u32>>, today: Date, shape: Shape) -> (b: Body)
    requires
        grid_shape(grid@),
        grid_fits(today),
    ensures
        activity_body_ok(grid, today, shape, b),
{
    match shape {
        Shape::NumberSeries => Body::NumberSeries(NumberSeriesData { values: flatten_by_day(&grid) }),
        Shape::Text => {
            let total = total_of(&grid);
            if total == 0 {
                proof {
                    reveal_strlit("");
                    assert(""@ =~= Seq::<char>::empty());
                }
                text_body("")
            } else {
                let mut s = u64_to_string(total);
                s.append(" commits in the last 52 weeks");
                Body::Text(crate::payload::TextData { value: s })
            }
        },
        _ => {
            let start = grid_start_date(today);
            let labels = month_labels(start);
            Body::Heatmap(
                HeatmapData { cells: grid, thresholds: None, row_labels: None, col_labels: Some(labels) },
            )
        },
    }
}

} // verus!
