//! `git_blame_heatmap` — per-file churn over the last 52 weeks: rows are the seven most
//! touched files (by file name), columns are weeks with this week rightmost, and a cell
//! counts the commits that week touching that file. `Text` summarises the ranking as
//! `name (count), …`.

use vstd::prelude::*;
use vstd::string::*;

use crate::fetcher::{FetchContext, Safety};
use crate::payload::{Body, HeatmapData};
use crate::rank::{rank_top, rows_view, sort_rows, tally, tally_ok};
use crate::render::Shape;
use crate::samples;
use crate::text::{after_last, after_last_char, dec, join, join_strings, str_eq, u64_to_string, views};
use crate::time::{day_number, days_between, valid_date, Date};

use super::commits_activity::{grid_fits, grid_start_date, grid_start_day};
use super::{repo_cache_key, spec_repo_cache_key, text_body};

verus! {

/// The `git_blame_heatmap` fetcher.
pub struct GitBlameHeatmap;

/// Columns of the grid, one per week.
pub const WEEKS: usize = 52;

/// Files kept as rows.
pub const TOP_FILES: usize = 7;

/// Commits the history walk reads at most.
pub const MAX_COMMITS: usize = 500;

pub open spec fn spec_shapes() -> Seq<Shape> {
    seq![Shape::Heatmap, Shape::Text]
}

impl GitBlameHeatmap {
    /// Catalog name.
    pub fn name(&self) -> (r: &'static str)
        ensures
            r@ == "git_blame_heatmap"@,
    {
        "git_blame_heatmap"
    }

    /// Trust class.
    pub fn safety(&self) -> (r: Safety)
        ensures
            r == Safety::Safe,
    {
        Safety::Safe
    }

    /// One-paragraph catalog description.
    pub fn description(&self) -> (r: &'static str)
        ensures
            r@ == "Per-file churn over the last 52 weeks: rows are the seven most-touched files, columns are weeks, cells are commit counts. Use it to spot hotspots; pair with `git_commits_activity` if you want overall cadence instead of per-file breakdown."@,
    {
        "Per-file churn over the last 52 weeks: rows are the seven most-touched files, columns are weeks, cells are commit counts. Use it to spot hotspots; pair with `git_commits_activity` if you want overall cadence instead of per-file breakdown."
    }

    /// Shapes this fetcher can produce.
    pub fn shapes(&self) -> (r: Vec<Shape>)
        ensures
            r@ == spec_shapes(),
    {
        let r = vec![Shape::Heatmap, Shape::Text];
        assert(r@ =~= spec_shapes());
        r
    }

    /// Shape used when the widget names none.
    pub fn default_shape(&self) -> (r: Shape)
        ensures
            r == Shape::Heatmap,
    {
        Shape::Heatmap
    }

    /// Cache key for the repository rooted at `root`.
    pub fn cache_key(&self, ctx: &FetchContext, root: &str) -> (k: String)
        ensures
            k@ == spec_repo_cache_key("git_blame_heatmap"@, root@, *ctx),
    {
        repo_cache_key("git_blame_heatmap", root, ctx)
    }

    /// Canned body per supported shape.
    pub fn sample_body(&self, shape: Shape) -> (r: Option<Body>)
        ensures
            shape == Shape::Heatmap ==> (r matches Some(Body::Heatmap(d)) && d.cells@.len() == 5),
            shape == Shape::Text ==> (r matches Some(Body::Text(d)) && d.value@
                == "src/main.rs (18), src/render/mod.rs (12), src/fetcher/mod.rs (9)"@),
            !(shape == Shape::Heatmap || shape == Shape::Text) ==> r is None,
    {
        match shape {
            Shape::Heatmap => Some(samples::heatmap_grid(5, 10)),
            Shape::Text => Some(
                samples::text("src/main.rs (18), src/render/mod.rs (12), src/fetcher/mod.rs (9)"),
            ),
            _ => None,
        }
    }
}

/// An entry a commit's tree diff against its first parent touched.
#[derive(Debug, Clone)]
pub struct ChangedEntry {
    pub location: String,
    pub is_tree: bool,
}

/// A walked commit: its calendar day in the widget's time zone and what its diff touched.
#[derive(Debug, Clone)]
pub struct CommitChanges {
    pub date: Date,
    pub changes: Vec<ChangedEntry>,
}

/// The ranked files, their change totals and their weekly counts.
#[derive(Debug, Clone)]
pub struct Churn {
    pub files: Vec<String>,
    pub totals: Vec<u32>,
    pub grid: Vec<Vec<u32>>,
}

/// The path of a changed file; directories and unnamed entries count as none.
pub open spec fn spec_changed(e: ChangedEntry) -> Option<Seq<char>> {
    if e.location@.len() == 0 || e.is_tree {
        None
    } else {
        Some(e.location@)
    }
}

/// Path of a changed file, none for a directory or an unnamed entry.
pub fn changed_path(e: &ChangedEntry) -> (r: Option<String>)
    ensures
        match r {
            Some(p) => spec_changed(*e) == Some(p@),
            None => spec_changed(*e) is None,
        },
{
    if e.location.unicode_len() == 0 || e.is_tree {
        None
    } else {
        Some(e.location.clone())
    }
}

/// Week column of a date in the grid starting on ordinal day `start_day`.
pub open spec fn spec_week_col(date: Date, start_day: int) -> Option<int> {
    let days = day_number(date) - start_day;
    if days < 0 || days / 7 >= 52 {
        None
    } else {
        Some(days / 7)
    }
}

/// Week column of a date in the grid that starts on `start`.
pub fn week_col(date: Date, start: Date) -> (r: Option<usize>)
    requires
        valid_date(date),
        valid_date(start),
    ensures
        match r {
            Some(c) => spec_week_col(date, day_number(start)) == Some(c as int),
            None => spec_week_col(date, day_number(start)) is None,
        },
{
    let days = days_between(start, date);
    if days < 0 {
        return None;
    }
    let col = days / 7;
    if col >= 52 {
        None
    } else {
        Some(col as usize)
    }
}

/// `(path, column)` for each changed file of a list of diff entries.
pub open spec fn entry_touches(es: Seq<ChangedEntry>, col: int) -> Seq<(Seq<char>, int)>
    decreases es.len(),
{
    if es.len() == 0 {
        Seq::empty()
    } else {
        entry_touches(es.drop_last(), col) + match spec_changed(es.last()) {
            Some(p) => seq![(p, col)],
            None => Seq::empty(),
        }
    }
}

/// `(path, column)` for every file change of the walked commits inside the grid, in walk
/// order; a commit that could not be read is `None`.
pub open spec fn touches(commits: Seq<Option<CommitChanges>>, start_day: int) -> Seq<(Seq<char>, int)>
    decreases commits.len(),
{
    if commits.len() == 0 {
        Seq::empty()
    } else {
        touches(commits.drop_last(), start_day) + match commits.last() {
            Some(c) => match spec_week_col(c.date, start_day) {
                Some(col) => entry_touches(c.changes@, col),
                None => Seq::empty(),
            },
            None => Seq::empty(),
        }
    }
}

/// The walked commits that count: the first `MAX_COMMITS`.
pub open spec fn counted(commits: Seq<Option<CommitChanges>>) -> Seq<Option<CommitChanges>> {
    if commits.len() > 500 {
        commits.take(500)
    } else {
        commits
    }
}

/// The paths of the touches.
pub open spec fn touch_names(t: Seq<(Seq<char>, int)>) -> Seq<Seq<char>> {
    Seq::new(t.len(), |k: int| t[k].0)
}

/// Touches of `path` in column `col`.
pub open spec fn touch_count(t: Seq<(Seq<char>, int)>, path: Seq<char>, col: int) -> nat
    decreases t.len(),
{
    if t.len() == 0 {
        0
    } else {
        touch_count(t.drop_last(), path, col) + (if t.last() == (path, col) {
            1nat
        } else {
            0nat
        })
    }
}

/// A count saturated at `u32::MAX`.
pub open spec fn capped(n: nat) -> u32 {
    if n > u32::MAX {
        u32::MAX
    } else {
        n as u32
    }
}

/// The churn for the touches `t` given their tally `totals`: the first seven by count (then
/// path), with their totals and weekly counts.
pub open spec fn churn_from(t: Seq<(Seq<char>, int)>, totals: Seq<(Seq<char>, u64)>, c: Churn) -> bool {
    let ranked = sort_rows(totals, true).take(
        if 7 < totals.len() { 7int } else { totals.len() as int },
    );
    &&& tally_ok(touch_names(t), totals)
    &&& ranked_rows(t, ranked, c)
}

/// Files, totals and weekly rows laid out for the ranked rows.
pub open spec fn ranked_rows(t: Seq<(Seq<char>, int)>, ranked: Seq<(Seq<char>, u64)>, c: Churn) -> bool {
    &&& c.files@.len() == ranked.len()
    &&& c.totals@.len() == ranked.len()
    &&& c.grid@.len() == ranked.len()
    &&& forall|i: int| 0 <= i < ranked.len() ==> #[trigger] c.files@[i]@ == ranked[i].0
    &&& forall|i: int| 0 <= i < ranked.len() ==> #[trigger] c.totals@[i] == capped(ranked[i].1 as nat)
    &&& forall|i: int| 0 <= i < ranked.len() ==> #[trigger] c.grid@[i]@.len() == 52
    &&& forall|i: int, col: int|
        0 <= i < ranked.len() && 0 <= col < 52 ==> #[trigger] c.grid@[i]@[col] == capped(
            touch_count(t, ranked[i].0, col),
        )
}

/// The churn of a walk: the touches of the counted commits, tallied and ranked.
pub open spec fn churn_ok(commits: Seq<Option<CommitChanges>>, today: Date, c: Churn) -> bool {
    exists|totals: Seq<(Seq<char>, u64)>|
        #[trigger] churn_from(touches(counted(commits), grid_start_day(today)), totals, c)
}

/// Paired paths and columns as touches.
pub open spec fn touch_view(names: Seq<String>, cols: Seq<usize>) -> Seq<(Seq<char>, int)> {
    Seq::new(names.len(), |k: int| (names[k]@, cols[k] as int))
}

/// Collects `(path, column)` of every in-grid file change of the first `MAX_COMMITS`
/// walked commits.
fn collect_touches(commits: &[Option<CommitChanges>], start: Date) -> (r: (Vec<String>, Vec<usize>))
    requires
        valid_date(start),
        forall|i: int| 0 <= i < commits@.len() ==> (#[trigger] commits@[i] matches Some(c) ==> valid_date(c.date)),
    ensures
        r.0@.len() == r.1@.len(),
        touch_view(r.0@, r.1@) == touches(counted(commits@), day_number(start)),
        forall|k: int| 0 <= k < r.1@.len() ==> #[trigger] r.1@[k] < 52,
{
    let ghost sd = day_number(start);
    let ghost cs = counted(commits@);
    let n: usize = if commits.len() > MAX_COMMITS { MAX_COMMITS } else { commits.len() };
    assert(cs =~= commits@.take(n as int));
    let mut names: Vec<String> = Vec::new();
    let mut cols: Vec<usize> = Vec::new();
    let mut i: usize = 0;
    assert(cs.take(0) =~= Seq::<Option<CommitChanges>>::empty());
    assert(touch_view(names@, cols@) =~= touches(cs.take(0), sd));
    while i < n
        invariant
            n <= commits@.len(),
            cs =~= commits@.take(n as int),
            i <= n,
            valid_date(start),
            sd == day_number(start),
            forall|j: int| 0 <= j < commits@.len() ==> (#[trigger] commits@[j] matches Some(c) ==> valid_date(c.date)),
            names@.len() == cols@.len(),
            touch_view(names@, cols@) == touches(cs.take(i as int), sd),
            forall|k: int| 0 <= k < cols@.len() ==> #[trigger] cols@[k] < 52,
        decreases n - i,
    {
        assert(cs.take(i + 1).drop_last() =~= cs.take(i as int));
        assert(cs.take(i + 1).last() == commits@[i as int]);
        let ghost base = touches(cs.take(i as int), sd);
        let ghost next = touches(cs.take(i + 1), sd);
        match &commits[i] {
            Some(c) => {
                match week_col(c.date, start) {
                    Some(col) => {
                        let mut e: usize = 0;
                        assert(c.changes@.take(0) =~= Seq::<ChangedEntry>::empty());
                        assert(base + entry_touches(c.changes@.take(0), col as int) =~= base);
                        while e < c.changes.len()
                            invariant
                                col < 52,
                                e <= c.changes@.len(),
                                names@.len() == cols@.len(),
                                touch_view(names@, cols@) == base + entry_touches(
                                    c.changes@.take(e as int),
                                    col as int,
                                ),
                                forall|k: int| 0 <= k < cols@.len() ==> #[trigger] cols@[k] < 52,
                            decreases c.changes@.len() - e,
                        {
                            let ghost pre = touch_view(names@, cols@);
                            assert(c.changes@.take(e + 1).drop_last() =~= c.changes@.take(e as int));
                            assert(c.changes@.take(e + 1).last() == c.changes@[e as int]);
                            match changed_path(&c.changes[e]) {
                                Some(p) => {
                                    names.push(p);
                                    cols.push(col);
                                    assert(touch_view(names@, cols@) =~= pre.push((names@.last()@, col as int)));
                                    assert(base + entry_touches(c.changes@.take(e + 1), col as int) =~= pre.push(
                                        (names@.last()@, col as int),
                                    ));
                                },
                                None => {
                                    assert(base + entry_touches(c.changes@.take(e + 1), col as int) =~= pre);
                                },
                            }
                            e = e + 1;
                        }
                        assert(c.changes@.take(c.changes@.len() as int) =~= c.changes@);
                        assert(next =~= base + entry_touches(c.changes@, col as int));
                    },
                    None => {
                        assert(next =~= base);
                    },
                }
            },
            None => {
                assert(next =~= base);
            },
        }
        i = i + 1;
    }
    assert(cs.take(n as int) =~= cs);
    (names, cols)
}

/// Weekly counts of `path` among the touches.
fn week_row(names: &Vec<String>, cols: &Vec<usize>, path: &str) -> (row: Vec<u32>)
    requires
        names@.len() == cols@.len(),
        forall|k: int| 0 <= k < cols@.len() ==> #[trigger] cols@[k] < 52,
    ensures
        row@.len() == 52,
        forall|c: int|
            0 <= c < 52 ==> #[trigger] row@[c] == capped(
                touch_count(
                    Seq::new(names@.len(), |k: int| (names@[k]@, cols@[k] as int)),
                    path@,
                    c,
                ),
            ),
{
    let ghost t = Seq::new(names@.len(), |k: int| (names@[k]@, cols@[k] as int));
    let mut row: Vec<u32> = Vec::new();
    let mut c: usize = 0;
    while c < 52
        invariant
            c <= 52,
            row@.len() == c,
            forall|j: int| 0 <= j < c ==> #[trigger] row@[j] == 0,
        decreases 52 - c,
    {
        row.push(0);
        c = c + 1;
    }
    let mut k: usize = 0;
    assert(t.take(0) =~= Seq::<(Seq<char>, int)>::empty());
    while k < names.len()
        invariant
            names@.len() == cols@.len(),
            t == Seq::new(names@.len(), |k: int| (names@[k]@, cols@[k] as int)),
            forall|j: int| 0 <= j < cols@.len() ==> #[trigger] cols@[j] < 52,
            k <= names@.len(),
            row@.len() == 52,
            forall|j: int| 0 <= j < 52 ==> #[trigger] row@[j] == capped(touch_count(t.take(k as int), path@, j)),
        decreases names@.len() - k,
    {
        assert(t.take(k + 1).drop_last() =~= t.take(k as int));
        assert(t.take(k + 1).last() == (names@[k as int]@, cols@[k as int] as int));
        if str_eq(names[k].as_str(), path) {
            let col = cols[k];
            let v = row[col];
            row.set(col, v.saturating_add(1));
        }
        k = k + 1;
    }
    assert(t.take(names@.len() as int) =~= t);
    row
}

/// Lays out files, totals and weekly rows for the ranked rows.
fn rows_for(names: &Vec<String>, cols: &Vec<usize>, ranked: &Vec<(String, u64)>) -> (c: Churn)
    requires
        names@.len() == cols@.len(),
        forall|k: int| 0 <= k < cols@.len() ==> #[trigger] cols@[k] < 52,
    ensures
        ranked_rows(touch_view(names@, cols@), rows_view(ranked@), c),
{
    let ghost t = touch_view(names@, cols@);
    let ghost rk = rows_view(ranked@);
    assert(t =~= Seq::new(names@.len(), |k: int| (names@[k]@, cols@[k] as int)));
    let mut files: Vec<String> = Vec::new();
    let mut counts: Vec<u32> = Vec::new();
    let mut grid: Vec<Vec<u32>> = Vec::new();
    let mut i: usize = 0;
    while i < ranked.len()
        invariant
            i <= ranked@.len(),
            rk == rows_view(ranked@),
            names@.len() == cols@.len(),
            forall|k: int| 0 <= k < cols@.len() ==> #[trigger] cols@[k] < 52,
            t =~= Seq::new(names@.len(), |k: int| (names@[k]@, cols@[k] as int)),
            files@.len() == i,
            counts@.len() == i,
            grid@.len() == i,
            forall|j: int| 0 <= j < i ==> #[trigger] files@[j]@ == rk[j].0,
            forall|j: int| 0 <= j < i ==> #[trigger] counts@[j] == capped(rk[j].1 as nat),
            forall|j: int| 0 <= j < i ==> #[trigger] grid@[j]@.len() == 52,
            forall|j: int, col: int|
                0 <= j < i && 0 <= col < 52 ==> #[trigger] grid@[j]@[col] == capped(
                    touch_count(t, rk[j].0, col),
                ),
        decreases ranked@.len() - i,
    {
        assert(rk[i as int] == (ranked@[i as int].0@, ranked@[i as int].1));
        let row = week_row(names, cols, ranked[i].0.as_str());
        files.push(ranked[i].0.clone());
        let n = ranked[i].1;
        counts.push(if n > 4294967295 { 4294967295u32 } else { n as u32 });
        grid.push(row);
        i = i + 1;
    }
    Churn { files, totals: counts, grid }
}

proof fn lemma_churn_from(
    t: Seq<(Seq<char>, int)>,
    names: Seq<String>,
    totals: Seq<(Seq<char>, u64)>,
    ranked: Seq<(Seq<char>, u64)>,
    c: Churn,
)
    requires
        t.len() == names.len(),
        forall|k: int| 0 <= k < t.len() ==> #[trigger] t[k].0 == names[k]@,
        tally_ok(views(names), totals),
        ranked == sort_rows(totals, true).take(
            if 7 < totals.len() { 7int } else { totals.len() as int },
        ),
        ranked_rows(t, ranked, c),
    ensures
        churn_from(t, totals, c),
{
    assert(touch_names(t) =~= views(names));
}

/// Ranks the files touched by the walked commits (the first `MAX_COMMITS`, `None` for a
/// commit that could not be read) and counts their changes per week of the grid ending
/// today.
pub fn churn(commits: &[Option<CommitChanges>], today: Date) -> (c: Churn)
    requires
        grid_fits(today),
        forall|i: int| 0 <= i < commits@.len() ==> (#[trigger] commits@[i] matches Some(c) ==> valid_date(c.date)),
    ensures
        churn_ok(commits@, today, c),
{
    let start = grid_start_date(today);
    let (names, cols) = collect_touches(commits, start);
    let count = names.len();
    assert(count as int <= u64::MAX);
    let totals = tally(&names);
    let ranked = rank_top(&totals, TOP_FILES);
    let c = rows_for(&names, &cols, &ranked);
    proof {
        lemma_churn_from(touch_view(names@, cols@), names@, rows_view(totals@), rows_view(ranked@), c);
        assert(churn_from(touches(counted(commits@), grid_start_day(today)), rows_view(totals@), c));
    }
    c
}

/// The file name of a path: the text after its last `/`.
pub fn short_path(path: &str) -> (s: String)
    ensures
        s@ == after_last(path@, '/'),
{
    after_last_char(path, '/')
}

/// `name (count)` for the ranked files.
pub open spec fn summary_parts(files: Seq<String>, totals: Seq<u32>) -> Seq<Seq<char>> {
    Seq::new(
        files.len(),
        |i: int| after_last(files[i]@, '/') + " ("@ + dec(totals[i] as nat) + ")"@,
    )
}

/// What `render_body` yields for each shape.
pub open spec fn churn_body_ok(c: Churn, shape: Shape, b: Body) -> bool {
    match shape {
        Shape::Text => b matches Body::Text(d) && d.value@ == (if c.files@.len() == 0 {
            Seq::empty()
        } else {
            join(summary_parts(c.files@, c.totals@), ", "@)
        }),
        _ => b matches Body::Heatmap(d) && d.cells == c.grid && d.thresholds is None
            && d.col_labels is None && match d.row_labels {
            Some(l) => views(l@) == Seq::new(c.files@.len(), |i: int| after_last(c.files@[i]@, '/')),
            None => false,
        },
    }
}

/// Renders the churn: the ranking as one line for `Text`, the heatmap otherwise.
pub fn render_body(c: Churn, shape: Shape) -> (b: Body)
    requires
        c.files@.len() == c.totals@.len(),
    ensures
        churn_body_ok(c, shape, b),
{
    match shape {
        Shape::Text => {
            if c.files.len() == 0 {
                proof {
                    reveal_strlit("");
                    assert(""@ =~= Seq::<char>::empty());
                }
                text_body("")
            } else {
                let mut parts: Vec<String> = Vec::new();
                let mut i: usize = 0;
                while i < c.files.len()
                    invariant
                        i <= c.files@.len(),
                        c.files@.len() == c.totals@.len(),
                        parts@.len() == i,
                        forall|j: int|
                            0 <= j < i ==> #[trigger] parts@[j]@ == summary_parts(c.files@, c.totals@)[j],
                    decreases c.files@.len() - i,
                {
                    let mut s = short_path(c.files[i].as_str());
                    s.append(" (");
                    let n = u64_to_string(c.totals[i] as u64);
                    s.append(n.as_str());
                    s.append(")");
                    parts.push(s);
                    i = i + 1;
                }
                assert(views(parts@) =~= summary_parts(c.files@, c.totals@));
                let line = join_strings(&parts, ", ");
                Body::Text(crate::payload::TextData { value: line })
            }
        },
        _ => {
            let mut labels: Vec<String> = Vec::new();
            let mut i: usize = 0;
            while i < c.files.len()
                invariant
                    i <= c.files@.len(),
                    labels@.len() == i,
                    forall|j: int| 0 <= j < i ==> #[trigger] labels@[j]@ == after_last(c.files@[j]@, '/'),
                decreases c.files@.len() - i,
            {
                labels.push(short_path(c.files[i].as_str()));
                i = i + 1;
            }
            assert(views(labels@) =~= Seq::new(c.files@.len(), |i: int| after_last(c.files@[i]@, '/')));
            Body::Heatmap(
                HeatmapData { cells: c.grid, thresholds: None, row_labels: Some(labels), col_labels: None },
            )
        },
    }
}

} // verus!
