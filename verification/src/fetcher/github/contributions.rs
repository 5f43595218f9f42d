//! `github_contributions` — the contribution calendar as a heatmap: one row per weekday
//! (Sunday first), one column per week, plus a month label on the week where a month
//! begins.

use vstd::prelude::*;
use vstd::string::*;

use crate::fetcher::FetchContext;
use super::common::{cache_key as keyed_cache_key, spec_cache_key};

use crate::fetcher::{FetchError, OptionSchema, Safety};
use crate::payload::{Body, HeatmapData};
use crate::render::Shape;
use crate::samples;
use crate::text::opt_str_view;
use crate::text::views;
use crate::time::{parse_date, short_month, spec_parse_date, spec_short_month, spec_weekday, weekday_from_sunday};

use super::common::{debug_quote, debug_str};

verus! {

/// The `github_contributions` fetcher.
pub struct GithubContributions;

/// Widget options.
#[derive(Debug, Default, Clone)]
pub struct Options {
    pub login: Option<String>,
}

/// One day of the calendar.
#[derive(Debug, Clone)]
pub struct Day {
    pub date: String,
    pub contribution_count: u32,
}

/// One week of the calendar, Sunday first.
#[derive(Debug, Clone)]
pub struct Week {
    pub contribution_days: Vec<Day>,
}

/// The calendar, oldest week first.
#[derive(Debug, Clone)]
pub struct Calendar {
    pub weeks: Vec<Week>,
}

/// Query for the authenticated user's calendar.
pub const QUERY_VIEWER: &'static str = "query { viewer { login contributionsCollection { contributionCalendar { weeks { contributionDays { date contributionCount } } } } } }";

/// Query for a named user's calendar.
pub const QUERY_USER: &'static str = "query($login: String!) { user(login: $login) { contributionsCollection { contributionCalendar { weeks { contributionDays { date contributionCount } } } } } }";

pub open spec fn spec_shapes() -> Seq<Shape> {
    seq![Shape::Heatmap]
}

impl GithubContributions {
    /// Cache key: the context plus the calendar's login.
    pub fn cache_key(&self, ctx: &FetchContext, login: &str) -> (k: String)
        ensures
            k@ == spec_cache_key("github_contributions"@, *ctx, login@),
    {
        keyed_cache_key("github_contributions", ctx, login)
    }
}

impl GithubContributions {
    /// Catalog name.
    pub fn name(&self) -> (r: &'static str)
        ensures
            r@ == "github_contributions"@,
    {
        "github_contributions"
    }

    /// Trust class.
    pub fn safety(&self) -> (r: Safety)
        ensures
            r == Safety::Safe,
    {
        Safety::Safe
    }

    /// Shapes this fetcher can produce.
    pub fn shapes(&self) -> (r: Vec<Shape>)
        ensures
            r@ == spec_shapes(),
    {
        let r = vec![Shape::Heatmap];
        assert(r@ =~= spec_shapes());
        r
    }

    /// Shape used when the widget names none.
    pub fn default_shape(&self) -> (r: Shape)
        ensures
            r == Shape::Heatmap,
    {
        Shape::Heatmap
    }

    /// Documented options.
    pub fn option_schemas(&self) -> (r: Vec<OptionSchema>)
        ensures
            r@.len() == 1,
            r@[0].name@ == "login"@,
            r@[0].required == false,
            opt_str_view(r@[0].default) == Some("viewer"@),
    {
        vec![
            OptionSchema {
                name: "login",
                type_hint: "string",
                required: false,
                default: Some("viewer"),
                description: "GitHub login to fetch the contribution calendar for. Defaults to the authenticated user.",
            },
        ]
    }

}


impl GithubContributions {
    /// Canned body: a seven by fifty-two grid.
    pub fn sample_body(&self, shape: Shape) -> (r: Option<Body>)
        ensures
            shape == Shape::Heatmap ==> (r matches Some(Body::Heatmap(d)) && d.cells@.len() == 7),
            shape != Shape::Heatmap ==> r is None,
    {
        match shape {
            Shape::Heatmap => Some(samples::heatmap_grid(7, 52)),
            _ => None,
        }
    }
}

/// The query to send: the viewer's calendar, or a named user's.
pub fn query_for(login: Option<&str>) -> (q: &'static str)
    ensures
        login is None ==> q@ == QUERY_VIEWER@,
        login is Some ==> q@ == QUERY_USER@,
{
    match login {
        None => QUERY_VIEWER,
        Some(_) => QUERY_USER,
    }
}

/// The error when the named user does not exist.
pub fn user_not_found(login: &str) -> (e: FetchError)
    ensures
        e matches FetchError::Failed(m) && m@ == "github: user "@ + debug_str(login@) + " not found"@,
{
    let mut m = String::from_str("github: user ");
    let q = debug_quote(login);
    m.append(q.as_str());
    m.append(" not found");
    FetchError::Failed(m)
}

/// The weekday row of a day, when its date parses.
pub open spec fn spec_weekday_index(raw: Seq<char>) -> Option<int> {
    match spec_parse_date(raw) {
        Some(d) => Some(spec_weekday(d)),
        None => None,
    }
}

/// Row of a `YYYY-MM-DD` date: days since Sunday.
pub fn weekday_index(raw: &str) -> (r: Option<usize>)
    ensures
        match r {
            Some(w) => spec_weekday_index(raw@) == Some(w as int),
            None => spec_weekday_index(raw@) is None,
        },
{
    match parse_date(raw) {
        Some(d) => Some(weekday_from_sunday(d) as usize),
        None => None,
    }
}

/// The count of the last day in the week that falls on weekday `r` (0 when none does).
pub open spec fn cell_value(days: Seq<Day>, r: int) -> u32
    decreases days.len(),
{
    if days.len() == 0 {
        0
    } else if spec_weekday_index(days.last().date@) == Some(r) {
        days.last().contribution_count
    } else {
        cell_value(days.drop_last(), r)
    }
}

fn week_cell(days: &Vec<Day>, r: usize) -> (v: u32)
    ensures
        v == cell_value(days@, r as int),
{
    let mut v: u32 = 0;
    let mut i: usize = 0;
    assert(days@.take(0) =~= Seq::<Day>::empty());
    while i < days.len()
        invariant
            i <= days@.len(),
            v == cell_value(days@.take(i as int), r as int),
        decreases days@.len() - i,
    {
        assert(days@.take(i + 1).drop_last() =~= days@.take(i as int));
        assert(days@.take(i + 1).last() == days@[i as int]);
        match weekday_index(days[i].date.as_str()) {
            Some(w) => {
                if w == r {
                    v = days[i].contribution_count;
                }
            },
            None => {},
        }
        i += 1;
    }
    assert(days@.take(days@.len() as int) =~= days@);
    v
}

/// The first day of the week that is the first of a month other than `last` — that
/// month.
pub open spec fn new_month_in(days: Seq<Day>, last: u32) -> Option<u32>
    decreases days.len(),
{
    if days.len() == 0 {
        None
    } else {
        match spec_parse_date(days[0].date@) {
            Some(d) => if d.day == 1 && d.month != last {
                Some(d.month)
            } else {
                new_month_in(days.drop_first(), last)
            },
            None => new_month_in(days.drop_first(), last),
        }
    }
}

/// Labels per week with the month last labelled: a week gets the short name of the first
/// new month that starts in it.
pub open spec fn spec_labels(weeks: Seq<Week>) -> (Seq<Seq<char>>, u32)
    decreases weeks.len(),
{
    if weeks.len() == 0 {
        (Seq::empty(), 0)
    } else {
        let (labels, last) = spec_labels(weeks.drop_last());
        match new_month_in(weeks.last().contribution_days@, last) {
            Some(m) => (labels.push(spec_short_month(m)), m),
            None => (labels.push(Seq::empty()), last),
        }
    }
}

fn new_month(days: &Vec<Day>, last: u32) -> (r: Option<u32>)
    ensures
        r == new_month_in(days@, last),
{
    let mut i: usize = 0;
    assert(days@.skip(0) =~= days@);
    while i < days.len()
        invariant
            i <= days@.len(),
            new_month_in(days@, last) == new_month_in(days@.skip(i as int), last),
        decreases days@.len() - i,
    {
        assert(days@.skip(i as int)[0] == days@[i as int]);
        assert(days@.skip(i as int).drop_first() =~= days@.skip(i + 1));
        match parse_date(days[i].date.as_str()) {
            Some(d) => {
                if d.day == 1 && d.month != last {
                    return Some(d.month);
                }
            },
            None => {},
        }
        i += 1;
    }
    None
}

/// One short month name per week, set on the week where a new month starts.
pub fn month_labels(cal: &Calendar) -> (labels: Vec<String>)
    ensures
        views(labels@) == spec_labels(cal.weeks@).0,
{
    let mut labels: Vec<String> = Vec::new();
    let mut last: u32 = 0;
    let mut i: usize = 0;
    assert(cal.weeks@.take(0) =~= Seq::<Week>::empty());
    while i < cal.weeks.len()
        invariant
            i <= cal.weeks@.len(),
            labels@.len() == i,
            (views(labels@), last) == spec_labels(cal.weeks@.take(i as int)),
        decreases cal.weeks@.len() - i,
    {
        let ghost pre = views(labels@);
        assert(cal.weeks@.take(i + 1).drop_last() =~= cal.weeks@.take(i as int));
        assert(cal.weeks@.take(i + 1).last() == cal.weeks@[i as int]);
        match new_month(&cal.weeks[i].contribution_days, last) {
            Some(m) => {
                labels.push(short_month(m));
                last = m;
            },
            None => {
                labels.push(String::new());
            },
        }
        assert(views(labels@) =~= pre.push(labels@[i as int]@));
        i += 1;
    }
    assert(cal.weeks@.take(cal.weeks@.len() as int) =~= cal.weeks@);
    labels
}

/// The heatmap: seven weekday rows by one column per week, each cell the count of that
/// weekday's day in that week, with month labels over the columns.
pub fn to_heatmap(cal: &Calendar) -> (h: HeatmapData)
    ensures
        h.cells@.len() == 7,
        forall|r: int|
            0 <= r < 7 ==> #[trigger] h.cells@[r]@.len() == cal.weeks@.len() && forall|c: int|
                0 <= c < cal.weeks@.len() ==> h.cells@[r]@[c] == cell_value(
                    cal.weeks@[c].contribution_days@,
                    r,
                ),
        h.thresholds is None,
        h.row_labels is None,
        h.col_labels matches Some(l) && views(l@) == spec_labels(cal.weeks@).0,
{
    let mut cells: Vec<Vec<u32>> = Vec::new();
    let mut r: usize = 0;
    while r < 7
        invariant
            r <= 7,
            cells@.len() == r,
            forall|k: int|
                0 <= k < r ==> #[trigger] cells@[k]@.len() == cal.weeks@.len() && forall|c: int|
                    0 <= c < cal.weeks@.len() ==> cells@[k]@[c] == cell_value(
                        cal.weeks@[c].contribution_days@,
                        k,
                    ),
        decreases 7 - r,
    {
        let mut row: Vec<u32> = Vec::new();
        let mut c: usize = 0;
        while c < cal.weeks.len()
            invariant
                r < 7,
                c <= cal.weeks@.len(),
                row@.len() == c,
                forall|j: int|
                    0 <= j < c ==> row@[j] == cell_value(cal.weeks@[j].contribution_days@, r as int),
            decreases cal.weeks@.len() - c,
        {
            row.push(week_cell(&cal.weeks[c].contribution_days, r));
            c += 1;
        }
        let ghost prev = cells@;
        cells.push(row);
        assert forall|k: int| 0 <= k < r + 1 implies #[trigger] cells@[k]@.len()
            == cal.weeks@.len() && forall|c: int|
            0 <= c < cal.weeks@.len() ==> cells@[k]@[c] == cell_value(
                cal.weeks@[c].contribution_days@,
                k,
            ) by {
            if k < r {
                assert(cells@[k] == prev[k]);
            }
        }
        r += 1;
    }
    let labels = month_labels(cal);
    let h = HeatmapData { cells, thresholds: None, row_labels: None, col_labels: Some(labels) };
    assert forall|r: int| 0 <= r < 7 implies #[trigger] h.cells@[r]@.len() == cal.weeks@.len()
        && forall|c: int|
        0 <= c < cal.weeks@.len() ==> h.cells@[r]@[c] == cell_value(
            cal.weeks@[c].contribution_days@,
            r,
        ) by {
        assert(h.cells@[r] == cells@[r]);
        assert(cells@[r]@.len() == cal.weeks@.len());
    }
    h
}

} // verus!
