//! `git_age` — repository age measured from the first commit reachable from `HEAD`.
//! `Text` shows a compact duration ("2y 3m"); `format = "since"` gives "since 2024-01-15"
//! and `format = "full"` both. Structural shapes expose the years / months / days split,
//! `Calendar` the month of the first commit, `Badge` the age tier (`fresh` under thirty days,
//! `young` under a year, `mature` under five years, `ancient` beyond) and `Timeline` the
//! first-commit event.

use vstd::prelude::*;
use crate::text::opt_str_view;
use vstd::string::*;

use crate::fetcher::{OptionSchema, Safety};
use crate::payload::{
    BadgeData, Bar, BarsData, Body, CalendarData, EntriesData, Entry, LinkedLine,
    LinkedTextBlockData, MarkdownTextBlockData, NumberSeriesData, Status, TextBlockData,
    TimelineData, TimelineEvent,
};
use crate::render::Shape;
use crate::samples;
use crate::text::{dec, join, join_strings, str_eq, trim, trim_str, u64_to_string, views};
use crate::time::{
    date_le, day_number, days_between, iso_date, iso_text, month_days, on_or_before, valid_date, Date, MIN_YEAR,
};

use super::text_body;

verus! {

/// The `git_age` fetcher.
pub struct GitAge;

/// Elapsed whole years, months and days.
#[derive(Debug, Clone, Copy, PartialEq, Eq, Structural)]
pub struct Age {
    pub years: u32,
    pub months: u32,
    pub days: u32,
}

pub open spec fn spec_shapes() -> Seq<Shape> {
    seq![Shape::Text, Shape::TextBlock, Shape::MarkdownTextBlock, Shape::LinkedTextBlock, Shape::Entries, Shape::NumberSeries, Shape::Bars, Shape::Calendar, Shape::Badge, Shape::Timeline]
}

impl GitAge {
    /// Catalog name.
    pub fn name(&self) -> (r: &'static str)
        ensures
            r@ == "git_age"@,
    {
        "git_age"
    }

    /// Trust class.
    pub fn safety(&self) -> (r: Safety)
        ensures
            r == Safety::Safe,
    {
        Safety::Safe
    }

    /// One-paragraph catalog description.
    pub fn description(&self) -> (r: &'static str)
        ensures
            r@ == "Repository age from the first commit reachable from HEAD. Text/TextBlock/Markdown/Linked variants format the duration; Entries/Bars/NumberSeries expose the years/months/days split; Calendar highlights the first-commit day; Badge tags an age tier; Timeline emits the first-commit event."@,
    {
        "Repository age from the first commit reachable from HEAD. Text/TextBlock/Markdown/Linked variants format the duration; Entries/Bars/NumberSeries expose the years/months/days split; Calendar highlights the first-commit day; Badge tags an age tier; Timeline emits the first-commit event."
    }

    /// Shapes this fetcher can produce.
    pub fn shapes(&self) -> (r: Vec<Shape>)
        ensures
            r@ == spec_shapes(),
    {
        let r = vec![Shape::Text, Shape::TextBlock, Shape::MarkdownTextBlock, Shape::LinkedTextBlock, Shape::Entries, Shape::NumberSeries, Shape::Bars, Shape::Calendar, Shape::Badge, Shape::Timeline];
        assert(r@ =~= spec_shapes());
        r
    }

    /// Shape used when the widget names none.
    pub fn default_shape(&self) -> (r: Shape)
        ensures
            r == Shape::Text,
    {
        Shape::Text
    }

    /// Documented options.
    pub fn option_schemas(&self) -> (r: Vec<OptionSchema>)
        ensures
            r@.len() == 0,
    {
        vec![

        ]
    }

}


/// Length of the month before `today`'s month (30 when that month lies before the
/// supported range).
pub open spec fn spec_days_in_previous_month(today: Date) -> nat {
    if today.month == 1 {
        if today.year == MIN_YEAR {
            30
        } else {
            month_days(today.year - 1, 12)
        }
    } else {
        month_days(today.year as int, today.month - 1)
    }
}

/// Days in the month preceding `today`'s.
pub fn days_in_previous_month(today: Date) -> (n: u32)
    requires
        valid_date(today),
    ensures
        n == spec_days_in_previous_month(today),
{
    if today.month == 1 {
        if today.year == MIN_YEAR {
            30
        } else {
            crate::time::days_in_month(today.year - 1, 12)
        }
    } else {
        crate::time::days_in_month(today.year, today.month - 1)
    }
}

pub open spec fn nonneg(v: int) -> u32 {
    if v < 0 {
        0
    } else {
        v as u32
    }
}

/// Calendar difference from `first` to `today`: day and month differences borrow from
/// the next larger unit; nothing has elapsed when `today` is not after `first`.
pub open spec fn spec_between(first: Date, today: Date) -> Age {
    if date_le(today, first) {
        Age { years: 0, months: 0, days: 0 }
    } else {
        let y0 = today.year - first.year;
        let m0 = today.month - first.month;
        let d0 = today.day - first.day;
        let m1 = if d0 < 0 { m0 - 1 } else { m0 };
        let d1 = if d0 < 0 { d0 + spec_days_in_previous_month(today) } else { d0 };
        let y2 = if m1 < 0 { y0 - 1 } else { y0 };
        let m2 = if m1 < 0 { m1 + 12 } else { m1 };
        Age { years: nonneg(y2), months: nonneg(m2), days: nonneg(d1) }
    }
}

/// `"today"` for no elapsed time, else the two largest units: `Ny Mm`, `Ny`, `Mm Dd`,
/// `Mm` or `Dd`.
pub open spec fn spec_format_duration(a: Age) -> Seq<char> {
    if a.years == 0 && a.months == 0 && a.days == 0 {
        "today"@
    } else if a.years > 0 {
        if a.months == 0 {
            dec(a.years as nat) + "y"@
        } else {
            dec(a.years as nat) + "y "@ + dec(a.months as nat) + "m"@
        }
    } else if a.months > 0 {
        if a.days == 0 {
            dec(a.months as nat) + "m"@
        } else {
            dec(a.months as nat) + "m "@ + dec(a.days as nat) + "d"@
        }
    } else {
        dec(a.days as nat) + "d"@
    }
}

/// The non-zero units of an age, largest first.
pub open spec fn long_parts(a: Age) -> Seq<Seq<char>> {
    (if a.years > 0 { seq![dec(a.years as nat) + "y"@] } else { Seq::empty() }) + (if a.months
        > 0 {
        seq![dec(a.months as nat) + "m"@]
    } else {
        Seq::empty()
    }) + (if a.days > 0 { seq![dec(a.days as nat) + "d"@] } else { Seq::empty() })
}

/// `"today"` for no elapsed time, else every non-zero unit joined by spaces.
pub open spec fn spec_format_long_duration(a: Age) -> Seq<char> {
    if a.years == 0 && a.months == 0 && a.days == 0 {
        "today"@
    } else {
        join(long_parts(a), " "@)
    }
}

/// Age tier for an age of `elapsed` days: `ancient` from five years, `mature` from one
/// year, `young` from thirty days, `fresh` below that.
pub open spec fn spec_tier(a: Age, elapsed: int) -> Seq<char> {
    if a.years >= 5 {
        "ancient"@
    } else if a.years >= 1 {
        "mature"@
    } else if elapsed >= 30 {
        "young"@
    } else {
        "fresh"@
    }
}

impl Age {
    /// Elapsed time from `first` to `today`.
    pub fn between(first: Date, today: Date) -> (a: Age)
        requires
            valid_date(first),
            valid_date(today),
        ensures
            a == spec_between(first, today),
    {
        if on_or_before(today, first) {
            return Age::zero();
        }
        let mut years: i32 = today.year - first.year;
        let mut months: i32 = today.month as i32 - first.month as i32;
        let mut days: i32 = today.day as i32 - first.day as i32;
        if days < 0 {
            months -= 1;
            days += days_in_previous_month(today) as i32;
        }
        if months < 0 {
            years -= 1;
            months += 12;
        }
        Age {
            years: if years < 0 { 0 } else { years as u32 },
            months: if months < 0 { 0 } else { months as u32 },
            days: if days < 0 { 0 } else { days as u32 },
        }
    }

    /// No elapsed time.
    pub fn zero() -> (a: Age)
        ensures
            a == (Age { years: 0, months: 0, days: 0 }),
    {
        Age { years: 0, months: 0, days: 0 }
    }

    /// Whether no time has elapsed.
    pub fn is_today(&self) -> (r: bool)
        ensures
            r == (self.years == 0 && self.months == 0 && self.days == 0),
    {
        self.years == 0 && self.months == 0 && self.days == 0
    }

    /// The age tier word, given the number of days the age spans.
    pub fn tier(&self, elapsed_days: i64) -> (r: &'static str)
        ensures
            r@ == spec_tier(*self, elapsed_days as int),
    {
        if self.years >= 5 {
            "ancient"
        } else if self.years >= 1 {
            "mature"
        } else if elapsed_days >= 30 {
            "young"
        } else {
            "fresh"
        }
    }
}

/// Nothing has elapsed when `today` is on or before the first commit's day.
pub proof fn lemma_age_zero_unless_after(first: Date, today: Date)
    requires
        valid_date(first),
        valid_date(today),
        date_le(today, first),
    ensures
        spec_between(first, today) == (Age { years: 0, months: 0, days: 0 }),
{
}

/// An age is normalised: fewer than twelve months and fewer than thirty-one days.
pub proof fn lemma_age_is_normalised(first: Date, today: Date)
    requires
        valid_date(first),
        valid_date(today),
    ensures
        spec_between(first, today).months <= 11,
        spec_between(first, today).days <= 30,
{
}

/// Compact duration text.
pub fn format_duration(age: &Age) -> (s: String)
    ensures
        s@ == spec_format_duration(*age),
{
    if age.is_today() {
        return String::from_str("today");
    }
    if age.years > 0 {
        let mut s = u64_to_string(age.years as u64);
        if age.months == 0 {
            s.append("y");
        } else {
            s.append("y ");
            let m = u64_to_string(age.months as u64);
            s.append(m.as_str());
            s.append("m");
        }
        return s;
    }
    if age.months > 0 {
        let mut s = u64_to_string(age.months as u64);
        if age.days == 0 {
            s.append("m");
        } else {
            s.append("m ");
            let d = u64_to_string(age.days as u64);
            s.append(d.as_str());
            s.append("d");
        }
        return s;
    }
    let mut s = u64_to_string(age.days as u64);
    s.append("d");
    s
}

fn unit(n: u32, suffix: &str) -> (s: String)
    ensures
        s@ == dec(n as nat) + suffix@,
{
    let mut s = u64_to_string(n as u64);
    s.append(suffix);
    s
}

/// Every non-zero unit, space separated.
pub fn format_long_duration(age: &Age) -> (s: String)
    ensures
        s@ == spec_format_long_duration(*age),
{
    if age.is_today() {
        return String::from_str("today");
    }
    let mut parts: Vec<String> = Vec::new();
    if age.years > 0 {
        parts.push(unit(age.years, "y"));
    }
    if age.months > 0 {
        parts.push(unit(age.months, "m"));
    }
    if age.days > 0 {
        parts.push(unit(age.days, "d"));
    }
    assert(views(parts@) =~= long_parts(*age));
    join_strings(&parts, " ")
}

/// `"since YYYY-MM-DD"`.
pub open spec fn spec_format_since(first: Date) -> Seq<char> {
    "since "@ + iso_text(first)
}

/// The first-commit day as `since YYYY-MM-DD`.
pub fn format_since(first: Date) -> (s: String)
    ensures
        s@ == spec_format_since(first),
{
    let mut s = String::from_str("since ");
    let d = iso_date(first);
    s.append(d.as_str());
    s
}

/// The `Text` value for the configured format: `since`, `full`, or the compact duration
/// for anything else (the format is compared after trimming whitespace).
pub open spec fn spec_format_text(a: Age, first: Date, format: Option<Seq<char>>) -> Seq<char> {
    match format {
        Some(f) => if trim(f) == "since"@ {
            spec_format_since(first)
        } else if trim(f) == "full"@ {
            spec_format_duration(a) + " · "@ + spec_format_since(first)
        } else {
            spec_format_duration(a)
        },
        None => spec_format_duration(a),
    }
}

/// Text for the configured format.
pub fn format_text(age: &Age, first: Date, format: Option<&str>) -> (s: String)
    ensures
        s@ == spec_format_text(*age, first, opt_str_view(format)),
{
    match format {
        Some(f) => {
            let t = trim_str(f);
            if str_eq(t.as_str(), "since") {
                format_since(first)
            } else if str_eq(t.as_str(), "full") {
                let mut s = format_duration(age);
                s.append(" · ");
                let since = format_since(first);
                s.append(since.as_str());
                s
            } else {
                format_duration(age)
            }
        },
        None => format_duration(age),
    }
}

fn labelled(label: &str, n: u32) -> (s: String)
    ensures
        s@ == label@ + dec(n as nat),
{
    let mut s = String::from_str(label);
    let d = u64_to_string(n as u64);
    s.append(d.as_str());
    s
}

/// Four labelled lines: years, months, days and the first-commit day.
pub fn text_block_body(age: &Age, first: Date) -> (b: Body)
    ensures
        b matches Body::TextBlock(d) && d.lines@.len() == 4 && d.lines@[0]@ == "Years:  "@ + dec(
            age.years as nat,
        ) && d.lines@[1]@ == "Months: "@ + dec(age.months as nat) && d.lines@[2]@ == "Days:   "@
            + dec(age.days as nat) && d.lines@[3]@ == "Since:  "@ + iso_text(first),
{
    let mut since = String::from_str("Since:  ");
    let d = iso_date(first);
    since.append(d.as_str());
    let lines = vec![
        labelled("Years:  ", age.years),
        labelled("Months: ", age.months),
        labelled("Days:   ", age.days),
        since,
    ];
    Body::TextBlock(TextBlockData { lines })
}

/// `**<long duration>** since `<date>``.
pub fn markdown_body(age: &Age, first: Date) -> (b: Body)
    ensures
        b matches Body::MarkdownTextBlock(d) && d.value@ == "**"@ + spec_format_long_duration(
            *age,
        ) + "** since `"@ + iso_text(first) + "`"@,
{
    let mut s = String::from_str("**");
    let l = format_long_duration(age);
    s.append(l.as_str());
    s.append("** since `");
    let d = iso_date(first);
    s.append(d.as_str());
    s.append("`");
    Body::MarkdownTextBlock(MarkdownTextBlockData { value: s })
}

/// Two unlinked rows: the long duration and the `since` line.
pub fn linked_body(age: &Age, first: Date) -> (b: Body)
    ensures
        b matches Body::LinkedTextBlock(d) && d.items@.len() == 2 && d.items@[0].text@
            == spec_format_long_duration(*age) && d.items@[0].url is None && d.items@[1].text@
            == spec_format_since(first) && d.items@[1].url is None,
{
    let items = vec![
        LinkedLine { text: format_long_duration(age), url: None },
        LinkedLine { text: format_since(first), url: None },
    ];
    Body::LinkedTextBlock(LinkedTextBlockData { items })
}

fn entry(key: &str, value: String) -> (e: Entry)
    ensures
        e.key@ == key@,
        e.value matches Some(v) && v == value,
        e.status is None,
{
    Entry { key: String::from_str(key), value: Some(value), status: None }
}

pub open spec fn entry_is(e: Entry, key: Seq<char>, value: Seq<char>) -> bool {
    e.key@ == key && (e.value matches Some(v) && v@ == value) && e.status is None
}

/// Rows `years`, `months`, `days` and `first_commit_date`.
pub fn entries_body(age: &Age, first: Date) -> (b: Body)
    ensures
        b matches Body::Entries(d) && d.items@.len() == 4 && entry_is(
            d.items@[0],
            "years"@,
            dec(age.years as nat),
        ) && entry_is(d.items@[1], "months"@, dec(age.months as nat)) && entry_is(
            d.items@[2],
            "days"@,
            dec(age.days as nat),
        ) && entry_is(d.items@[3], "first_commit_date"@, iso_text(first)),
{
    let items = vec![
        entry("years", u64_to_string(age.years as u64)),
        entry("months", u64_to_string(age.months as u64)),
        entry("days", u64_to_string(age.days as u64)),
        entry("first_commit_date", iso_date(first)),
    ];
    Body::Entries(EntriesData { items })
}

/// `[years, months, days]`.
pub fn number_series_body(age: &Age) -> (b: Body)
    ensures
        b matches Body::NumberSeries(d) && d.values@ == seq![
            age.years as u64,
            age.months as u64,
            age.days as u64,
        ],
{
    let values = vec![age.years as u64, age.months as u64, age.days as u64];
    Body::NumberSeries(NumberSeriesData { values })
}

pub open spec fn bar_is(b: Bar, label: Seq<char>, value: u64) -> bool {
    b.label@ == label && b.value == value && b.value_label is None
}

/// Bars `years`, `months`, `days`.
pub fn bars_body(age: &Age) -> (b: Body)
    ensures
        b matches Body::Bars(d) && d.bars@.len() == 3 && bar_is(
            d.bars@[0],
            "years"@,
            age.years as u64,
        ) && bar_is(d.bars@[1], "months"@, age.months as u64) && bar_is(
            d.bars@[2],
            "days"@,
            age.days as u64,
        ),
{
    let bars = vec![
        Bar { label: String::from_str("years"), value: age.years as u64, value_label: None },
        Bar { label: String::from_str("months"), value: age.months as u64, value_label: None },
        Bar { label: String::from_str("days"), value: age.days as u64, value_label: None },
    ];
    Body::Bars(BarsData { bars })
}

/// The first commit's month with its day highlighted.
pub fn calendar_body(first: Date) -> (b: Body)
    requires
        valid_date(first),
    ensures
        b matches Body::Calendar(d) && d.year == first.year && d.month == first.month && d.day
            == Some(first.day as u8) && d.events@.len() == 0,
{
    Body::Calendar(
        CalendarData {
            year: first.year,
            month: first.month as u8,
            day: Some(first.day as u8),
            events: Vec::new(),
        },
    )
}

/// `<tier> (<duration>)` for an age spanning `elapsed_days` days, always okay-toned.
pub fn badge_body(age: &Age, elapsed_days: i64) -> (b: Body)
    ensures
        b matches Body::Badge(d) && d.status == Status::Okay && d.label@ == spec_tier(
            *age,
            elapsed_days as int,
        ) + " ("@ + spec_format_duration(*age) + ")"@,
{
    let mut label = String::from_str(age.tier(elapsed_days));
    label.append(" (");
    let d = format_duration(age);
    label.append(d.as_str());
    label.append(")");
    Body::Badge(BadgeData { status: Status::Okay, label })
}

/// One `First commit` event at the commit's timestamp.
pub fn timeline_body(first: Date, seconds: i64) -> (b: Body)
    ensures
        b matches Body::Timeline(d) && d.events@.len() == 1 && d.events@[0].timestamp == seconds
            && d.events@[0].title@ == "First commit"@ && (d.events@[0].detail matches Some(x)
            && x@ == iso_text(first)) && d.events@[0].status == Some(Status::Okay),
{
    let events = vec![
        TimelineEvent {
            timestamp: seconds,
            title: String::from_str("First commit"),
            detail: Some(iso_date(first)),
            status: Some(Status::Okay),
        },
    ];
    Body::Timeline(TimelineData { events })
}

/// What a repository without commits renders: empty structures, a `no commits` badge,
/// and an empty `Text` for the text shapes.
pub open spec fn empty_body_ok(shape: Shape, b: Body) -> bool {
    match shape {
        Shape::TextBlock => b matches Body::TextBlock(d) && d.lines@.len() == 0,
        Shape::MarkdownTextBlock => b matches Body::MarkdownTextBlock(d) && d.value@.len() == 0,
        Shape::LinkedTextBlock => b matches Body::LinkedTextBlock(d) && d.items@.len() == 0,
        Shape::Entries => b matches Body::Entries(d) && d.items@.len() == 0,
        Shape::NumberSeries => b matches Body::NumberSeries(d) && d.values@.len() == 0,
        Shape::Bars => b matches Body::Bars(d) && d.bars@.len() == 0,
        Shape::Calendar => b matches Body::Calendar(d) && d.year == 1970 && d.month == 1
            && d.day is None && d.events@.len() == 0,
        Shape::Badge => b matches Body::Badge(d) && d.status == Status::Warn && d.label@
            == "no commits"@,
        Shape::Timeline => b matches Body::Timeline(d) && d.events@.len() == 0,
        _ => b matches Body::Text(d) && d.value@.len() == 0,
    }
}

/// The body for a repository without commits.
pub fn empty_body(shape: Shape) -> (b: Body)
    ensures
        empty_body_ok(shape, b),
{
    match shape {
        Shape::TextBlock => Body::TextBlock(TextBlockData { lines: Vec::new() }),
        Shape::MarkdownTextBlock => Body::MarkdownTextBlock(
            MarkdownTextBlockData { value: String::new() },
        ),
        Shape::LinkedTextBlock => Body::LinkedTextBlock(LinkedTextBlockData { items: Vec::new() }),
        Shape::Entries => Body::Entries(EntriesData { items: Vec::new() }),
        Shape::NumberSeries => Body::NumberSeries(NumberSeriesData { values: Vec::new() }),
        Shape::Bars => Body::Bars(BarsData { bars: Vec::new() }),
        Shape::Calendar => Body::Calendar(
            CalendarData { year: 1970, month: 1, day: None, events: Vec::new() },
        ),
        Shape::Badge => Body::Badge(
            BadgeData { status: Status::Warn, label: String::from_str("no commits") },
        ),
        Shape::Timeline => Body::Timeline(TimelineData { events: Vec::new() }),
        _ => {
            proof {
                reveal_strlit("");
            }
            text_body("")
        },
    }
}

/// The body for the first commit (its day and Unix seconds) seen from `today`; `Text`
/// and shapes without a layout of their own follow `format`.
pub fn age_body(first: Date, first_seconds: i64, today: Date, shape: Shape, format: Option<&str>) -> (b: Body)
    requires
        valid_date(first),
        valid_date(today),
    ensures
        shape == Shape::Badge ==> (b matches Body::Badge(d) && d.label@ == spec_tier(
            spec_between(first, today),
            day_number(today) - day_number(first),
        ) + " ("@ + spec_format_duration(spec_between(first, today)) + ")"@),
        shape == Shape::Timeline ==> (b matches Body::Timeline(d) && d.events@.len() == 1
            && d.events@[0].timestamp == first_seconds),
        shape == Shape::NumberSeries ==> (b matches Body::NumberSeries(d) && d.values@ == seq![
            spec_between(first, today).years as u64,
            spec_between(first, today).months as u64,
            spec_between(first, today).days as u64,
        ]),
        shape == Shape::Calendar ==> (b matches Body::Calendar(d) && d.year == first.year
            && d.month == first.month && d.day == Some(first.day as u8)),
        !(shape == Shape::TextBlock || shape == Shape::MarkdownTextBlock || shape
            == Shape::LinkedTextBlock || shape == Shape::Entries || shape == Shape::NumberSeries
            || shape == Shape::Bars || shape == Shape::Calendar || shape == Shape::Badge || shape
            == Shape::Timeline) ==> (b matches Body::Text(d) && d.value@ == spec_format_text(
            spec_between(first, today),
            first,
            opt_str_view(format),
        )),
{
    let age = Age::between(first, today);
    match shape {
        Shape::TextBlock => text_block_body(&age, first),
        Shape::MarkdownTextBlock => markdown_body(&age, first),
        Shape::LinkedTextBlock => linked_body(&age, first),
        Shape::Entries => entries_body(&age, first),
        Shape::NumberSeries => number_series_body(&age),
        Shape::Bars => bars_body(&age),
        Shape::Calendar => calendar_body(first),
        Shape::Badge => badge_body(&age, days_between(first, today)),
        Shape::Timeline => timeline_body(first, first_seconds),
        _ => {
            let t = format_text(&age, first, format);
            text_body(t.as_str())
        },
    }
}

/// The body for what the history walk found: the oldest commit's Unix seconds, if any.
/// Seconds that chrono cannot turn into a day count as no commit.
pub fn build(oldest_seconds: Option<i64>, today: Date, shape: Shape, format: Option<&str>) -> (b: Body)
    requires
        valid_date(today),
    ensures
        oldest_seconds is None ==> empty_body_ok(shape, b),
{
    match oldest_seconds {
        Some(s) => match crate::time::date_of_seconds(s) {
            Some(first) => age_body(first, s, today, shape, format),
            None => empty_body(shape),
        },
        None => empty_body(shape),
    }
}

impl GitAge {
    /// Canned body per supported shape, for a repository first committed on 2024-01-15
    /// and now 2y 3m 12d old.
    pub fn sample_body(&self, shape: Shape) -> (r: Option<Body>)
        ensures
            shape == Shape::Text ==> (r matches Some(Body::Text(d)) && d.value@ == "2y 3m"@),
            (shape == Shape::Text || shape == Shape::TextBlock || shape == Shape::MarkdownTextBlock
                || shape == Shape::LinkedTextBlock || shape == Shape::Entries || shape
                == Shape::NumberSeries || shape == Shape::Bars || shape == Shape::Calendar || shape
                == Shape::Badge || shape == Shape::Timeline) <==> r is Some,
    {
        let first = Date { year: 2024, month: 1, day: 15 };
        let age = Age { years: 2, months: 3, days: 12 };
        match shape {
            Shape::Text => Some(samples::text("2y 3m")),
            Shape::TextBlock => Some(text_block_body(&age, first)),
            Shape::MarkdownTextBlock => Some(markdown_body(&age, first)),
            Shape::LinkedTextBlock => Some(linked_body(&age, first)),
            Shape::Entries => Some(entries_body(&age, first)),
            Shape::NumberSeries => Some(number_series_body(&age)),
            Shape::Bars => Some(bars_body(&age)),
            Shape::Calendar => Some(calendar_body(first)),
            Shape::Badge => Some(badge_body(&age, 833)),
            Shape::Timeline => Some(timeline_body(first, 1_705_276_800)),
            _ => None,
        }
    }
}

} // verus!
