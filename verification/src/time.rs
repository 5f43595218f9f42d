//! Calendar dates in the proleptic Gregorian calendar, as the fetchers read and print them.

use vstd::prelude::*;
use vstd::string::*;

use crate::text::{push_char, zero_pad, zero_padded};

verus! {

/// Earliest year a date can hold (the range chrono's `NaiveDate` covers).
pub const MIN_YEAR: i32 = -262143;

/// Latest year a date can hold.
pub const MAX_YEAR: i32 = 262142;

/// A calendar day.
#[derive(Debug, Clone, Copy, PartialEq, Eq, Structural)]
pub struct Date {
    pub year: i32,
    pub month: u32,
    pub day: u32,
}

/// Gregorian leap-year rule.
pub open spec fn is_leap_year(y: int) -> bool {
    (y % 4 == 0 && y % 100 != 0) || y % 400 == 0
}

/// Number of days in month `m` (1..=12) of year `y`.
pub open spec fn month_days(y: int, m: int) -> nat {
    if m == 2 {
        if is_leap_year(y) {
            29
        } else {
            28
        }
    } else if m == 4 || m == 6 || m == 9 || m == 11 {
        30
    } else {
        31
    }
}

/// A real day within the supported year range.
pub open spec fn valid_date(d: Date) -> bool {
    &&& MIN_YEAR <= d.year <= MAX_YEAR
    &&& 1 <= d.month <= 12
    &&& 1 <= d.day <= month_days(d.year as int, d.month as int)
}

/// `a` is on or before `b`.
pub open spec fn date_le(a: Date, b: Date) -> bool {
    a.year < b.year || (a.year == b.year && (a.month < b.month || (a.month == b.month && a.day
        <= b.day)))
}

/// Number of days in a month.
pub fn days_in_month(year: i32, month: u32) -> (n: u32)
    requires
        1 <= month <= 12,
    ensures
        n == month_days(year as int, month as int),
{
    if month == 2 {
        let y = year as i64;
        let leap = (y % 4 == 0 && y % 100 != 0) || y % 400 == 0;
        assert(leap == is_leap_year(year as int)) by {
            assert(y % 4 == 0 <==> (year as int) % 4 == 0) by (nonlinear_arith)
                requires y == year as int;
            assert(y % 100 == 0 <==> (year as int) % 100 == 0) by (nonlinear_arith)
                requires y == year as int;
            assert(y % 400 == 0 <==> (year as int) % 400 == 0) by (nonlinear_arith)
                requires y == year as int;
        }
        if leap {
            29
        } else {
            28
        }
    } else if month == 4 || month == 6 || month == 9 || month == 11 {
        30
    } else {
        31
    }
}

/// The date with these fields, when they name a real day in range.
pub fn from_ymd(year: i32, month: u32, day: u32) -> (r: Option<Date>)
    ensures
        r matches Some(d) ==> d == (Date { year, month, day }),
        r is Some <==> valid_date(Date { year, month, day }),
{
    if year < MIN_YEAR || year > MAX_YEAR || month < 1 || month > 12 {
        return None;
    }
    let n = days_in_month(year, month);
    if day < 1 || day > n {
        None
    } else {
        Some(Date { year, month, day })
    }
}

/// Whether `a` is on or before `b`.
pub fn on_or_before(a: Date, b: Date) -> (r: bool)
    ensures
        r == date_le(a, b),
{
    a.year < b.year || (a.year == b.year && (a.month < b.month || (a.month == b.month && a.day
        <= b.day)))
}

/// `%Y` as chrono prints it: four zero-padded digits for 0..=9999, otherwise a sign and at
/// least four digits.
pub open spec fn year_text(y: int) -> Seq<char> {
    if 0 <= y <= 9999 {
        zero_pad(y as nat, 4)
    } else if y < 0 {
        seq!['-'] + zero_pad((-y) as nat, 4)
    } else {
        seq!['+'] + zero_pad(y as nat, 4)
    }
}

/// `%Y-%m-%d`.
pub open spec fn iso_text(d: Date) -> Seq<char> {
    year_text(d.year as int) + seq!['-'] + zero_pad(d.month as nat, 2) + seq!['-'] + zero_pad(
        d.day as nat,
        2,
    )
}

/// Renders a date as `YYYY-MM-DD`.
pub fn iso_date(d: Date) -> (s: String)
    ensures
        s@ == iso_text(d),
{
    let y = d.year as i64;
    let mut s = String::new();
    if y < 0 || y > 9999 {
        push_char(&mut s, if y < 0 { '-' } else { '+' });
    }
    let abs: u64 = if y < 0 { (-y) as u64 } else { y as u64 };
    let ys = zero_padded(abs, 4);
    s.append(ys.as_str());
    push_char(&mut s, '-');
    let ms = zero_padded(d.month as u64, 2);
    s.append(ms.as_str());
    push_char(&mut s, '-');
    let ds = zero_padded(d.day as u64, 2);
    s.append(ds.as_str());
    s
}

/// The ordinal day (see `day_number`) of the UTC day a Unix timestamp falls on.
pub open spec fn utc_day_number(secs: i64) -> int {
    epoch_day() + secs / 86400
}

/// Whether an ordinal day lies in the range chrono represents.
pub open spec fn day_in_range(n: int) -> bool {
    day_number(first_date()) <= n <= day_number(last_date())
}

/// `chrono::DateTime::<Utc>::from_timestamp(secs, 0)` and its `date_naive()` fields.
/// Claimed, as the source shows (floor division of the seconds by 86 400, counted from
/// chrono's day of 1970-01-01): a returned triple is the real day with that ordinal, and a
/// triple is returned whenever that day lies in chrono's range.
#[verifier::external_body]
fn utc_day_parts(secs: i64) -> (r: Option<(i32, u32, u32)>)
    ensures
        r matches Some(t) ==> valid_date(Date { year: t.0, month: t.1, day: t.2 }) && day_number(
            Date { year: t.0, month: t.1, day: t.2 },
        ) == utc_day_number(secs),
        day_in_range(utc_day_number(secs)) ==> r is Some,
{
    chrono::DateTime::<chrono::Utc>::from_timestamp(secs, 0).map(
        |dt| {
            let d = dt.date_naive();
            (chrono::Datelike::year(&d), chrono::Datelike::month(&d), chrono::Datelike::day(&d))
        },
    )
}

/// The UTC date of a Unix timestamp, when it lies in chrono's range.
pub open spec fn spec_date_of_seconds(secs: i64) -> Option<Date> {
    if day_in_range(utc_day_number(secs)) {
        Some(date_at(utc_day_number(secs)))
    } else {
        None
    }
}

/// The UTC calendar day of a Unix timestamp.
pub fn date_of_seconds(secs: i64) -> (r: Option<Date>)
    ensures
        r == spec_date_of_seconds(secs),
        r matches Some(d) ==> valid_date(d),
{
    match utc_day_parts(secs) {
        Some(t) => {
            let d = Date { year: t.0, month: t.1, day: t.2 };
            proof {
                lemma_date_at(d);
                lemma_day_number_order(first_date(), d);
                lemma_day_number_order(d, last_date());
            }
            Some(d)
        },
        None => None,
    }
}

/// Sakamoto's month offsets.
pub open spec fn month_offset(m: int) -> int {
    if m == 1 { 0 }
    else if m == 2 { 3 }
    else if m == 3 { 2 }
    else if m == 4 { 5 }
    else if m == 5 { 0 }
    else if m == 6 { 3 }
    else if m == 7 { 5 }
    else if m == 8 { 1 }
    else if m == 9 { 4 }
    else if m == 10 { 6 }
    else if m == 11 { 2 }
    else { 4 }
}

/// Day of the week of a proleptic Gregorian date, counted from Sunday (0) to Saturday (6).
pub open spec fn spec_weekday(d: Date) -> int {
    let y: int = if d.month < 3 { d.year - 1 } else { d.year as int };
    (y + y / 4 - y / 100 + y / 400 + month_offset(d.month as int) + d.day) % 7
}

fn month_offset_of(m: u32) -> (o: i64)
    requires
        1 <= m <= 12,
    ensures
        o == month_offset(m as int),
{
    if m == 1 { 0 }
    else if m == 2 { 3 }
    else if m == 3 { 2 }
    else if m == 4 { 5 }
    else if m == 5 { 0 }
    else if m == 6 { 3 }
    else if m == 7 { 5 }
    else if m == 8 { 1 }
    else if m == 9 { 4 }
    else if m == 10 { 6 }
    else if m == 11 { 2 }
    else { 4 }
}

/// Days since the last Sunday (Sunday is 0).
pub fn weekday_from_sunday(d: Date) -> (w: u32)
    requires
        valid_date(d),
    ensures
        w == spec_weekday(d),
        w < 7,
{
    let y: i64 = if d.month < 3 { d.year as i64 - 1 } else { d.year as i64 };
    // Whole 400-year cycles (146097 days, a multiple of seven) keep the weekday and make
    // the year positive, where integer division floors.
    let shifted: i64 = y + 262400;
    let ghost yi: int = y as int;
    assert(shifted > 0);
    assert(shifted / 4 == yi / 4 + 65600 && shifted / 100 == yi / 100 + 2624 && shifted / 400
        == yi / 400 + 656) by (nonlinear_arith)
        requires
            shifted == yi + 262400,
    ;
    let total: i64 = shifted + shifted / 4 - shifted / 100 + shifted / 400 + month_offset_of(
        d.month,
    ) + d.day as i64;
    assert(total % 7 == (yi + yi / 4 - yi / 100 + yi / 400 + month_offset(d.month as int)
        + d.day) % 7) by (nonlinear_arith)
        requires
            total == (yi + yi / 4 - yi / 100 + yi / 400 + month_offset(d.month as int) + d.day)
                + 7 * 46576,
    ;
    (total % 7) as u32
}

/// Days in the years before `y`, counted from year 1 (negative for earlier years).
pub open spec fn days_before_year(y: int) -> int {
    let p = y - 1;
    365 * p + p / 4 - p / 100 + p / 400
}

/// Days in the months of year `y` before month `m`.
pub open spec fn days_before_month(y: int, m: int) -> int {
    let base: int = if m == 1 { 0 }
    else if m == 2 { 31 }
    else if m == 3 { 59 }
    else if m == 4 { 90 }
    else if m == 5 { 120 }
    else if m == 6 { 151 }
    else if m == 7 { 181 }
    else if m == 8 { 212 }
    else if m == 9 { 243 }
    else if m == 10 { 273 }
    else if m == 11 { 304 }
    else { 334 };
    if m > 2 && is_leap_year(y) {
        base + 1
    } else {
        base
    }
}

/// Ordinal day of a date: 1 for 0001-01-01, counting on by one per day.
pub open spec fn day_number(d: Date) -> int {
    days_before_year(d.year as int) + days_before_month(d.year as int, d.month as int) + d.day
}

/// Ordinal day of 1970-01-01.
pub open spec fn epoch_day() -> int {
    719163
}

/// Earliest date chrono represents.
pub open spec fn first_date() -> Date {
    Date { year: MIN_YEAR, month: 1, day: 1 }
}

/// Latest date chrono represents.
pub open spec fn last_date() -> Date {
    Date { year: MAX_YEAR, month: 12, day: 31 }
}

/// Floor-division steps between consecutive years.
proof fn lemma_year_steps(y: int)
    ensures
        y / 4 - (y - 1) / 4 == (if y % 4 == 0 { 1int } else { 0int }),
        y / 100 - (y - 1) / 100 == (if y % 100 == 0 { 1int } else { 0int }),
        y / 400 - (y - 1) / 400 == (if y % 400 == 0 { 1int } else { 0int }),
{
    assert(y / 4 - (y - 1) / 4 == (if y % 4 == 0 { 1int } else { 0int })) by (nonlinear_arith);
    assert(y / 100 - (y - 1) / 100 == (if y % 100 == 0 { 1int } else { 0int })) by (nonlinear_arith);
    assert(y / 400 - (y - 1) / 400 == (if y % 400 == 0 { 1int } else { 0int })) by (nonlinear_arith);
}

/// The weekday (from Sunday) is the ordinal day modulo seven: day 1 was a Monday.
pub proof fn lemma_weekday_of_day_number(d: Date)
    requires
        valid_date(d),
    ensures
        spec_weekday(d) == day_number(d) % 7,
{
    let y = d.year as int;
    let m = d.month as int;
    lemma_year_steps(y);
    let yy: int = if m < 3 { y - 1 } else { y };
    let s = yy + yy / 4 - yy / 100 + yy / 400 + month_offset(m) + d.day;
    let rd = day_number(d);
    assert(is_leap_year(y) <==> (y % 4 == 0 && y % 100 != 0) || y % 400 == 0);
    assert(y % 400 == 0 ==> y % 100 == 0) by (nonlinear_arith);
    assert(y % 100 == 0 ==> y % 4 == 0) by (nonlinear_arith);
    let k: int = if m < 3 { 52 * (y - 1) + (if m == 2 { 4int } else { 0int }) } else {
        52 * y - 52 + (days_before_month(1, m) - 1 - month_offset(m)) / 7
    };
    if m < 3 {
        assert(rd - s == 7 * k);
    } else {
        assert(rd - s == 364 * y - 365 + days_before_month(1, m) - month_offset(m));
        assert((days_before_month(1, m) - 1 - month_offset(m)) % 7 == 0);
        assert(rd - s == 7 * k);
    }
    assert(rd % 7 == s % 7) by (nonlinear_arith)
        requires
            rd - s == 7 * k,
    ;
}

/// A year has 365 days, 366 when it is a leap year.
proof fn lemma_year_length(y: int)
    ensures
        days_before_year(y + 1) - days_before_year(y) == (if is_leap_year(y) { 366int } else { 365int }),
{
    lemma_year_steps(y);
    assert(y % 400 == 0 ==> y % 100 == 0) by (nonlinear_arith);
    assert(y % 100 == 0 ==> y % 4 == 0) by (nonlinear_arith);
}

/// Later years start at least a year later.
proof fn lemma_years_grow(p: int, q: int)
    requires
        p < q,
    ensures
        days_before_year(p) + 365 <= days_before_year(q),
    decreases q - p,
{
    lemma_year_length(q - 1);
    if q > p + 1 {
        lemma_years_grow(p, q - 1);
    }
}

/// Months tile the year: month `m` covers the days after `days_before_month(y, m)` up to
/// the start of the next month.
proof fn lemma_months_tile(y: int, m1: int, m2: int)
    requires
        1 <= m1 < m2 <= 12,
    ensures
        days_before_month(y, m1) + month_days(y, m1) <= days_before_month(y, m2),
        days_before_month(y, 12) + 31 == (if is_leap_year(y) { 366int } else { 365int }),
{
}

/// A valid date's ordinal falls inside its year and its month.
proof fn lemma_day_in_year(d: Date)
    requires
        valid_date(d),
    ensures
        days_before_year(d.year as int) < day_number(d) <= days_before_year(d.year + 1),
        day_number(d) - days_before_year(d.year as int) - days_before_month(d.year as int, d.month as int) == d.day,
{
    lemma_year_length(d.year as int);
    if d.month < 12 {
        lemma_months_tile(d.year as int, d.month as int, 12);
    }
}

/// Distinct valid dates have distinct ordinals, in calendar order.
pub proof fn lemma_day_number_order(a: Date, b: Date)
    requires
        valid_date(a),
        valid_date(b),
    ensures
        date_le(a, b) <==> day_number(a) <= day_number(b),
        day_number(a) == day_number(b) ==> a == b,
{
    lemma_day_in_year(a);
    lemma_day_in_year(b);
    if a.year < b.year {
        if a.year + 1 < b.year {
            lemma_years_grow(a.year + 1, b.year as int);
        }
    } else if b.year < a.year {
        if b.year + 1 < a.year {
            lemma_years_grow(b.year + 1, a.year as int);
        }
    } else {
        if a.month < b.month {
            lemma_months_tile(a.year as int, a.month as int, b.month as int);
        } else if b.month < a.month {
            lemma_months_tile(a.year as int, b.month as int, a.month as int);
        }
    }
}

/// The valid date whose ordinal is `n`.
pub open spec fn date_at(n: int) -> Date {
    choose|x: Date| valid_date(x) && day_number(x) == n
}

/// A valid date is the date at its own ordinal.
pub proof fn lemma_date_at(x: Date)
    requires
        valid_date(x),
    ensures
        date_at(day_number(x)) == x,
{
    assert(valid_date(x) && day_number(x) == day_number(x));
    let c = date_at(day_number(x));
    lemma_day_number_order(c, x);
}

/// `chrono::NaiveDate::checked_add_signed` by `chrono::TimeDelta::try_days(days)`.
/// Claimed: a returned date lies `days` days after `d` (before it when negative), and a
/// result inside the range chrono represents is returned.
#[verifier::external_body]
pub(crate) fn shift_days(d: Date, days: i64) -> (r: Option<Date>)
    requires
        valid_date(d),
    ensures
        r matches Some(x) ==> valid_date(x) && day_number(x) == day_number(d) + days,
        day_number(first_date()) <= day_number(d) + days <= day_number(last_date()) ==> r is Some,
{
    let n = chrono::NaiveDate::from_ymd_opt(d.year, d.month, d.day).unwrap();
    chrono::TimeDelta::try_days(days).and_then(|t| n.checked_add_signed(t)).map(
        |x| Date {
            year: chrono::Datelike::year(&x),
            month: chrono::Datelike::month(&x),
            day: chrono::Datelike::day(&x),
        },
    )
}

/// `(later - earlier).num_days()` on chrono dates. Claimed: the difference of the
/// ordinal days.
#[verifier::external_body]
pub(crate) fn days_between(earlier: Date, later: Date) -> (r: i64)
    requires
        valid_date(earlier),
        valid_date(later),
    ensures
        r == day_number(later) - day_number(earlier),
{
    let a = chrono::NaiveDate::from_ymd_opt(earlier.year, earlier.month, earlier.day).unwrap();
    let b = chrono::NaiveDate::from_ymd_opt(later.year, later.month, later.day).unwrap();
    (b - a).num_days()
}

/// `d.and_hms_opt(12, 0, 0)` as a UTC instant, by chrono's `and_utc().timestamp()`.
/// Claimed: the Unix seconds of noon UTC on that day.
#[verifier::external_body]
pub(crate) fn noon_utc_seconds(d: Date) -> (r: i64)
    requires
        valid_date(d),
    ensures
        r == (day_number(d) - epoch_day()) * 86400 + 43200,
{
    let n = chrono::NaiveDate::from_ymd_opt(d.year, d.month, d.day).unwrap();
    n.and_hms_opt(12, 0, 0).unwrap().and_utc().timestamp()
}

/// The date `months` months before `d`, its day clamped to the length of the target month;
/// none outside the representable years.
pub open spec fn spec_months_before(d: Date, months: int) -> Option<Date> {
    let total = d.year * 12 + d.month - 1 - months;
    let y = total / 12;
    let m = total % 12 + 1;
    let last = month_days(y, m);
    let day = if d.day > last { last as int } else { d.day as int };
    if MIN_YEAR <= y <= MAX_YEAR {
        Some(Date { year: y as i32, month: m as u32, day: day as u32 })
    } else {
        None
    }
}

/// Going further back lands strictly earlier: from a real day, more months back gives a
/// real day strictly before the one fewer months back gives.
pub proof fn lemma_months_before_earlier(d: Date, m1: int, m2: int)
    requires
        valid_date(d),
        0 <= m1 < m2,
        spec_months_before(d, m1) is Some,
        spec_months_before(d, m2) is Some,
    ensures
        valid_date(spec_months_before(d, m1).unwrap()),
        valid_date(spec_months_before(d, m2).unwrap()),
        day_number(spec_months_before(d, m2).unwrap()) < day_number(
            spec_months_before(d, m1).unwrap(),
        ),
{
    let t1 = d.year * 12 + d.month - 1 - m1;
    let t2 = d.year * 12 + d.month - 1 - m2;
    vstd::arithmetic::div_mod::lemma_fundamental_div_mod(t1, 12);
    vstd::arithmetic::div_mod::lemma_fundamental_div_mod(t2, 12);
    let a = spec_months_before(d, m1).unwrap();
    let b = spec_months_before(d, m2).unwrap();
    assert(t1 % 12 < 12 && t2 % 12 < 12 && 0 <= t1 % 12 && 0 <= t2 % 12);
    assert(t2 / 12 <= t1 / 12) by {
        vstd::arithmetic::div_mod::lemma_div_is_ordered(t2, t1, 12);
    }
    assert(date_le(b, a));
    assert(b != a);
    lemma_day_number_order(b, a);
}

/// `chrono::NaiveDate::checked_sub_months(chrono::Months::new(months))`. Claimed, as its
/// documentation says: the same day `months` months earlier, clamped to the last day of a
/// shorter month, and `None` when that falls outside chrono's range.
#[verifier::external_body]
pub(crate) fn months_before(d: Date, months: u32) -> (r: Option<Date>)
    requires
        valid_date(d),
    ensures
        r == spec_months_before(d, months as int),
{
    let n = chrono::NaiveDate::from_ymd_opt(d.year, d.month, d.day).unwrap();
    n.checked_sub_months(chrono::Months::new(months)).map(
        |x| Date {
            year: chrono::Datelike::year(&x),
            month: chrono::Datelike::month(&x),
            day: chrono::Datelike::day(&x),
        },
    )
}

/// `MM/DD`, as chrono prints `%m/%d`.
pub open spec fn month_day_text(d: Date) -> Seq<char> {
    zero_pad(d.month as nat, 2) + "/"@ + zero_pad(d.day as nat, 2)
}

/// Formats a date as `MM/DD`.
pub fn month_day(d: Date) -> (s: String)
    ensures
        s@ == month_day_text(d),
{
    let mut s = zero_padded(d.month as u64, 2);
    s.append("/");
    let ds = zero_padded(d.day as u64, 2);
    s.append(ds.as_str());
    s
}

/// Three-letter English month name; empty outside 1..=12.
pub open spec fn spec_short_month(m: u32) -> Seq<char> {
    if m == 1 { "Jan"@ }
    else if m == 2 { "Feb"@ }
    else if m == 3 { "Mar"@ }
    else if m == 4 { "Apr"@ }
    else if m == 5 { "May"@ }
    else if m == 6 { "Jun"@ }
    else if m == 7 { "Jul"@ }
    else if m == 8 { "Aug"@ }
    else if m == 9 { "Sep"@ }
    else if m == 10 { "Oct"@ }
    else if m == 11 { "Nov"@ }
    else if m == 12 { "Dec"@ }
    else { Seq::empty() }
}

/// Short month name.
pub fn short_month(m: u32) -> (s: String)
    ensures
        s@ == spec_short_month(m),
{
    let t = if m == 1 { "Jan" }
    else if m == 2 { "Feb" }
    else if m == 3 { "Mar" }
    else if m == 4 { "Apr" }
    else if m == 5 { "May" }
    else if m == 6 { "Jun" }
    else if m == 7 { "Jul" }
    else if m == 8 { "Aug" }
    else if m == 9 { "Sep" }
    else if m == 10 { "Oct" }
    else if m == 11 { "Nov" }
    else if m == 12 { "Dec" }
    else {
        proof {
            reveal_strlit("");
        }
        ""
    };
    let r = String::from_str(t);
    proof {
        if !(1 <= m <= 12) {
            assert(t@ =~= Seq::<char>::empty());
        }
    }
    r
}

/// The date chrono's `NaiveDate::parse_from_str(raw, "%Y-%m-%d")` reads from a text.
pub uninterp spec fn ymd_parsed(raw: Seq<char>) -> Option<(i32, u32, u32)>;

/// `chrono::NaiveDate::parse_from_str(raw, "%Y-%m-%d")` and its fields. Claimed: the
/// result is `ymd_parsed(raw)`, a function of the text alone, and a parsed triple is a
/// real day in the range chrono covers.
#[verifier::external_body]
fn parse_ymd_parts(raw: &str) -> (r: Option<(i32, u32, u32)>)
    ensures
        r == ymd_parsed(raw@),
        r matches Some(t) ==> valid_date(Date { year: t.0, month: t.1, day: t.2 }),
{
    chrono::NaiveDate::parse_from_str(raw, "%Y-%m-%d").ok().map(
        |d| (chrono::Datelike::year(&d), chrono::Datelike::month(&d), chrono::Datelike::day(&d)),
    )
}

/// The date a `YYYY-MM-DD` text names, as chrono reads it.
pub open spec fn spec_parse_date(raw: Seq<char>) -> Option<Date> {
    match ymd_parsed(raw) {
        Some(t) => Some(Date { year: t.0, month: t.1, day: t.2 }),
        None => None,
    }
}

/// Reads a `YYYY-MM-DD` date.
pub fn parse_date(raw: &str) -> (r: Option<Date>)
    ensures
        r == spec_parse_date(raw@),
        r matches Some(d) ==> valid_date(d),
{
    match parse_ymd_parts(raw) {
        Some(t) => Some(Date { year: t.0, month: t.1, day: t.2 }),
        None => None,
    }
}

} // verus!
