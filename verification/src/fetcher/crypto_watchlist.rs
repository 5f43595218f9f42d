//! `crypto_watchlist` — CoinGecko price snapshot for a configurable set of coins. The host
//! `api.coingecko.com` is fixed; coin ids and the quote currency become query parameters
//! after a strict allow-list check, so configuration cannot add parameters or reach
//! another host.
//!
//! Prices and changes arrive as floating-point numbers; the rows rendered here carry them
//! already formatted, with the change's direction, its size in basis points, whether it
//! counts as volatile, and the 7-day hourly prices in cents.

use vstd::prelude::*;
use vstd::string::*;

use crate::fetcher::github::common::{cache_key as keyed_cache_key, spec_cache_key};
use crate::fetcher::{FetchContext, FetchError, OptionSchema, Safety};
use crate::payload::{
    BadgeData, Bar, BarsData, Body, EntriesData, Entry, LinkedLine, LinkedTextBlockData,
    MarkdownTextBlockData, NumberSeriesData, PointSeries, PointSeriesData, Status, TextBlockData,
    TextData,
};
use crate::render::Shape;
use crate::text::{opt_str_view, opt_string_view};
use crate::text::{
    chars_of, dec, join, join_strings, lowercase, lowercase_of, push_char, string_from_chars,
    trim, trim_str, u64_to_string, uppercase, uppercase_of, views,
};

verus! {

/// The `crypto_watchlist` fetcher.
pub struct CryptoWatchlistFetcher;

/// Markets endpoint.
pub const API_BASE: &'static str = "https://api.coingecko.com/api/v3/coins/markets";

/// Public coin pages.
pub const COIN_PAGE_BASE: &'static str = "https://www.coingecko.com/en/coins";

/// Most coins one widget asks for.
pub const MAX_COINS: usize = 20;

/// Most coins drawn as point series.
pub const MAX_SERIES_COINS: usize = 5;

/// Widget options.
#[derive(Debug, Default, Clone)]
pub struct Options {
    pub coins: Option<Vec<String>>,
    pub vs_currency: Option<String>,
}

pub open spec fn spec_shapes() -> Seq<Shape> {
    seq![
        Shape::Entries,
        Shape::Text,
        Shape::TextBlock,
        Shape::MarkdownTextBlock,
        Shape::LinkedTextBlock,
        Shape::NumberSeries,
        Shape::PointSeries,
        Shape::Bars,
        Shape::Badge,
    ]
}

impl CryptoWatchlistFetcher {
    /// Catalog name.
    pub fn name(&self) -> (r: &'static str)
        ensures
            r@ == "crypto_watchlist"@,
    {
        "crypto_watchlist"
    }

    /// Trust class.
    pub fn safety(&self) -> (r: Safety)
        ensures
            r == Safety::Safe,
    {
        Safety::Safe
    }

    /// One-paragraph catalog description.
    pub fn description(&self) -> (r: &'static str)
        ensures
            r@ == "CoinGecko price snapshot for a configurable list of coins. `Entries` (default) / `Text` / `TextBlock` / `MarkdownTextBlock` / `LinkedTextBlock` summarise spot price + 24h change; `NumberSeries` carries the first coin's 7-day hourly price (cents) for sparklines; `PointSeries` carries one series per coin for line / scatter charts; `Bars` ranks coins by 24h |% change| (basis points); `Badge` flags the top mover. No API key required."@,
    {
        "CoinGecko price snapshot for a configurable list of coins. `Entries` (default) / `Text` / `TextBlock` / `MarkdownTextBlock` / `LinkedTextBlock` summarise spot price + 24h change; `NumberSeries` carries the first coin's 7-day hourly price (cents) for sparklines; `PointSeries` carries one series per coin for line / scatter charts; `Bars` ranks coins by 24h |% change| (basis points); `Badge` flags the top mover. No API key required."
    }

    /// Shapes this fetcher can produce.
    pub fn shapes(&self) -> (r: Vec<Shape>)
        ensures
            r@ == spec_shapes(),
    {
        let r = vec![
            Shape::Entries,
            Shape::Text,
            Shape::TextBlock,
            Shape::MarkdownTextBlock,
            Shape::LinkedTextBlock,
            Shape::NumberSeries,
            Shape::PointSeries,
            Shape::Bars,
            Shape::Badge,
        ];
        assert(r@ =~= spec_shapes());
        r
    }

    /// Shape used when the widget names none.
    pub fn default_shape(&self) -> (r: Shape)
        ensures
            r == Shape::Entries,
    {
        Shape::Entries
    }

    /// Documented options.
    pub fn option_schemas(&self) -> (r: Vec<OptionSchema>)
        ensures
            r@.len() == 2,
            r@[0].name@ == "coins"@,
            opt_str_view(r@[0].default) == Some("[\"bitcoin\", \"ethereum\"]"@),
            r@[1].name@ == "vs_currency"@,
            opt_str_view(r@[1].default) == Some("\"usd\""@),
    {
        vec![
            OptionSchema {
                name: "coins",
                type_hint: "list of strings (CoinGecko coin ids)",
                required: false,
                default: Some("[\"bitcoin\", \"ethereum\"]"),
                description: "CoinGecko coin ids to include (e.g. `[\"bitcoin\", \"ethereum\", \"solana\"]`). Capped at 20 entries.",
            },
            OptionSchema {
                name: "vs_currency",
                type_hint: "string (lowercase 2-5 letter code)",
                required: false,
                default: Some("\"usd\""),
                description: "Quote currency code passed to CoinGecko (e.g. `usd`, `jpy`, `eur`, `btc`). Letters only.",
            },
        ]
    }

    /// Cache key: the context plus the serialized options.
    pub fn cache_key(&self, ctx: &FetchContext, options_text: &str) -> (k: String)
        ensures
            k@ == spec_cache_key("crypto_watchlist"@, *ctx, options_text@),
    {
        keyed_cache_key("crypto_watchlist", ctx, options_text)
    }
}

/// A character allowed in a coin id: lowercase ASCII letter, digit or hyphen.
pub open spec fn coin_char(c: char) -> bool {
    ('a' <= c && c <= 'z') || ('0' <= c && c <= '9') || c == '-'
}

/// A lowercase ASCII letter.
pub open spec fn lower_letter(c: char) -> bool {
    'a' <= c && c <= 'z'
}

/// A lowercased coin id, kept when it is 1 to 64 allowed characters long.
pub open spec fn checked_coin_id(id: Seq<char>) -> Option<Seq<char>> {
    if query_safe_id(id) {
        Some(id)
    } else {
        None
    }
}

/// The coin id of an option value: trimmed and lowercased, kept when it is 1 to 64
/// allowed characters long.
pub open spec fn spec_sanitise(raw: Seq<char>) -> Option<Seq<char>> {
    checked_coin_id(lowercase_of(trim(raw)))
}

fn all_coin_chars(s: &str) -> (r: bool)
    ensures
        r == forall|i: int| 0 <= i < s@.len() ==> #[trigger] coin_char(s@[i]),
{
    let a = chars_of(s);
    let mut i: usize = 0;
    while i < a.len()
        invariant
            a@ == s@,
            i <= a@.len(),
            forall|j: int| 0 <= j < i ==> #[trigger] coin_char(a@[j]),
        decreases a@.len() - i,
    {
        let c = a[i];
        if !(('a' <= c && c <= 'z') || ('0' <= c && c <= '9') || c == '-') {
            assert(!coin_char(s@[i as int]));
            return false;
        }
        i = i + 1;
    }
    true
}

/// A lowercased coin id checked against the allow-list.
pub fn coin_id_checked(id: String) -> (r: Option<String>)
    ensures
        opt_string_view(r) == checked_coin_id(id@),
{
    let n = id.unicode_len();
    if 1 <= n && n <= 64 && all_coin_chars(id.as_str()) {
        Some(id)
    } else {
        None
    }
}

/// A coin id checked against the allow-list, so it can stand in the query string.
pub fn sanitise_coin_id(raw: &str) -> (r: Option<String>)
    ensures
        opt_string_view(r) == spec_sanitise(raw@),
{
    let t = trim_str(raw);
    let id = lowercase(t.as_str());
    coin_id_checked(id)
}

/// The ids to sanitise: the option's (lowercased) when it lists any, else bitcoin and
/// ethereum.
pub open spec fn supplied_coins(raw: Option<Seq<Seq<char>>>) -> Seq<Seq<char>> {
    match raw {
        Some(items) => if items.len() > 0 {
            Seq::new(items.len(), |i: int| lowercase_of(items[i]))
        } else {
            seq!["bitcoin"@, "ethereum"@]
        },
        None => seq!["bitcoin"@, "ethereum"@],
    }
}

/// The ids that pass the allow-list, in order.
pub open spec fn valid_ids(s: Seq<Seq<char>>) -> Seq<Seq<char>>
    decreases s.len(),
{
    if s.len() == 0 {
        Seq::empty()
    } else {
        match spec_sanitise(s.last()) {
            Some(id) => valid_ids(s.drop_last()).push(id),
            None => valid_ids(s.drop_last()),
        }
    }
}

/// The ids that were kept, in order.
pub open spec fn kept_ids(s: Seq<Option<Seq<char>>>) -> Seq<Seq<char>>
    decreases s.len(),
{
    if s.len() == 0 {
        Seq::empty()
    } else {
        match s.last() {
            Some(id) => kept_ids(s.drop_last()).push(id),
            None => kept_ids(s.drop_last()),
        }
    }
}

/// The first twenty kept ids, none when no id was kept.
pub open spec fn spec_select_coins(s: Seq<Option<Seq<char>>>) -> Option<Seq<Seq<char>>> {
    let v = kept_ids(s);
    let kept = if v.len() > 20 { v.take(20) } else { v };
    if kept.len() == 0 {
        None
    } else {
        Some(kept)
    }
}

pub open spec fn opt_views_seq(s: Seq<Option<String>>) -> Seq<Option<Seq<char>>> {
    Seq::new(s.len(), |i: int| opt_string_view(s[i]))
}

/// The allow-list check applied to each id.
pub open spec fn sanitised(s: Seq<Seq<char>>) -> Seq<Option<Seq<char>>> {
    Seq::new(s.len(), |i: int| spec_sanitise(s[i]))
}

proof fn lemma_valid_ids_kept(s: Seq<Seq<char>>)
    ensures
        valid_ids(s) == kept_ids(sanitised(s)),
    decreases s.len(),
{
    if s.len() > 0 {
        assert(sanitised(s).drop_last() =~= sanitised(s.drop_last()));
        lemma_valid_ids_kept(s.drop_last());
    }
}

/// Keeps the ids that passed the allow-list, at most twenty of them in order; none left is
/// an error.
pub fn select_coins(checked: Vec<Option<String>>) -> (r: Result<Vec<String>, FetchError>)
    ensures
        match spec_select_coins(opt_views_seq(checked@)) {
            Some(ids) => r matches Ok(v) && views(v@) == ids,
            None => r matches Err(FetchError::Failed(m)) && m@ == no_coins_message(),
        },
{
    let ghost all = opt_views_seq(checked@);
    let mut coins: Vec<String> = Vec::new();
    let mut rest = checked;
    let mut i: usize = 0;
    let n = rest.len();
    assert(all.take(0) =~= Seq::<Option<Seq<char>>>::empty());
    while i < n
        invariant
            n == rest@.len(),
            opt_views_seq(rest@) == all,
            i <= n,
            views(coins@) == kept_ids(all.take(i as int)),
        decreases n - i,
    {
        assert(all.take(i + 1).drop_last() =~= all.take(i as int));
        assert(all.take(i + 1).last() == opt_string_view(rest@[i as int]));
        match &rest[i] {
            Some(id) => {
                let ghost pre = views(coins@);
                coins.push(id.clone());
                assert(views(coins@) =~= pre.push(coins@.last()@));
            },
            None => {},
        }
        i = i + 1;
    }
    assert(all.take(n as int) =~= all);
    if coins.len() > MAX_COINS {
        let ghost whole = views(coins@);
        coins.truncate(MAX_COINS);
        assert(views(coins@) =~= whole.take(20));
    }
    if coins.len() == 0 {
        return Err(
            FetchError::Failed(
                String::from_str("crypto_watchlist: `coins` must contain at least one CoinGecko coin id"),
            ),
        );
    }
    Ok(coins)
}

/// The coins to ask for: the first twenty valid ids, none when no id is valid.
pub open spec fn spec_resolve_coins(raw: Option<Seq<Seq<char>>>) -> Option<Seq<Seq<char>>> {
    let v = valid_ids(supplied_coins(raw));
    let kept = if v.len() > 20 { v.take(20) } else { v };
    if kept.len() == 0 {
        None
    } else {
        Some(kept)
    }
}

pub open spec fn opt_views(raw: Option<&[String]>) -> Option<Seq<Seq<char>>> {
    match raw {
        Some(items) => Some(views(items@)),
        None => None,
    }
}

/// The message when no usable coin id remains.
pub open spec fn no_coins_message() -> Seq<char> {
    "crypto_watchlist: `coins` must contain at least one CoinGecko coin id"@
}

/// Resolves the `coins` option into at most twenty allow-listed ids.
pub fn resolve_coins(raw: Option<&[String]>) -> (r: Result<Vec<String>, FetchError>)
    ensures
        match spec_resolve_coins(opt_views(raw)) {
            Some(ids) => r matches Ok(v) && views(v@) == ids,
            None => r matches Err(FetchError::Failed(m)) && m@ == no_coins_message(),
        },
{
    let mut supplied: Vec<String> = Vec::new();
    match raw {
        Some(items) => {
            if items.len() > 0 {
                let mut i: usize = 0;
                while i < items.len()
                    invariant
                        i <= items@.len(),
                        supplied@.len() == i,
                        forall|j: int| 0 <= j < i ==> #[trigger] supplied@[j]@ == lowercase_of(items@[j]@),
                    decreases items@.len() - i,
                {
                    supplied.push(lowercase(items[i].as_str()));
                    i = i + 1;
                }
            } else {
                supplied.push(String::from_str("bitcoin"));
                supplied.push(String::from_str("ethereum"));
            }
        },
        None => {
            supplied.push(String::from_str("bitcoin"));
            supplied.push(String::from_str("ethereum"));
        },
    }
    let ghost sup = supplied_coins(opt_views(raw));
    assert(views(supplied@) =~= sup);
    let mut checked: Vec<Option<String>> = Vec::new();
    let mut i: usize = 0;
    while i < supplied.len()
        invariant
            views(supplied@) == sup,
            i <= supplied@.len(),
            checked@.len() == i,
            forall|j: int| 0 <= j < i ==> #[trigger] opt_string_view(checked@[j]) == spec_sanitise(sup[j]),
        decreases supplied@.len() - i,
    {
        assert(supplied@[i as int]@ == sup[i as int]);
        checked.push(sanitise_coin_id(supplied[i].as_str()));
        i = i + 1;
    }
    proof {
        assert(opt_views_seq(checked@) =~= sanitised(sup));
        lemma_valid_ids_kept(sup);
    }
    select_coins(checked)
}

/// An id that can stand in the query string: 1 to 64 allowed characters.
pub open spec fn query_safe_id(id: Seq<char>) -> bool {
    1 <= id.len() <= 64 && forall|i: int| 0 <= i < id.len() ==> #[trigger] coin_char(id[i])
}

proof fn lemma_valid_ids_safe(s: Seq<Seq<char>>)
    ensures
        forall|k: int| 0 <= k < valid_ids(s).len() ==> query_safe_id(#[trigger] valid_ids(s)[k]),
    decreases s.len(),
{
    if s.len() > 0 {
        lemma_valid_ids_safe(s.drop_last());
        let pre = valid_ids(s.drop_last());
        match spec_sanitise(s.last()) {
            Some(id) => {
                assert(query_safe_id(id));
                assert forall|k: int| 0 <= k < valid_ids(s).len() implies query_safe_id(
                    #[trigger] valid_ids(s)[k],
                ) by {
                    if k < pre.len() {
                        assert(valid_ids(s)[k] == pre[k]);
                    }
                }
            },
            None => {},
        }
    }
}

/// Whatever the options hold, the coins asked for are one to twenty ids made only of
/// lowercase letters, digits and hyphens, and the quote currency two to five lowercase
/// letters: configuration cannot add query parameters.
pub proof fn lemma_query_is_allow_listed(coins: Option<Seq<Seq<char>>>, vs: Option<Seq<char>>)
    ensures
        spec_resolve_coins(coins) matches Some(ids) ==> 1 <= ids.len() <= 20 && forall|k: int|
            0 <= k < ids.len() ==> query_safe_id(#[trigger] ids[k]),
        vs_ok(spec_vs_value(vs)) ==> forall|i: int|
            0 <= i < spec_vs_value(vs).len() ==> #[trigger] lower_letter(spec_vs_value(vs)[i]),
{
    let v = valid_ids(supplied_coins(coins));
    lemma_valid_ids_safe(supplied_coins(coins));
    if v.len() > 20 {
        assert forall|k: int| 0 <= k < 20 implies query_safe_id(#[trigger] v.take(20)[k]) by {
            assert(v.take(20)[k] == v[k]);
        }
    }
}

/// The quote currency asked for: the option trimmed and lowercased, `usd` when blank.
pub open spec fn spec_vs_value(raw: Option<Seq<char>>) -> Seq<char> {
    match raw {
        Some(t) => if trim(t).len() > 0 {
            lowercase_of(trim(t))
        } else {
            "usd"@
        },
        None => "usd"@,
    }
}

/// A quote currency is two to five lowercase ASCII letters.
pub open spec fn vs_ok(v: Seq<char>) -> bool {
    2 <= v.len() <= 5 && forall|i: int| 0 <= i < v.len() ==> #[trigger] lower_letter(v[i])
}

fn all_lower_letters(s: &str) -> (r: bool)
    ensures
        r == forall|i: int| 0 <= i < s@.len() ==> #[trigger] lower_letter(s@[i]),
{
    let a = chars_of(s);
    let mut i: usize = 0;
    while i < a.len()
        invariant
            a@ == s@,
            i <= a@.len(),
            forall|j: int| 0 <= j < i ==> #[trigger] lower_letter(a@[j]),
        decreases a@.len() - i,
    {
        let c = a[i];
        if !('a' <= c && c <= 'z') {
            assert(!lower_letter(s@[i as int]));
            return false;
        }
        i = i + 1;
    }
    true
}

/// A lowercased quote currency: kept when it is two to five lowercase letters, else an
/// error naming it.
pub open spec fn vs_checked_ok(v: Seq<char>, r: Result<String, FetchError>) -> bool {
    if vs_ok(v) {
        r matches Ok(x) && x@ == v
    } else {
        r matches Err(FetchError::Failed(m)) && m@ == "crypto_watchlist: invalid vs_currency `"@ + v
            + "` (lowercase 2-5 letter code)"@
    }
}

/// Checks a lowercased quote currency.
pub fn vs_currency_checked(value: String) -> (r: Result<String, FetchError>)
    ensures
        vs_checked_ok(value@, r),
{
    let n = value.unicode_len();
    if !(2 <= n && n <= 5) || !all_lower_letters(value.as_str()) {
        let mut m = String::from_str("crypto_watchlist: invalid vs_currency `");
        m.append(value.as_str());
        m.append("` (lowercase 2-5 letter code)");
        return Err(FetchError::Failed(m));
    }
    Ok(value)
}

/// Resolves the `vs_currency` option; anything but two to five lowercase letters is
/// refused, since the code goes into the query string.
pub fn resolve_vs_currency(raw: Option<&str>) -> (r: Result<String, FetchError>)
    ensures
        vs_ok(spec_vs_value(opt_str_view(raw))) ==> (r matches Ok(v) && v@ == spec_vs_value(opt_str_view(raw))),
        !vs_ok(spec_vs_value(opt_str_view(raw))) ==> (r matches Err(FetchError::Failed(m)) && m@
            == "crypto_watchlist: invalid vs_currency `"@ + spec_vs_value(opt_str_view(raw))
            + "` (lowercase 2-5 letter code)"@),
{
    let value = match raw {
        Some(t) => {
            let trimmed = trim_str(t);
            if trimmed.unicode_len() > 0 {
                lowercase(trimmed.as_str())
            } else {
                String::from_str("usd")
            }
        },
        None => String::from_str("usd"),
    };
    vs_currency_checked(value)
}

/// The markets request for the coins and currency.
pub open spec fn spec_build_url(coins: Seq<Seq<char>>, vs: Seq<char>) -> Seq<char> {
    "https://api.coingecko.com/api/v3/coins/markets?vs_currency="@ + vs + "&ids="@ + join(coins, ","@)
        + "&sparkline=true&order=market_cap_desc&per_page="@ + dec(coins.len()) + "&page=1"@
}

/// Builds the markets request, one page holding every coin.
pub fn build_url(coins: &Vec<String>, vs_currency: &str) -> (url: String)
    ensures
        url@ == spec_build_url(views(coins@), vs_currency@),
{
    let ids = join_strings(coins, ",");
    let mut url = String::from_str("https://api.coingecko.com/api/v3/coins/markets?vs_currency=");
    url.append(vs_currency);
    url.append("&ids=");
    url.append(ids.as_str());
    url.append("&sparkline=true&order=market_cap_desc&per_page=");
    let n = u64_to_string(coins.len() as u64);
    url.append(n.as_str());
    url.append("&page=1");
    url
}

/// Glyph of a well-known quote currency.
pub open spec fn spec_currency_symbol(code: Seq<char>) -> Option<Seq<char>> {
    if code == "usd"@ {
        Some("$"@)
    } else if code == "eur"@ {
        Some("€"@)
    } else if code == "jpy"@ {
        Some("¥"@)
    } else if code == "gbp"@ {
        Some("£"@)
    } else if code == "krw"@ {
        Some("₩"@)
    } else {
        None
    }
}

/// The glyph of a quote currency, none for the rest.
pub fn currency_symbol(code: &str) -> (r: Option<&'static str>)
    ensures
        opt_str_view(r) == spec_currency_symbol(code@),
{
    if crate::text::str_eq(code, "usd") {
        Some("$")
    } else if crate::text::str_eq(code, "eur") {
        Some("€")
    } else if crate::text::str_eq(code, "jpy") {
        Some("¥")
    } else if crate::text::str_eq(code, "gbp") {
        Some("£")
    } else if crate::text::str_eq(code, "krw") {
        Some("₩")
    } else {
        None
    }
}

/// A formatted amount with its currency: the glyph in front when there is one, else the
/// code in capitals after it.
pub open spec fn spec_price_text(amount: Seq<char>, vs: Seq<char>) -> Seq<char> {
    match spec_currency_symbol(vs) {
        Some(sym) => sym + amount,
        None => amount + " "@ + uppercase_of(vs),
    }
}

/// Puts the currency on a formatted amount.
pub fn price_text(amount: &str, vs_currency: &str) -> (s: String)
    ensures
        s@ == spec_price_text(amount@, vs_currency@),
{
    match currency_symbol(vs_currency) {
        Some(sym) => {
            let mut s = String::from_str(sym);
            s.append(amount);
            s
        },
        None => {
            let mut s = String::from_str(amount);
            s.append(" ");
            let code = uppercase(vs_currency);
            s.append(code.as_str());
            s
        },
    }
}

/// Digits with a comma before every group of three from the right.
pub open spec fn group_digits(d: Seq<char>) -> Seq<char>
    decreases d.len(),
{
    if d.len() <= 3 {
        d
    } else {
        group_digits(d.take(d.len() - 3)) + ","@ + d.skip(d.len() - 3)
    }
}

/// The integer part before the first `.`, and the rest after it (empty without one).
pub open spec fn split_point(s: Seq<char>) -> (Seq<char>, Seq<char>) {
    match crate::text::split_once(s, '.') {
        Some((a, b)) => (a, b),
        None => (s, Seq::empty()),
    }
}

/// `1234567.5` as `1,234,567.5`: the integer digits grouped by three, a leading `-` and
/// the fractional part kept, no `.` when the fraction is empty.
pub open spec fn spec_thousands(s: Seq<char>) -> Seq<char> {
    let (int_part, frac) = split_point(s);
    let negative = int_part.len() > 0 && int_part[0] == '-';
    let digits = if negative { int_part.drop_first() } else { int_part };
    (if negative { "-"@ } else { Seq::empty() }) + group_digits(digits) + (if frac.len() == 0 {
        Seq::empty()
    } else {
        "."@ + frac
    })
}

/// Every character is ASCII.
pub open spec fn ascii_text(s: Seq<char>) -> bool {
    forall|i: int| 0 <= i < s.len() ==> (#[trigger] s[i] as u32) < 128
}

fn grouped(d: &Vec<char>, from: usize, to: usize) -> (s: String)
    requires
        from <= to <= d@.len(),
    ensures
        s@ == group_digits(d@.subrange(from as int, to as int)),
    decreases to - from,
{
    let ghost part = d@.subrange(from as int, to as int);
    if to - from <= 3 {
        string_from_chars(&d.as_slice()[from..to])
    } else {
        let mut s = grouped(d, from, to - 3);
        s.append(",");
        let tail = string_from_chars(&d.as_slice()[to - 3..to]);
        s.append(tail.as_str());
        assert(part.take(part.len() - 3) =~= d@.subrange(from as int, to - 3));
        assert(part.skip(part.len() - 3) =~= d@.subrange(to - 3, to as int));
        s
    }
}

/// Adds thousands separators to a number printed in ASCII, such as `{:.2}` prints a
/// float.
pub fn add_thousands_separators(formatted: &str) -> (s: String)
    requires
        ascii_text(formatted@),
    ensures
        s@ == spec_thousands(formatted@),
{
    let (int_part, frac) = match crate::text::split_once_char(formatted, '.') {
        Some(p) => p,
        None => (String::from_str(formatted), String::new()),
    };
    let a = chars_of(int_part.as_str());
    let negative = a.len() > 0 && a[0] == '-';
    let start: usize = if negative { 1 } else { 0 };
    let mut s = if negative { String::from_str("-") } else { String::new() };
    let g = grouped(&a, start, a.len());
    assert(a@.subrange(start as int, a@.len() as int) =~= (if negative { a@.drop_first() } else { a@ }));
    s.append(g.as_str());
    if frac.unicode_len() > 0 {
        s.append(".");
        s.append(frac.as_str());
    }
    s
}

/// One coin of a snapshot, its numbers already rendered: `price` with its currency,
/// `change` as a signed two-decimal percentage, `arrow` the direction of the change,
/// `change_bp` its size in basis points, `volatile` whether it moved five percent or more,
/// `sparkline_cents` the 7-day hourly prices in cents.
#[derive(Debug, Clone)]
pub struct CoinRow {
    pub id: String,
    pub symbol: String,
    pub price: String,
    pub change: String,
    pub arrow: char,
    pub change_bp: u64,
    pub volatile: bool,
    pub sparkline_cents: Vec<u64>,
}

/// A volatile coin is flagged `Warn`.
pub open spec fn spec_status(r: CoinRow) -> Status {
    if r.volatile {
        Status::Warn
    } else {
        Status::Okay
    }
}

/// `▲ BTC  $42,150.32  +2.34%`.
pub open spec fn spec_line(r: CoinRow) -> Seq<char> {
    seq![r.arrow] + " "@ + r.symbol@ + "  "@ + r.price@ + "  "@ + r.change@
}

fn line_of(r: &CoinRow) -> (s: String)
    ensures
        s@ == spec_line(*r),
{
    let mut s = String::new();
    push_char(&mut s, r.arrow);
    s.append(" ");
    s.append(r.symbol.as_str());
    s.append("  ");
    s.append(r.price.as_str());
    s.append("  ");
    s.append(r.change.as_str());
    s
}

/// `$42,150.32 (+2.34%)`.
pub open spec fn spec_price_change(r: CoinRow) -> Seq<char> {
    r.price@ + " ("@ + r.change@ + ")"@
}

fn price_change_of(r: &CoinRow) -> (s: String)
    ensures
        s@ == spec_price_change(*r),
{
    let mut s = r.price.clone();
    s.append(" (");
    s.append(r.change.as_str());
    s.append(")");
    s
}

/// `- **BTC** $42,150.32 (+2.34%)`.
pub open spec fn spec_markdown_row(r: CoinRow) -> Seq<char> {
    "- **"@ + r.symbol@ + "** "@ + spec_price_change(r)
}

/// The top mover's headline, `no coins` without one.
pub open spec fn spec_text_value(rows: Seq<CoinRow>, top: Option<usize>) -> Seq<char> {
    match top {
        Some(i) => seq![rows[i as int].arrow] + " "@ + rows[i as int].symbol@ + " "@ + spec_price_change(
            rows[i as int],
        ),
        None => "no coins"@,
    }
}

/// `top` names a coin of the snapshot.
pub open spec fn top_ok(rows: Seq<CoinRow>, top: Option<usize>) -> bool {
    match top {
        Some(i) => i < rows.len(),
        None => true,
    }
}

/// The badge: the top mover's direction, symbol and change, flagged by volatility; a
/// warning `no coins` without one.
pub open spec fn spec_badge(rows: Seq<CoinRow>, top: Option<usize>) -> (Status, Seq<char>) {
    match top {
        Some(i) => (
            spec_status(rows[i as int]),
            seq![rows[i as int].arrow] + " "@ + rows[i as int].symbol@ + " "@ + rows[i as int].change@,
        ),
        None => (Status::Warn, "no coins"@),
    }
}

/// The coin page of a coin id.
pub open spec fn spec_coin_page(id: Seq<char>) -> Seq<char> {
    "https://www.coingecko.com/en/coins/"@ + id
}

/// Hour-indexed points of a price series.
pub open spec fn points_ok(values: Seq<u64>, points: Seq<(i64, i64)>) -> bool {
    points.len() == values.len() && forall|k: int|
        0 <= k < values.len() ==> #[trigger] points[k] == (k as i64, values[k] as i64)
}

/// What `body_for_shape` yields for each shape (`top` is the coin with the largest
/// absolute change, the last one among equals).
pub open spec fn coins_body_ok(rows: Seq<CoinRow>, top: Option<usize>, shape: Shape, r: Option<Body>) -> bool {
    match shape {
        Shape::Entries => r matches Some(Body::Entries(d)) && d.items@.len() == rows.len() && forall|i: int|
            0 <= i < rows.len() ==> #[trigger] d.items@[i].key == rows[i].symbol && opt_string_view(
                d.items@[i].value,
            ) == Some(spec_price_change(rows[i])) && d.items@[i].status == Some(spec_status(rows[i])),
        Shape::Text => r matches Some(Body::Text(d)) && d.value@ == spec_text_value(rows, top),
        Shape::TextBlock => r matches Some(Body::TextBlock(d)) && d.lines@.len() == rows.len()
            && forall|i: int| 0 <= i < rows.len() ==> #[trigger] d.lines@[i]@ == spec_line(rows[i]),
        Shape::MarkdownTextBlock => r matches Some(Body::MarkdownTextBlock(d)) && d.value@ == join(
            Seq::new(rows.len(), |i: int| spec_markdown_row(rows[i])),
            "\n"@,
        ),
        Shape::LinkedTextBlock => r matches Some(Body::LinkedTextBlock(d)) && d.items@.len() == rows.len()
            && forall|i: int|
            0 <= i < rows.len() ==> #[trigger] d.items@[i].text@ == spec_line(rows[i]) && opt_string_view(
                d.items@[i].url,
            ) == Some(spec_coin_page(rows[i].id@)),
        Shape::NumberSeries => r matches Some(Body::NumberSeries(d)) && d.values@ == (if rows.len() > 0 {
            rows[0].sparkline_cents@
        } else {
            Seq::<u64>::empty()
        }),
        Shape::PointSeries => r matches Some(Body::PointSeries(d)) && d.series@.len() == (if rows.len() > 5 {
            5
        } else {
            rows.len()
        }) && forall|i: int|
            0 <= i < d.series@.len() ==> #[trigger] d.series@[i].name == rows[i].symbol && points_ok(
                rows[i].sparkline_cents@,
                d.series@[i].points@,
            ),
        Shape::Bars => r matches Some(Body::Bars(d)) && d.bars@.len() == rows.len() && forall|i: int|
            0 <= i < rows.len() ==> #[trigger] d.bars@[i].label@ == seq![rows[i].arrow] + " "@ + rows[i].symbol@
                && d.bars@[i].value == rows[i].change_bp && d.bars@[i].value_label is None,
        Shape::Badge => r matches Some(Body::Badge(d)) && d.status == spec_badge(rows, top).0 && d.label@
            == spec_badge(rows, top).1,
        _ => r is None,
    }
}

fn points_of(values: &Vec<u64>) -> (points: Vec<(i64, i64)>)
    ensures
        points_ok(values@, points@),
{
    let mut points: Vec<(i64, i64)> = Vec::new();
    let mut k: usize = 0;
    while k < values.len()
        invariant
            k <= values@.len(),
            points@.len() == k,
            forall|j: int| 0 <= j < k ==> #[trigger] points@[j] == (j as i64, values@[j] as i64),
        decreases values@.len() - k,
    {
        points.push((k as i64, values[k] as i64));
        k = k + 1;
    }
    points
}

fn copy_values(values: &Vec<u64>) -> (out: Vec<u64>)
    ensures
        out@ == values@,
{
    let mut out: Vec<u64> = Vec::new();
    let mut k: usize = 0;
    while k < values.len()
        invariant
            k <= values@.len(),
            out@ == values@.take(k as int),
        decreases values@.len() - k,
    {
        out.push(values[k]);
        k = k + 1;
    }
    assert(values@.take(values@.len() as int) =~= values@);
    out
}

/// Renders the snapshot in the requested shape; `None` for shapes this fetcher does not
/// produce.
#[verifier::spinoff_prover]
pub fn body_for_shape(rows: &[CoinRow], top: Option<usize>, shape: Shape) -> (r: Option<Body>)
    requires
        top_ok(rows@, top),
    ensures
        coins_body_ok(rows@, top, shape, r),
{
    match shape {
        Shape::Entries => {
            let mut items: Vec<Entry> = Vec::new();
            let mut i: usize = 0;
            while i < rows.len()
                invariant
                    i <= rows@.len(),
                    items@.len() == i,
                    forall|j: int| 0 <= j < i ==> #[trigger] items@[j].key == rows@[j].symbol,
                    forall|j: int|
                        0 <= j < i ==> #[trigger] opt_string_view(items@[j].value) == Some(
                            spec_price_change(rows@[j]),
                        ),
                    forall|j: int| 0 <= j < i ==> #[trigger] items@[j].status == Some(spec_status(rows@[j])),
                decreases rows@.len() - i,
            {
                let status = if rows[i].volatile {
                    Status::Warn
                } else {
                    Status::Okay
                };
                let key = rows[i].symbol.clone();
                let value = price_change_of(&rows[i]);
                items.push(Entry { key, value: Some(value), status: Some(status) });
                assert(items@[i as int].key == rows@[i as int].symbol);
                assert(opt_string_view(items@[i as int].value) == Some(spec_price_change(rows@[i as int])));
                assert(items@[i as int].status == Some(spec_status(rows@[i as int])));
                i = i + 1;
            }
            Some(Body::Entries(EntriesData { items }))
        },
        Shape::Text => {
            let value = match top {
                Some(t) => {
                    let r = &rows[t];
                    let mut s = String::new();
                    push_char(&mut s, r.arrow);
                    s.append(" ");
                    s.append(r.symbol.as_str());
                    s.append(" ");
                    let pc = price_change_of(r);
                    s.append(pc.as_str());
                    s
                },
                None => String::from_str("no coins"),
            };
            Some(Body::Text(TextData { value }))
        },
        Shape::TextBlock => {
            let mut lines: Vec<String> = Vec::new();
            let mut i: usize = 0;
            while i < rows.len()
                invariant
                    i <= rows@.len(),
                    lines@.len() == i,
                    forall|j: int| 0 <= j < i ==> #[trigger] lines@[j]@ == spec_line(rows@[j]),
                decreases rows@.len() - i,
            {
                lines.push(line_of(&rows[i]));
                i = i + 1;
            }
            Some(Body::TextBlock(TextBlockData { lines }))
        },
        Shape::MarkdownTextBlock => {
            let mut parts: Vec<String> = Vec::new();
            let mut i: usize = 0;
            while i < rows.len()
                invariant
                    i <= rows@.len(),
                    parts@.len() == i,
                    forall|j: int| 0 <= j < i ==> #[trigger] parts@[j]@ == spec_markdown_row(rows@[j]),
                decreases rows@.len() - i,
            {
                let mut s = String::from_str("- **");
                s.append(rows[i].symbol.as_str());
                s.append("** ");
                let pc = price_change_of(&rows[i]);
                s.append(pc.as_str());
                parts.push(s);
                i = i + 1;
            }
            assert(views(parts@) =~= Seq::new(rows@.len(), |i: int| spec_markdown_row(rows@[i])));
            let value = join_strings(&parts, "\n");
            Some(Body::MarkdownTextBlock(MarkdownTextBlockData { value }))
        },
        Shape::LinkedTextBlock => {
            let mut items: Vec<LinkedLine> = Vec::new();
            let mut i: usize = 0;
            while i < rows.len()
                invariant
                    i <= rows@.len(),
                    items@.len() == i,
                    forall|j: int|
                        0 <= j < i ==> #[trigger] items@[j].text@ == spec_line(rows@[j]) && opt_string_view(
                            items@[j].url,
                        ) == Some(spec_coin_page(rows@[j].id@)),
                decreases rows@.len() - i,
            {
                let mut url = String::from_str("https://www.coingecko.com/en/coins/");
                url.append(rows[i].id.as_str());
                items.push(LinkedLine { text: line_of(&rows[i]), url: Some(url) });
                i = i + 1;
            }
            Some(Body::LinkedTextBlock(LinkedTextBlockData { items }))
        },
        Shape::NumberSeries => {
            let values = if rows.len() > 0 {
                copy_values(&rows[0].sparkline_cents)
            } else {
                Vec::new()
            };
            Some(Body::NumberSeries(NumberSeriesData { values }))
        },
        Shape::PointSeries => {
            let n: usize = if rows.len() > MAX_SERIES_COINS { MAX_SERIES_COINS } else { rows.len() };
            let mut series: Vec<PointSeries> = Vec::new();
            let mut i: usize = 0;
            while i < n
                invariant
                    n <= rows@.len(),
                    n == (if rows@.len() > 5 { 5 } else { rows@.len() }),
                    i <= n,
                    series@.len() == i,
                    forall|j: int|
                        0 <= j < i ==> #[trigger] series@[j].name == rows@[j].symbol && points_ok(
                            rows@[j].sparkline_cents@,
                            series@[j].points@,
                        ),
                decreases n - i,
            {
                series.push(
                    PointSeries {
                        name: rows[i].symbol.clone(),
                        points: points_of(&rows[i].sparkline_cents),
                    },
                );
                i = i + 1;
            }
            Some(Body::PointSeries(PointSeriesData { series }))
        },
        Shape::Bars => {
            let mut bars: Vec<Bar> = Vec::new();
            let mut i: usize = 0;
            while i < rows.len()
                invariant
                    i <= rows@.len(),
                    bars@.len() == i,
                    forall|j: int|
                        0 <= j < i ==> #[trigger] bars@[j].label@ == seq![rows@[j].arrow] + " "@
                            + rows@[j].symbol@ && bars@[j].value == rows@[j].change_bp
                            && bars@[j].value_label is None,
                decreases rows@.len() - i,
            {
                let mut label = String::new();
                push_char(&mut label, rows[i].arrow);
                label.append(" ");
                label.append(rows[i].symbol.as_str());
                bars.push(Bar { label, value: rows[i].change_bp, value_label: None });
                i = i + 1;
            }
            Some(Body::Bars(BarsData { bars }))
        },
        Shape::Badge => {
            let (status, label) = match top {
                Some(t) => {
                    let r = &rows[t];
                    let status = if r.volatile {
                        Status::Warn
                    } else {
                        Status::Okay
                    };
                    let mut s = String::new();
                    push_char(&mut s, r.arrow);
                    s.append(" ");
                    s.append(r.symbol.as_str());
                    s.append(" ");
                    s.append(r.change.as_str());
                    (status, s)
                },
                None => (Status::Warn, String::from_str("no coins")),
            };
            Some(Body::Badge(BadgeData { status, label }))
        },
        _ => None,
    }
}

} // verus!
