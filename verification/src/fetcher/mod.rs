//! Fetcher families and the catalog vocabulary they share.

use vstd::prelude::*;

use vstd::string::*;

use crate::digest::{short_digest, short_hex_digest};
use crate::render::{shape_name, spec_shape_name, Shape};

pub mod crypto_watchlist;
pub mod deal;
pub mod deariary;
pub mod feed;
pub mod forge_items;
pub mod git;
pub mod github;

verus! {

/// Trust class of a fetcher: `Safe` ones run from untrusted local configs.
#[derive(Debug, Clone, Copy, PartialEq, Eq, Structural)]
pub enum Safety {
    Safe,
    Network,
}

/// Why a fetch produced no payload.
#[derive(Debug, Clone, PartialEq, Eq)]
pub enum FetchError {
    Failed(String),
}

/// What a widget asks of a fetcher: the requested shape and format plus the widget's
/// identity and locale settings. Typed options travel separately, per fetcher.
#[derive(Debug, Clone)]
pub struct FetchContext {
    pub widget_id: String,
    pub format: Option<String>,
    pub file_format: Option<String>,
    pub shape: Option<Shape>,
    pub timezone: Option<String>,
    pub locale: Option<String>,
}

impl Default for FetchContext {
    fn default() -> (c: Self)
        ensures
            c.widget_id@.len() == 0,
            c.format is None,
            c.file_format is None,
            c.shape is None,
            c.timezone is None,
            c.locale is None,
    {
        FetchContext {
            widget_id: String::new(),
            format: None,
            file_format: None,
            shape: None,
            timezone: None,
            locale: None,
        }
    }
}

/// The shape's name, `default` when the widget names none.
pub open spec fn shape_key(shape: Option<Shape>) -> Seq<char> {
    match shape {
        Some(s) => spec_shape_name(s),
        None => "default"@,
    }
}

/// The configured format, empty when there is none.
pub open spec fn format_key(format: Option<String>) -> Seq<char> {
    match format {
        Some(f) => f@,
        None => Seq::empty(),
    }
}

/// `<name>-<digest of raw>`: a stable file-name-safe key.
pub open spec fn spec_keyed(name: Seq<char>, raw: Seq<char>) -> Seq<char> {
    name + "-"@ + short_digest(raw)
}

/// Appends the shape's key.
pub fn push_shape_key(s: &mut String, shape: Option<Shape>)
    ensures
        final(s)@ == old(s)@ + shape_key(shape),
{
    match shape {
        Some(x) => s.append(shape_name(x)),
        None => s.append("default"),
    }
}

/// Appends the format's key.
pub fn push_format_key(s: &mut String, format: &Option<String>)
    ensures
        final(s)@ == old(s)@ + format_key(*format),
{
    match format {
        Some(f) => s.append(f.as_str()),
        None => {
            proof {
                assert(old(s)@ + format_key(*format) =~= old(s)@);
            }
        },
    }
}

/// `<name>-<digest of raw>`.
pub fn keyed(name: &str, raw: &str) -> (k: String)
    ensures
        k@ == spec_keyed(name@, raw@),
{
    let mut k = String::from_str(name);
    k.append("-");
    let d = short_hex_digest(raw);
    k.append(d.as_str());
    k
}

/// One documented option of a fetcher.
#[derive(Debug, Clone, Copy, PartialEq, Eq)]
pub struct OptionSchema {
    pub name: &'static str,
    pub type_hint: &'static str,
    pub required: bool,
    pub default: Option<&'static str>,
    pub description: &'static str,
}

/// `v` clamped into `lo..=hi`.
pub open spec fn spec_clamp(v: int, lo: int, hi: int) -> int {
    if v < lo {
        lo
    } else if v > hi {
        hi
    } else {
        v
    }
}

/// The configured value (or `default`) clamped into `lo..=hi`.
pub open spec fn spec_limit(opt: Option<u32>, default: u32, lo: u32, hi: u32) -> int {
    spec_clamp(
        match opt {
            Some(v) => v as int,
            None => default as int,
        },
        lo as int,
        hi as int,
    )
}

/// `opt.unwrap_or(default).clamp(lo, hi)`.
pub fn limit_or(opt: Option<u32>, default: u32, lo: u32, hi: u32) -> (r: u32)
    requires
        lo <= hi,
    ensures
        r == spec_limit(opt, default, lo, hi),
{
    let v = match opt {
        Some(v) => v,
        None => default,
    };
    if v < lo {
        lo
    } else if v > hi {
        hi
    } else {
        v
    }
}

} // verus!
