//! `deariary_*` — the auto-generated diary entries of deariary.com. Every fetcher of the
//! family talks to the fixed host `api.deariary.com`, so the bearer token (`options.token`
//! or the `DEARIARY_TOKEN` environment value) cannot be sent elsewhere.

pub mod client;
pub mod on_this_day;
pub mod recent;
pub mod today;

use vstd::prelude::*;

verus! {

/// The fetchers of the `deariary_*` family.
#[derive(Debug, Clone, Copy, PartialEq, Eq, Structural)]
pub enum DeariaryFetcher {
    Today,
    Recent,
    OnThisDay,
}

/// Catalog name of a deariary fetcher.
pub open spec fn spec_deariary_name(f: DeariaryFetcher) -> Seq<char> {
    match f {
        DeariaryFetcher::Today => "deariary_today"@,
        DeariaryFetcher::Recent => "deariary_recent"@,
        DeariaryFetcher::OnThisDay => "deariary_on_this_day"@,
    }
}

impl DeariaryFetcher {
    /// Catalog name.
    pub fn name(&self) -> (r: &'static str)
        ensures
            r@ == spec_deariary_name(*self),
    {
        match self {
            DeariaryFetcher::Today => today::DeariaryToday.name(),
            DeariaryFetcher::Recent => recent::DeariaryRecent.name(),
            DeariaryFetcher::OnThisDay => on_this_day::DeariaryOnThisDay.name(),
        }
    }
}

/// Every deariary fetcher, in registration order.
pub fn fetchers() -> (v: Vec<DeariaryFetcher>)
    ensures
        v@ == seq![DeariaryFetcher::Today, DeariaryFetcher::Recent, DeariaryFetcher::OnThisDay],
{
    let v = vec![DeariaryFetcher::Today, DeariaryFetcher::Recent, DeariaryFetcher::OnThisDay];
    assert(v@ =~= seq![DeariaryFetcher::Today, DeariaryFetcher::Recent, DeariaryFetcher::OnThisDay]);
    v
}

} // verus!
