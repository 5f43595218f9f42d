//! `deal_*` fetchers: gaming deal feeds normalised into one row vocabulary.

use vstd::prelude::*;

pub mod common;
pub mod free_games;
pub mod games;
pub mod steam_daily;

verus! {

/// The fetchers of the `deal_*` family.
#[derive(Debug, Clone, Copy, PartialEq, Eq, Structural)]
pub enum DealFetcher {
    FreeGames,
    SteamDaily,
    Games,
}

/// Catalog name of a deal fetcher.
pub open spec fn spec_deal_name(f: DealFetcher) -> Seq<char> {
    match f {
        DealFetcher::FreeGames => "deal_free_games"@,
        DealFetcher::SteamDaily => "deal_steam_daily"@,
        DealFetcher::Games => "deal_games"@,
    }
}

impl DealFetcher {
    /// Catalog name.
    pub fn name(&self) -> (r: &'static str)
        ensures
            r@ == spec_deal_name(*self),
    {
        match self {
            DealFetcher::FreeGames => free_games::FreeGamesFetcher.name(),
            DealFetcher::SteamDaily => steam_daily::SteamDailyFetcher.name(),
            DealFetcher::Games => games::GamesFetcher.name(),
        }
    }
}

/// Every deal fetcher, in registration order.
pub fn fetchers() -> (v: Vec<DealFetcher>)
    ensures
        v@ == seq![DealFetcher::FreeGames, DealFetcher::SteamDaily, DealFetcher::Games],
{
    let v = vec![DealFetcher::FreeGames, DealFetcher::SteamDaily, DealFetcher::Games];
    assert(v@ =~= seq![DealFetcher::FreeGames, DealFetcher::SteamDaily, DealFetcher::Games]);
    v
}

} // verus!
