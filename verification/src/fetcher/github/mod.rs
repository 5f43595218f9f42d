//! GitHub fetchers. Every request targets `api.github.com`.

pub mod client;
pub mod common;
pub mod items;
pub mod assigned_issues;
pub mod my_prs;
pub mod review_requests;
pub mod repo_prs;
pub mod repo_issues;
pub mod notifications;
pub mod good_first_issues;
pub mod recent_releases;
pub mod repo;
pub mod repo_stars;
pub mod avatar;
pub mod user;
pub mod action_status;
pub mod action_history;
pub mod languages;
pub mod contributors_monthly;
pub mod contributions;

use vstd::prelude::*;

verus! {

/// The fetchers of the `github_*` family.
#[derive(Debug, Clone, Copy, PartialEq, Eq, Structural)]
pub enum GithubFetcher {
    MyPrs,
    ReviewRequests,
    AssignedIssues,
    Notifications,
    RepoPrs,
    RepoIssues,
    RepoStars,
    RecentReleases,
    ActionStatus,
    ActionHistory,
    GoodFirstIssues,
    ContributorsMonthly,
    Contributions,
    Languages,
    Avatar,
    User,
}

/// Catalog name of a github fetcher.
pub open spec fn spec_github_name(f: GithubFetcher) -> Seq<char> {
    match f {
        GithubFetcher::MyPrs => "github_my_prs"@,
        GithubFetcher::ReviewRequests => "github_review_requests"@,
        GithubFetcher::AssignedIssues => "github_assigned_issues"@,
        GithubFetcher::Notifications => "github_notifications"@,
        GithubFetcher::RepoPrs => "github_repo_prs"@,
        GithubFetcher::RepoIssues => "github_repo_issues"@,
        GithubFetcher::RepoStars => "github_repo_stars"@,
        GithubFetcher::RecentReleases => "github_recent_releases"@,
        GithubFetcher::ActionStatus => "github_action_status"@,
        GithubFetcher::ActionHistory => "github_action_history"@,
        GithubFetcher::GoodFirstIssues => "github_good_first_issues"@,
        GithubFetcher::ContributorsMonthly => "github_contributors_monthly"@,
        GithubFetcher::Contributions => "github_contributions"@,
        GithubFetcher::Languages => "github_languages"@,
        GithubFetcher::Avatar => "github_avatar"@,
        GithubFetcher::User => "github_user"@,
    }
}

impl GithubFetcher {
    /// Catalog name.
    pub fn name(&self) -> (r: &'static str)
        ensures
            r@ == spec_github_name(*self),
    {
        match self {
            GithubFetcher::MyPrs => my_prs::GithubMyPrs.name(),
            GithubFetcher::ReviewRequests => review_requests::GithubReviewRequests.name(),
            GithubFetcher::AssignedIssues => assigned_issues::GithubAssignedIssues.name(),
            GithubFetcher::Notifications => notifications::GithubNotifications.name(),
            GithubFetcher::RepoPrs => repo_prs::GithubRepoPrs.name(),
            GithubFetcher::RepoIssues => repo_issues::GithubRepoIssues.name(),
            GithubFetcher::RepoStars => repo_stars::GithubRepoStars.name(),
            GithubFetcher::RecentReleases => recent_releases::GithubRecentReleases.name(),
            GithubFetcher::ActionStatus => action_status::GithubActionStatus.name(),
            GithubFetcher::ActionHistory => action_history::GithubActionHistory.name(),
            GithubFetcher::GoodFirstIssues => good_first_issues::GithubGoodFirstIssues.name(),
            GithubFetcher::ContributorsMonthly => contributors_monthly::GithubContributorsMonthly.name(),
            GithubFetcher::Contributions => contributions::GithubContributions.name(),
            GithubFetcher::Languages => languages::GithubLanguages.name(),
            GithubFetcher::Avatar => avatar::GithubAvatar.name(),
            GithubFetcher::User => user::GithubUser.name(),
        }
    }
}

/// The registration order of the family.
pub open spec fn spec_github_fetchers() -> Seq<GithubFetcher> {
    seq![GithubFetcher::MyPrs, GithubFetcher::ReviewRequests, GithubFetcher::AssignedIssues, GithubFetcher::Notifications, GithubFetcher::RepoPrs, GithubFetcher::RepoIssues, GithubFetcher::RepoStars, GithubFetcher::RecentReleases, GithubFetcher::ActionStatus, GithubFetcher::ActionHistory, GithubFetcher::GoodFirstIssues, GithubFetcher::ContributorsMonthly, GithubFetcher::Contributions, GithubFetcher::Languages, GithubFetcher::Avatar, GithubFetcher::User]
}

/// Every github fetcher, in registration order.
pub fn fetchers() -> (v: Vec<GithubFetcher>)
    ensures
        v@ == spec_github_fetchers(),
{
    let v = vec![GithubFetcher::MyPrs, GithubFetcher::ReviewRequests, GithubFetcher::AssignedIssues, GithubFetcher::Notifications, GithubFetcher::RepoPrs, GithubFetcher::RepoIssues, GithubFetcher::RepoStars, GithubFetcher::RecentReleases, GithubFetcher::ActionStatus, GithubFetcher::ActionHistory, GithubFetcher::GoodFirstIssues, GithubFetcher::ContributorsMonthly, GithubFetcher::Contributions, GithubFetcher::Languages, GithubFetcher::Avatar, GithubFetcher::User];
    assert(v@ =~= spec_github_fetchers());
    v
}

} // verus!
