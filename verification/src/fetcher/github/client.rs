//! Fixed endpoints of the GitHub REST API.

use vstd::prelude::*;

verus! {

/// The REST API base URL.
pub fn api_base() -> (r: &'static str)
    ensures
        r@ == "https://api.github.com"@,
{
    "https://api.github.com"
}

/// Prefix of every repository resource URL returned by the API.
pub fn api_repos_prefix() -> (r: &'static str)
    ensures
        r@ == "https://api.github.com/repos/"@,
{
    "https://api.github.com/repos/"
}

} // verus!
