//! Releases as the GitHub API describes them, and where they are fetched
//! from. Fetching and parsing are done by the caller.

use vstd::prelude::*;

verus! {

/// A release as the GitHub API describes it.
#[derive(Default, Debug, Clone, PartialEq)]
pub struct GithubRelease {
    pub url: Option<String>,
    pub assets_url: Option<String>,
    pub upload_url: Option<String>,
    pub html_url: Option<String>,
    pub id: Option<i64>,
    pub author: Author,
    pub node_id: Option<String>,
    pub tag_name: Option<String>,
    pub target_commitish: Option<String>,
    pub name: Option<String>,
    pub draft: Option<bool>,
    pub prerelease: Option<bool>,
    pub created_at: Option<String>,
    pub published_at: Option<String>,
    pub assets: Vec<Asset>,
    pub tarball_url: Option<String>,
    pub zipball_url: Option<String>,
    pub body: Option<String>,
}

/// The author of a GitHub release.
#[derive(Default, Debug, Clone, PartialEq)]
pub struct Author {
    pub login: Option<String>,
    pub id: Option<i64>,
    pub node_id: Option<String>,
    pub avatar_url: Option<String>,
    pub gravatar_id: Option<String>,
    pub url: Option<String>,
    pub html_url: Option<String>,
    pub followers_url: Option<String>,
    pub following_url: Option<String>,
    pub gists_url: Option<String>,
    pub starred_url: Option<String>,
    pub subscriptions_url: Option<String>,
    pub organizations_url: Option<String>,
    pub repos_url: Option<String>,
    pub events_url: Option<String>,
    pub received_events_url: Option<String>,
    pub type_field: Option<String>,
    pub user_view_type: Option<String>,
    pub site_admin: Option<bool>,
}

/// A file attached to a GitHub release.
#[derive(Default, Debug, Clone, PartialEq)]
pub struct Asset {
    pub url: Option<String>,
    pub id: Option<i64>,
    pub node_id: Option<String>,
    pub name: Option<String>,
    pub label: Option<String>,
    pub uploader: Uploader,
    pub content_type: Option<String>,
    pub state: Option<String>,
    pub size: Option<i64>,
    pub download_count: Option<i64>,
    pub created_at: Option<String>,
    pub updated_at: Option<String>,
    pub browser_download_url: String,
}

/// The uploader of a GitHub release asset.
#[derive(Default, Debug, Clone, PartialEq)]
pub struct Uploader {
    pub login: Option<String>,
    pub id: Option<i64>,
    pub node_id: Option<String>,
    pub avatar_url: Option<String>,
    pub gravatar_id: Option<String>,
    pub url: Option<String>,
    pub html_url: Option<String>,
    pub followers_url: Option<String>,
    pub following_url: Option<String>,
    pub gists_url: Option<String>,
    pub starred_url: Option<String>,
    pub subscriptions_url: Option<String>,
    pub organizations_url: Option<String>,
    pub repos_url: Option<String>,
    pub events_url: Option<String>,
    pub received_events_url: Option<String>,
    pub type_field: Option<String>,
    pub user_view_type: Option<String>,
    pub site_admin: Option<bool>,
}

/// The API URL of the latest release of a GitHub repository, none for an
/// empty name.
pub fn github_release_url(repository: &str) -> (r: Option<String>)
    ensures
        repository@.len() == 0 ==> r is None,
        repository@.len() > 0 ==> (r matches Some(u)
            && u@ == "https://api.github.com/repos/"@ + repository@ + "/releases/latest"@),
{
    if repository.unicode_len() == 0 {
        None
    } else {
        let mut u = String::from_str("https://api.github.com/repos/");
        u.append(repository);
        u.append("/releases/latest");
        Some(u)
    }
}

impl GithubRelease {
    /// Where the first asset of the release is downloaded from. A release
    /// without assets is not accepted.
    pub fn first_asset_url(&self) -> (r: &str)
        requires
            self.assets@.len() > 0,
        ensures
            r@ == self.assets@[0].browser_download_url@,
    {
        self.assets[0].browser_download_url.as_str()
    }
}

} // verus!
