//! The update check: from the running version and what the registry
//! answered to the result shown to the user. A check never fails: whatever
//! went wrong is part of the result.

use vstd::prelude::*;
use vstd::string::StringExecFns;
use crate::fetch::{fetch_error_text, FetchError, FetchErrorView};
use crate::release::{asset_views, installer_index, selected_asset, GitHubRelease};
use crate::text::{trim_leading, without_leading};
use crate::version::{compare_versions, is_newer, parse_version};

verus! {

/// The outcome of one update check.
#[derive(Debug, Clone, PartialEq, Eq)]
pub struct UpdateInfo {
    /// Whether the latest release is strictly newer than the running version.
    pub available: bool,
    pub current_version: String,
    /// The latest version, or `Unknown` when it could not be resolved.
    pub latest_version: String,
    /// The address of the installer asset, if the release holds one.
    pub download_url: Option<String>,
    pub release_notes: Option<String>,
    /// Why the check failed, if it did.
    pub error: Option<String>,
    /// The size of the asset that `download_url` belongs to.
    pub asset_size: Option<u64>,
}

/// The outcome of a check, its texts as characters.
pub struct UpdateInfoView {
    pub available: bool,
    pub current_version: Seq<char>,
    pub latest_version: Seq<char>,
    pub download_url: Option<Seq<char>>,
    pub release_notes: Option<Seq<char>>,
    pub error: Option<Seq<char>>,
    pub asset_size: Option<nat>,
}

/// The text of an optional string.
pub open spec fn optional_text(text: Option<String>) -> Option<Seq<char>> {
    match text {
        Some(t) => Some(t@),
        None => None,
    }
}

impl View for UpdateInfo {
    type V = UpdateInfoView;

    open spec fn view(&self) -> UpdateInfoView {
        UpdateInfoView {
            available: self.available,
            current_version: self.current_version@,
            latest_version: self.latest_version@,
            download_url: optional_text(self.download_url),
            release_notes: optional_text(self.release_notes),
            error: optional_text(self.error),
            asset_size: match self.asset_size {
                Some(n) => Some(n as nat),
                None => None,
            },
        }
    }
}

/// The version that a release tag names: the tag without its leading `v`s.
pub open spec fn tag_version(tag: Seq<char>) -> Seq<char> {
    without_leading(tag, 'v')
}

/// The result of a check that resolved `release`. The address and the size
/// come from the same asset: the one selected as the installer.
pub open spec fn info_for_release(current: Seq<char>, release: GitHubRelease) -> UpdateInfoView {
    let latest = tag_version(release.tag_name@);
    let selected = selected_asset(asset_views(release.assets@));
    UpdateInfoView {
        available: is_newer(parse_version(current), parse_version(latest)),
        current_version: current,
        latest_version: latest,
        download_url: match selected {
            Some(asset) => Some(asset.url),
            None => None,
        },
        release_notes: Some(release.body@),
        error: None,
        asset_size: match selected {
            Some(asset) => Some(asset.size),
            None => None,
        },
    }
}

/// The result of a check that could not resolve a release.
pub open spec fn info_for_failure(current: Seq<char>, error: FetchErrorView) -> UpdateInfoView {
    UpdateInfoView {
        available: false,
        current_version: current,
        latest_version: "Unknown"@,
        download_url: None,
        release_notes: None,
        error: Some("Failed to check for updates: "@ + fetch_error_text(error)),
        asset_size: None,
    }
}

/// The result of a check, whatever the resolver came back with.
pub open spec fn check_outcome(current: Seq<char>, fetched: Result<GitHubRelease, FetchError>)
    -> UpdateInfoView {
    match fetched {
        Ok(release) => info_for_release(current, release),
        Err(error) => info_for_failure(current, error@),
    }
}

/// A check reports an update only where the latest version is strictly
/// newer, and never together with an error; an error is reported exactly
/// when the resolver failed, and then nothing but the error is known.
pub proof fn lemma_check_outcome_consistent(
    current: Seq<char>,
    fetched: Result<GitHubRelease, FetchError>,
)
    ensures
        ({
            let info = check_outcome(current, fetched);
            &&& info.error is Some <==> fetched is Err
            &&& info.available ==> info.error is None
            &&& info.available ==> is_newer(parse_version(current), parse_version(info.latest_version))
            &&& info.error is Some ==> !info.available && info.download_url is None
                && info.asset_size is None && info.release_notes is None
            &&& info.asset_size is Some <==> info.download_url is Some
            &&& info.current_version == current
        }),
{
}

/// Builds the result of an update check from the running version and the
/// resolver's answer.
pub fn check(current_version: &str, fetched: Result<GitHubRelease, FetchError>) -> (info:
    UpdateInfo)
    ensures
        info@ == check_outcome(current_version@, fetched),
        info.error is Some <==> fetched is Err,
{
    match fetched {
        Ok(release) => {
            let latest_version = trim_leading(release.tag_name.as_str(), 'v');
            let available = compare_versions(current_version, latest_version.as_str());
            let (download_url, asset_size) = match installer_index(release.assets.as_slice()) {
                Some(i) => {
                    let asset = &release.assets[i];
                    (Some(asset.browser_download_url.clone()), Some(asset.size))
                },
                None => (None, None),
            };
            UpdateInfo {
                available,
                current_version: current_version.to_owned(),
                latest_version,
                download_url,
                release_notes: Some(release.body),
                error: None,
                asset_size,
            }
        },
        Err(error) => {
            let mut message = "Failed to check for updates: ".to_owned();
            let reason = error.message();
            message.append(reason.as_str());
            UpdateInfo {
                available: false,
                current_version: current_version.to_owned(),
                latest_version: "Unknown".to_owned(),
                download_url: None,
                release_notes: None,
                error: Some(message),
                asset_size: None,
            }
        },
    }
}

} // verus!
