//! Release descriptors as a registry publishes them, and the choice of the
//! installer among a release's assets.

use vstd::prelude::*;
use crate::text::{chars_of, contains, ends_with, is_suffix_of, lowercase_of, occurs_in, to_lowercase};

verus! {

/// One downloadable file of a release.
#[derive(Debug, Clone, PartialEq, Eq)]
pub struct GitHubAsset {
    pub name: String,
    pub browser_download_url: String,
    /// Informational only: never used to validate a download.
    pub size: u64,
}

/// One published release.
#[derive(Debug, Clone, PartialEq, Eq)]
pub struct GitHubRelease {
    pub tag_name: String,
    pub name: String,
    pub body: String,
    pub html_url: String,
    pub published_at: String,
    pub prerelease: bool,
    pub draft: bool,
    pub assets: Vec<GitHubAsset>,
}

/// What an asset holds, as plain values.
pub struct AssetView {
    pub name: Seq<char>,
    pub url: Seq<char>,
    pub size: nat,
}

impl View for GitHubAsset {
    type V = AssetView;

    open spec fn view(&self) -> AssetView {
        AssetView { name: self.name@, url: self.browser_download_url@, size: self.size as nat }
    }
}

/// The assets of a list, each by its view.
pub open spec fn asset_views(assets: Seq<GitHubAsset>) -> Seq<AssetView> {
    Seq::new(assets.len(), |i: int| assets[i]@)
}

/// A file name that looks like a Windows installer: lowercased, it ends in
/// `.exe` and holds `setup`, `installer` or `x64`.
pub open spec fn is_installer_name(name: Seq<char>) -> bool {
    let lower = lowercase_of(name);
    &&& is_suffix_of(lower, ".exe"@)
    &&& (occurs_in(lower, "setup"@) || occurs_in(lower, "installer"@) || occurs_in(lower, "x64"@))
}

/// The first asset, in list order, whose name is an installer name.
pub open spec fn selected_asset(assets: Seq<AssetView>) -> Option<AssetView>
    decreases assets.len(),
{
    if assets.len() == 0 {
        None
    } else if is_installer_name(assets[0].name) {
        Some(assets[0])
    } else {
        selected_asset(assets.drop_first())
    }
}

/// Position `i` holds an installer and no earlier position does.
pub open spec fn is_first_installer(assets: Seq<AssetView>, i: int) -> bool {
    &&& 0 <= i < assets.len()
    &&& is_installer_name(assets[i].name)
    &&& forall|j: int| 0 <= j < i ==> !is_installer_name(#[trigger] assets[j].name)
}

/// The selection is the first match in list order: it is the asset at the
/// one position that holds an installer with none before it, and there is
/// no selection exactly when no asset is an installer.
pub proof fn lemma_selected_is_first(assets: Seq<AssetView>)
    ensures
        match selected_asset(assets) {
            Some(a) => exists|i: int| is_first_installer(assets, i) && assets[i] == a,
            None => forall|i: int|
                0 <= i < assets.len() ==> !is_installer_name(#[trigger] assets[i].name),
        },
    decreases assets.len(),
{
    if assets.len() == 0 {
    } else if is_installer_name(assets[0].name) {
        assert(is_first_installer(assets, 0));
    } else {
        let rest = assets.drop_first();
        lemma_selected_is_first(rest);
        match selected_asset(rest) {
            Some(a) => {
                let i = choose|i: int| is_first_installer(rest, i) && rest[i] == a;
                assert forall|j: int| 0 <= j < i + 1 implies !is_installer_name(
                    #[trigger] assets[j].name,
                ) by {
                    if j > 0 {
                        assert(rest[j - 1] == assets[j]);
                    }
                }
                assert(rest[i] == assets[i + 1]);
                assert(is_first_installer(assets, i + 1));
            },
            None => {
                assert forall|i: int| 0 <= i < assets.len() implies !is_installer_name(
                    #[trigger] assets[i].name,
                ) by {
                    if i > 0 {
                        assert(rest[i - 1] == assets[i]);
                    }
                }
            },
        }
    }
}

/// Whether a file name looks like a Windows installer.
pub fn looks_like_installer(name: &str) -> (found: bool)
    ensures
        found == is_installer_name(name@),
{
    let lower_text = to_lowercase(name);
    let lower = chars_of(lower_text.as_str());
    let extension = chars_of(".exe");
    if !ends_with(&lower, &extension) {
        return false;
    }
    let setup = chars_of("setup");
    let installer = chars_of("installer");
    let x64 = chars_of("x64");
    contains(&lower, &setup) || contains(&lower, &installer) || contains(&lower, &x64)
}

/// The position of the first asset whose name is an installer name.
pub fn installer_index(assets: &[GitHubAsset]) -> (found: Option<usize>)
    ensures
        match found {
            Some(i) => is_first_installer(asset_views(assets@), i as int) && selected_asset(
                asset_views(assets@),
            ) == Some(assets@[i as int]@),
            None => selected_asset(asset_views(assets@)) is None,
        },
{
    let ghost views = asset_views(assets@);
    let mut i: usize = 0;
    assert(views.skip(0) =~= views);
    while i < assets.len()
        invariant
            i <= assets.len(),
            views == asset_views(assets@),
            selected_asset(views) == selected_asset(views.skip(i as int)),
            forall|j: int| 0 <= j < i ==> !is_installer_name(#[trigger] views[j].name),
        decreases assets.len() - i,
    {
        assert(views.skip(i as int)[0] == views[i as int]);
        assert(views.skip(i as int).drop_first() =~= views.skip(i + 1));
        if looks_like_installer(assets[i].name.as_str()) {
            return Some(i);
        }
        i += 1;
    }
    None
}

/// The download address of the first asset, in list order, whose name is
/// an installer name; `None` when the release holds no such asset.
pub fn find_windows_installer(assets: &[GitHubAsset]) -> (url: Option<String>)
    ensures
        match selected_asset(asset_views(assets@)) {
            Some(a) => url matches Some(u) && u@ == a.url,
            None => url is None,
        },
{
    match installer_index(assets) {
        Some(i) => Some(assets[i].browser_download_url.clone()),
        None => None,
    }
}

} // verus!
