//! The records that the library hands out, each with the mathematical value
//! that the contracts speak of.

use vstd::prelude::*;
use vstd::string::*;

verus! {

/// A copy of `list`, item by item.
pub fn copy_texts(list: &Vec<String>) -> (out: Vec<String>)
    ensures
        out.deep_view() == list.deep_view(),
{
    let mut out: Vec<String> = Vec::new();
    let mut i: usize = 0;
    while i < list.len()
        invariant
            i <= list.len(),
            out.len() == i,
            forall|k: int| 0 <= k < i ==> out@[k]@ == list@[k]@,
        decreases list.len() - i,
    {
        out.push(list[i].clone());
        i += 1;
    }
    assert(out.deep_view() =~= list.deep_view());
    out
}

/// What probing an executable of the converter has shown.
#[derive(Clone, Debug, PartialEq, Eq)]
pub struct PandocInfo {
    pub version: String,
    pub path: String,
    pub is_working: bool,
    pub supported_input_formats: Vec<String>,
    pub supported_output_formats: Vec<String>,
    pub detected_paths: Vec<String>,
    pub search_paths: Vec<String>,
}

/// The value of the information on an executable.
pub struct PandocInfoView {
    pub version: Seq<char>,
    pub path: Seq<char>,
    pub is_working: bool,
    pub supported_input_formats: Seq<Seq<char>>,
    pub supported_output_formats: Seq<Seq<char>>,
    pub detected_paths: Seq<Seq<char>>,
    pub search_paths: Seq<Seq<char>>,
}

impl View for PandocInfo {
    type V = PandocInfoView;

    open spec fn view(&self) -> PandocInfoView {
        PandocInfoView {
            version: self.version@,
            path: self.path@,
            is_working: self.is_working,
            supported_input_formats: self.supported_input_formats.deep_view(),
            supported_output_formats: self.supported_output_formats.deep_view(),
            detected_paths: self.detected_paths.deep_view(),
            search_paths: self.search_paths.deep_view(),
        }
    }
}

impl PandocInfo {
    /// A copy of the information.
    pub fn duplicate(&self) -> (out: PandocInfo)
        ensures
            out@ == self@,
    {
        PandocInfo {
            version: self.version.clone(),
            path: self.path.clone(),
            is_working: self.is_working,
            supported_input_formats: copy_texts(&self.supported_input_formats),
            supported_output_formats: copy_texts(&self.supported_output_formats),
            detected_paths: copy_texts(&self.detected_paths),
            search_paths: copy_texts(&self.search_paths),
        }
    }
}

/// The user's settings for the converter.
#[derive(Clone, Debug, PartialEq, Eq)]
pub struct PandocConfig {
    pub custom_path: Option<String>,
    pub use_custom_path: bool,
    pub last_detected_version: String,
}

impl Default for PandocConfig {
    fn default() -> (config: PandocConfig)
        ensures
            config.custom_path is None,
            !config.use_custom_path,
            config.last_detected_version@ == Seq::<char>::empty(),
    {
        PandocConfig { custom_path: None, use_custom_path: false, last_detected_version: String::new() }
    }
}

/// One downloadable file of a release. A `size` of 0 stands for a size that
/// is not known.
#[derive(Clone, Debug, PartialEq, Eq)]
pub struct GithubAsset {
    pub name: String,
    pub download_url: String,
    pub size: u64,
    pub content_type: String,
}

/// The value of an asset.
pub struct GithubAssetView {
    pub name: Seq<char>,
    pub download_url: Seq<char>,
    pub size: u64,
    pub content_type: Seq<char>,
}

impl View for GithubAsset {
    type V = GithubAssetView;

    open spec fn view(&self) -> GithubAssetView {
        GithubAssetView {
            name: self.name@,
            download_url: self.download_url@,
            size: self.size,
            content_type: self.content_type@,
        }
    }
}

impl GithubAsset {
    /// A copy of the asset.
    pub fn duplicate(&self) -> (out: GithubAsset)
        ensures
            out@ == self@,
    {
        GithubAsset {
            name: self.name.clone(),
            download_url: self.download_url.clone(),
            size: self.size,
            content_type: self.content_type.clone(),
        }
    }
}

/// The values of a list of assets.
pub open spec fn asset_views(assets: Seq<GithubAsset>) -> Seq<GithubAssetView> {
    Seq::new(assets.len(), |k: int| assets[k]@)
}

/// One release of an upstream repository.
#[derive(Clone, Debug, PartialEq, Eq)]
pub struct GithubRelease {
    pub tag_name: String,
    pub name: String,
    pub body: String,
    pub published_at: String,
    pub assets: Vec<GithubAsset>,
}

/// The value of a release.
pub struct GithubReleaseView {
    pub tag_name: Seq<char>,
    pub name: Seq<char>,
    pub body: Seq<char>,
    pub published_at: Seq<char>,
    pub assets: Seq<GithubAssetView>,
}

impl View for GithubRelease {
    type V = GithubReleaseView;

    open spec fn view(&self) -> GithubReleaseView {
        GithubReleaseView {
            tag_name: self.tag_name@,
            name: self.name@,
            body: self.body@,
            published_at: self.published_at@,
            assets: asset_views(self.assets@),
        }
    }
}

/// The values of a list of releases.
pub open spec fn release_views(releases: Seq<GithubRelease>) -> Seq<GithubReleaseView> {
    Seq::new(releases.len(), |k: int| releases[k]@)
}

/// How the installed version stands to the versions on offer.
#[derive(Clone, Debug, PartialEq, Eq)]
pub struct VersionInfo {
    pub current: Option<String>,
    pub latest: Option<String>,
    pub available_versions: Vec<String>,
    pub is_update_available: bool,
}

/// The value of a version comparison.
pub struct VersionInfoView {
    pub current: Option<Seq<char>>,
    pub latest: Option<Seq<char>>,
    pub available_versions: Seq<Seq<char>>,
    pub is_update_available: bool,
}

impl View for VersionInfo {
    type V = VersionInfoView;

    open spec fn view(&self) -> VersionInfoView {
        VersionInfoView {
            current: self.current.deep_view(),
            latest: self.latest.deep_view(),
            available_versions: self.available_versions.deep_view(),
            is_update_available: self.is_update_available,
        }
    }
}

} // verus!
