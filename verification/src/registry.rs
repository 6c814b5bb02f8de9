//! The release registry: where its listings are, what its answers mean,
//! and the release records that they hold.

use vstd::prelude::*;
use vstd::string::*;
use crate::error::{ErrorKind, ToolError};
use crate::json::{
    json_error_text, json_is_null, json_items, json_member, json_of, json_parse, json_text, member,
    parse_json, text_or, Json,
};
use crate::text::starts_with;
use crate::types::{
    asset_views, release_views, GithubAsset, GithubAssetView, GithubRelease,
    GithubReleaseView, VersionInfo, VersionInfoView,
};
use crate::version::{check_update_available, update_offered};

verus! {

/// The registry's address, up to the name of a repository.
pub open spec fn registry_base() -> Seq<char> {
    "https://ungh.cc/repos"@
}

/// Where the registry describes the newest release of `repo`.
pub open spec fn latest_release_address(repo: Seq<char>) -> Seq<char> {
    registry_base() + "/"@ + repo + "/releases/latest"@
}

/// Where the registry lists the releases of `repo`.
pub open spec fn releases_address(repo: Seq<char>) -> Seq<char> {
    registry_base() + "/"@ + repo + "/releases"@
}

/// Where the registry describes the newest release of `repo`.
pub fn latest_release_url(repo: &str) -> (url: String)
    ensures
        url@ == latest_release_address(repo@),
{
    let mut url = String::from_str("https://ungh.cc/repos");
    url.append("/");
    url.append(repo);
    url.append("/releases/latest");
    url
}

/// Where the registry lists the releases of `repo`.
pub fn releases_url(repo: &str) -> (url: String)
    ensures
        url@ == releases_address(repo@),
{
    let mut url = String::from_str("https://ungh.cc/repos");
    url.append("/");
    url.append(repo);
    url.append("/releases");
    url
}

/// The answer to one request, once the server has sent one.
#[derive(Debug, PartialEq, Eq)]
pub struct HttpResponse {
    /// The status code.
    pub status: u16,
    /// The status as it is shown to the user, such as `404 Not Found`.
    pub status_text: String,
    /// The body as text, or why it could not be read.
    pub body: Result<String, String>,
}

/// Whether a status code stands for success.
pub open spec fn is_success(status: u16) -> bool {
    200 <= status <= 299
}

/// The requests that are made to the registry.
#[derive(Clone, Copy, Debug, PartialEq, Eq, Structural)]
pub enum RegistryRequest {
    /// For the newest release of the converter.
    LatestRelease,
    /// For the list of the converter's releases.
    ReleaseList,
    /// For the newest release of the typesetter.
    TypesetterRelease,
}

/// The start of the text of the error for a request that got no answer.
pub open spec fn unanswered_prefix(request: RegistryRequest) -> Seq<char> {
    match request {
        RegistryRequest::LatestRelease => "Failed to fetch release info: "@,
        RegistryRequest::ReleaseList => "Failed to fetch releases: "@,
        RegistryRequest::TypesetterRelease => "Failed to fetch Typst release info: "@,
    }
}

/// The start of the text of the error for an answer with a status outside
/// 200..=299.
pub open spec fn status_prefix(request: RegistryRequest) -> Seq<char> {
    match request {
        RegistryRequest::TypesetterRelease => "UNGH API request failed with status: "@,
        _ => "API request failed with status: "@,
    }
}

/// What a request to the registry yields: the body, or the error that its
/// failure stands for. A request that got no answer is a network error,
/// an answer with a status outside 200..=299 a status error, and a body
/// that could not be read a network error again.
pub open spec fn registry_body(request: RegistryRequest, reply: Result<HttpResponse, String>) -> Result<
    Seq<char>,
    (ErrorKind, Seq<char>),
> {
    match reply {
        Err(why) => Err((ErrorKind::NetworkError, unanswered_prefix(request) + why@)),
        Ok(response) => if !is_success(response.status) {
            Err((ErrorKind::HttpStatusError, status_prefix(request) + response.status_text@))
        } else {
            match response.body {
                Ok(body) => Ok(body@),
                Err(why) => Err((ErrorKind::NetworkError, "Failed to read response: "@ + why@)),
            }
        },
    }
}

/// The body of the registry's answer to `request`, or the error that the
/// answer stands for.
pub fn read_registry_reply(request: RegistryRequest, reply: &Result<HttpResponse, String>) -> (body:
    Result<String, ToolError>)
    ensures
        match body {
            Ok(text) => registry_body(request, *reply) == Ok::<Seq<char>, (ErrorKind, Seq<char>)>(
                text@,
            ),
            Err(e) => registry_body(request, *reply) == Err::<Seq<char>, (ErrorKind, Seq<char>)>(
                (e.kind, e.message@),
            ),
        },
{
    match reply {
        Err(why) => {
            let prefix = match request {
                RegistryRequest::LatestRelease => "Failed to fetch release info: ",
                RegistryRequest::ReleaseList => "Failed to fetch releases: ",
                RegistryRequest::TypesetterRelease => "Failed to fetch Typst release info: ",
            };
            Err(ToolError::with_detail(ErrorKind::NetworkError, prefix, why.as_str()))
        },
        Ok(response) => {
            if response.status < 200 || response.status > 299 {
                let prefix = match request {
                    RegistryRequest::TypesetterRelease => "UNGH API request failed with status: ",
                    _ => "API request failed with status: ",
                };
                Err(
                    ToolError::with_detail(
                        ErrorKind::HttpStatusError,
                        prefix,
                        response.status_text.as_str(),
                    ),
                )
            } else {
                match &response.body {
                    Ok(body) => Ok(body.clone()),
                    Err(why) => Err(
                        ToolError::with_detail(
                            ErrorKind::NetworkError,
                            "Failed to read response: ",
                            why.as_str(),
                        ),
                    ),
                }
            }
        },
    }
}

/// Where the converter's release files are served from.
pub open spec fn download_base() -> Seq<char> {
    "https://github.com/jgm/pandoc/releases/download/"@
}

/// The asset of release `tag` whose name ends in `suffix`.
pub open spec fn asset_for(tag: Seq<char>, suffix: Seq<char>, content_type: Seq<char>) -> GithubAssetView {
    GithubAssetView {
        name: "pandoc-"@ + tag + suffix,
        download_url: download_base() + tag + "/pandoc-"@ + tag + suffix,
        size: 0,
        content_type,
    }
}

/// The assets that release `tag` is taken to have, since the registry
/// names none: the installer and the archive for Windows, the package and
/// the archive for macOS, the archive for Linux and the sources, each of
/// unknown size.
pub open spec fn synthesized_assets(tag: Seq<char>) -> Seq<GithubAssetView> {
    seq![
        asset_for(tag, "-windows-x86_64.msi"@, "application/x-msi"@),
        asset_for(tag, "-windows-x86_64.zip"@, "application/zip"@),
        asset_for(tag, "-macOS.pkg"@, "application/x-apple-diskimage"@),
        asset_for(tag, "-macOS.zip"@, "application/zip"@),
        asset_for(tag, "-linux-amd64.tar.gz"@, "application/gzip"@),
        asset_for(tag, ".tar.gz"@, "application/gzip"@),
    ]
}

/// The names of the assets that a release is taken to have differ from
/// one another: a name stands for one asset of its release.
pub proof fn lemma_synthesized_names_differ(tag: Seq<char>, i: int, j: int)
    requires
        0 <= i < j < 6,
    ensures
        synthesized_assets(tag)[i].name != synthesized_assets(tag)[j].name,
{
    reveal_strlit("-windows-x86_64.msi");
    reveal_strlit("-windows-x86_64.zip");
    reveal_strlit("-macOS.pkg");
    reveal_strlit("-macOS.zip");
    reveal_strlit("-linux-amd64.tar.gz");
    reveal_strlit(".tar.gz");
    let assets = synthesized_assets(tag);
    let head = "pandoc-"@ + tag;
    let a = assets[i].name;
    let b = assets[j].name;
    if a == b {
        // Two names that are the same end in the same characters.
        let n = a.len() as int;
        assert(a[n - 1] == b[n - 1]);
        assert(a[n - 2] == b[n - 2]);
        assert(a[n - 5] == b[n - 5]);
        assert(a[n - 8] == b[n - 8]);
        assert(a.len() == b.len());
    }
}

fn make_asset(tag: &str, suffix: &str, content_type: &str) -> (asset: GithubAsset)
    ensures
        asset@ == asset_for(tag@, suffix@, content_type@),
{
    let mut name = String::from_str("pandoc-");
    name.append(tag);
    name.append(suffix);
    let mut download_url = String::from_str("https://github.com/jgm/pandoc/releases/download/");
    download_url.append(tag);
    download_url.append("/pandoc-");
    download_url.append(tag);
    download_url.append(suffix);
    GithubAsset { name, download_url, size: 0, content_type: String::from_str(content_type) }
}

/// The assets that release `tag` is taken to have.
pub fn generate_github_assets(tag: &str) -> (assets: Vec<GithubAsset>)
    ensures
        asset_views(assets@) == synthesized_assets(tag@),
        forall|k: int| 0 <= k < assets.len() ==> assets[k].size == 0,
{
    let mut assets: Vec<GithubAsset> = Vec::new();
    assets.push(make_asset(tag, "-windows-x86_64.msi", "application/x-msi"));
    assets.push(make_asset(tag, "-windows-x86_64.zip", "application/zip"));
    assets.push(make_asset(tag, "-macOS.pkg", "application/x-apple-diskimage"));
    assets.push(make_asset(tag, "-macOS.zip", "application/zip"));
    assets.push(make_asset(tag, "-linux-amd64.tar.gz", "application/gzip"));
    assets.push(make_asset(tag, ".tar.gz", "application/gzip"));
    assert(asset_views(assets@) =~= synthesized_assets(tag@));
    assets
}

/// The release that a record of the registry describes. A member that is
/// missing or no text counts as empty; a release without a name goes by its
/// tag.
pub open spec fn release_of(record: Json) -> GithubReleaseView {
    let tag = text_or(member(record, "tag"@), Seq::empty());
    GithubReleaseView {
        tag_name: tag,
        name: text_or(member(record, "name"@), tag),
        body: text_or(member(record, "markdown"@), Seq::empty()),
        published_at: text_or(member(record, "publishedAt"@), Seq::empty()),
        assets: synthesized_assets(tag),
    }
}

fn member_text(record: &serde_json::Value, key: &str, default: &str) -> (text: String)
    ensures
        text@ == text_or(member(json_of(*record), key@), default@),
{
    match json_text(json_member(record, key)) {
        Some(t) => String::from_str(t),
        None => String::from_str(default),
    }
}

/// The release that a record of the registry describes.
pub fn parse_ungh_release(data: &serde_json::Value) -> (release: GithubRelease)
    ensures
        release@ == release_of(json_of(*data)),
{
    let tag_name = member_text(data, "tag", "");
    let name = member_text(data, "name", tag_name.as_str());
    let body = member_text(data, "markdown", "");
    let published_at = member_text(data, "publishedAt", "");
    let assets = generate_github_assets(tag_name.as_str());
    proof {
        reveal_strlit("");
        assert(""@ =~= Seq::<char>::empty());
    }
    GithubRelease { tag_name, name, body, published_at, assets }
}

/// What the registry's description of one release holds: the release under
/// `release`, or a parse error where the text is no JSON or holds no such
/// member.
pub open spec fn latest_release_in(doc: Option<Json>) -> Option<GithubReleaseView> {
    match doc {
        Some(j) => if member(j, "release"@) is Null {
            None
        } else {
            Some(release_of(member(j, "release"@)))
        },
        None => None,
    }
}

/// The release that a parsed answer holds under `release`.
pub fn release_in_document(doc: &serde_json::Value) -> (release: Result<GithubRelease, ToolError>)
    ensures
        match release {
            Ok(r) => latest_release_in(Some(json_of(*doc))) == Some(r@),
            Err(e) => latest_release_in(Some(json_of(*doc))) is None && e.kind
                == ErrorKind::ParseError && e.message@ == "No release data found in response"@,
        },
{
    let data = json_member(doc, "release");
    if json_is_null(data) {
        Err(
            ToolError::new(
                ErrorKind::ParseError,
                String::from_str("No release data found in response"),
            ),
        )
    } else {
        Ok(parse_ungh_release(data))
    }
}

/// The newest release that the registry's answer describes.
pub fn parse_latest_release(body: &str) -> (release: Result<GithubRelease, ToolError>)
    ensures
        match release {
            Ok(r) => latest_release_in(json_parse(body@)) == Some(r@),
            Err(e) => latest_release_in(json_parse(body@)) is None && e.kind
                == ErrorKind::ParseError && (if json_parse(body@) is Some {
                e.message@ == "No release data found in response"@
            } else {
                starts_with(e.message@, "Failed to parse JSON: "@)
            }),
        },
{
    match parse_json(body) {
        Ok(doc) => release_in_document(&doc),
        Err(error) => {
            let detail = json_error_text(&error);
            Err(
                ToolError::with_detail(
                    ErrorKind::ParseError,
                    "Failed to parse JSON: ",
                    detail.as_str(),
                ),
            )
        },
    }
}

/// The releases that a list of records describes, in order.
pub open spec fn releases_of(records: Seq<Json>) -> Seq<GithubReleaseView> {
    Seq::new(records.len(), |k: int| release_of(records[k]))
}

/// What the registry's list of releases holds: the releases under
/// `releases`, or nothing where the text is no JSON or holds no such list.
pub open spec fn releases_in(doc: Option<Json>) -> Option<Seq<GithubReleaseView>> {
    match doc {
        Some(j) => match member(j, "releases"@) {
            Json::Array(records) => Some(releases_of(records)),
            _ => None,
        },
        None => None,
    }
}

/// The releases that a parsed answer holds under `releases`.
pub fn releases_in_document(doc: &serde_json::Value) -> (releases: Result<
    Vec<GithubRelease>,
    ToolError,
>)
    ensures
        match releases {
            Ok(list) => releases_in(Some(json_of(*doc))) == Some(release_views(list@)),
            Err(e) => releases_in(Some(json_of(*doc))) is None && e.kind == ErrorKind::ParseError
                && e.message@ == "No releases array found in response"@,
        },
{
    match json_items(json_member(doc, "releases")) {
        None => Err(
            ToolError::new(
                ErrorKind::ParseError,
                String::from_str("No releases array found in response"),
            ),
        ),
        Some(records) => {
            let ghost models = Seq::new(records@.len(), |k: int| json_of(records@[k]));
            let mut list: Vec<GithubRelease> = Vec::new();
            let mut i: usize = 0;
            while i < records.len()
                invariant
                    i <= records.len(),
                    list.len() == i,
                    forall|k: int| 0 <= k < i ==> list@[k]@ == release_of(json_of(records@[k])),
                decreases records.len() - i,
            {
                list.push(parse_ungh_release(&records[i]));
                i += 1;
            }
            assert(release_views(list@) =~= releases_of(models));
            Ok(list)
        },
    }
}

/// The releases that the registry's answer lists, in its order.
pub fn parse_release_list(body: &str) -> (releases: Result<Vec<GithubRelease>, ToolError>)
    ensures
        match releases {
            Ok(list) => releases_in(json_parse(body@)) == Some(release_views(list@)),
            Err(e) => releases_in(json_parse(body@)) is None && e.kind == ErrorKind::ParseError
                && (if json_parse(body@) is Some {
                e.message@ == "No releases array found in response"@
            } else {
                starts_with(e.message@, "Failed to parse JSON: "@)
            }),
        },
{
    match parse_json(body) {
        Ok(doc) => releases_in_document(&doc),
        Err(error) => {
            let detail = json_error_text(&error);
            Err(
                ToolError::with_detail(
                    ErrorKind::ParseError,
                    "Failed to parse JSON: ",
                    detail.as_str(),
                ),
            )
        },
    }
}

/// The tags of a list of releases, in order.
pub open spec fn tags_of(releases: Seq<GithubReleaseView>) -> Seq<Seq<char>> {
    Seq::new(releases.len(), |k: int| releases[k].tag_name)
}

/// How the current version stands to the newest release and to the list of
/// releases on offer.
pub open spec fn version_info_of(
    current: Option<Seq<char>>,
    latest: GithubReleaseView,
    releases: Seq<GithubReleaseView>,
) -> VersionInfoView {
    VersionInfoView {
        current,
        latest: Some(latest.tag_name),
        available_versions: tags_of(releases),
        is_update_available: update_offered(current, latest.tag_name),
    }
}

/// How the current version stands to the newest release and to the list of
/// releases on offer.
pub fn get_version_info(
    current_version: Option<String>,
    latest_release: &GithubRelease,
    releases: &Vec<GithubRelease>,
) -> (info: VersionInfo)
    ensures
        info@ == version_info_of(
            current_version.deep_view(),
            latest_release@,
            release_views(releases@),
        ),
{
    let mut available_versions: Vec<String> = Vec::new();
    let mut i: usize = 0;
    while i < releases.len()
        invariant
            i <= releases.len(),
            available_versions.len() == i,
            forall|k: int| 0 <= k < i ==> available_versions@[k]@ == releases@[k].tag_name@,
        decreases releases.len() - i,
    {
        available_versions.push(releases[i].tag_name.clone());
        i += 1;
    }
    assert(available_versions.deep_view() =~= tags_of(release_views(releases@)));
    let is_update_available = match &current_version {
        Some(c) => check_update_available(Some(c.as_str()), latest_release.tag_name.as_str()),
        None => check_update_available(None, latest_release.tag_name.as_str()),
    };
    VersionInfo {
        current: current_version,
        latest: Some(latest_release.tag_name.clone()),
        available_versions,
        is_update_available,
    }
}

} // verus!
