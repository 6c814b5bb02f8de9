//! Downloads: which asset of a release fits a platform, under which
//! addresses it is tried, and how a run of attempts ends.

use vstd::prelude::*;
use vstd::string::*;
use crate::error::{ErrorKind, ToolError, ToolErrorView};
use crate::platform::{
    converter_patterns, get_pandoc_asset_patterns, get_pandoc_asset_patterns_for_platform,
    get_typst_asset_pattern, packaged_patterns, typesetter_pattern,
};
use crate::text::{chars_of, contains, includes, join, join_texts, same_text};
use crate::types::{asset_views, release_views, GithubAsset, GithubAssetView, GithubRelease, GithubReleaseView};

verus! {

/// The tools that can be downloaded.
#[derive(Clone, Copy, Debug, PartialEq, Eq, Structural)]
pub enum DownloadType {
    Pandoc,
    Typst,
}

/// The name of a tool, which is also the name of its program.
pub open spec fn tool_name_of(tool: DownloadType) -> Seq<char> {
    match tool {
        DownloadType::Pandoc => "pandoc"@,
        DownloadType::Typst => "typst"@,
    }
}

/// The repository that a tool's releases come from.
pub open spec fn repository_of(tool: DownloadType) -> Seq<char> {
    match tool {
        DownloadType::Pandoc => "jgm/pandoc"@,
        DownloadType::Typst => "typst/typst"@,
    }
}

impl DownloadType {
    /// The name of the tool, which is also the name of its program.
    pub fn tool_name(&self) -> (name: &'static str)
        ensures
            name@ == tool_name_of(*self),
    {
        match self {
            DownloadType::Pandoc => "pandoc",
            DownloadType::Typst => "typst",
        }
    }

    /// The repository that the tool's releases come from.
    pub fn repository(&self) -> (repo: &'static str)
        ensures
            repo@ == repository_of(*self),
    {
        match self {
            DownloadType::Pandoc => "jgm/pandoc",
            DownloadType::Typst => "typst/typst",
        }
    }
}

/// For which platform a download is made, and whether mirrors are tried.
#[derive(Clone, Debug, PartialEq, Eq)]
pub struct DownloadConfig {
    pub target_os: String,
    pub target_arch: String,
    pub use_mirrors: bool,
}

impl DownloadConfig {
    /// The configuration for a platform, with mirrors in use.
    pub fn for_platform(target_os: &str, target_arch: &str) -> (config: DownloadConfig)
        ensures
            config.target_os@ == target_os@,
            config.target_arch@ == target_arch@,
            config.use_mirrors,
    {
        DownloadConfig {
            target_os: String::from_str(target_os),
            target_arch: String::from_str(target_arch),
            use_mirrors: true,
        }
    }
}

/// The address under which a mirror serves `original_url`: the mirror's
/// prefix followed by the origin address. The empty prefix stands for the
/// origin itself.
pub open spec fn mirror_url(mirror: Seq<char>, original_url: Seq<char>) -> Seq<char> {
    mirror + original_url
}

/// The address under which `mirror` serves `original_url`.
pub fn construct_mirror_url(mirror: &str, original_url: &str) -> (url: String)
    ensures
        url@ == mirror_url(mirror@, original_url@),
{
    let mut url = String::from_str(mirror);
    url.append(original_url);
    url
}

/// The mirrors' prefixes in the order of preference. The last one is empty:
/// the origin is tried when every mirror has failed.
pub open spec fn mirror_list() -> Seq<Seq<char>> {
    seq!["https://hub.gitmirror.com/"@, "https://gh.ddlc.top/"@, ""@]
}

/// The last of the mirrors' prefixes is the empty one.
pub proof fn lemma_last_mirror_is_origin()
    ensures
        mirror_list().len() > 0,
        mirror_list().last() == Seq::<char>::empty(),
{
    reveal_strlit("");
    assert(""@ =~= Seq::<char>::empty());
}

/// The mirrors' prefixes in the order of preference.
pub fn download_mirrors() -> (mirrors: Vec<String>)
    ensures
        mirrors.deep_view() == mirror_list(),
{
    let mut mirrors: Vec<String> = Vec::new();
    mirrors.push(String::from_str("https://hub.gitmirror.com/"));
    mirrors.push(String::from_str("https://gh.ddlc.top/"));
    mirrors.push(String::from_str(""));
    assert(mirrors.deep_view() =~= mirror_list());
    mirrors
}

/// The addresses under which `original_url` is tried, in order: one per
/// mirror where mirrors are in use, else the origin alone.
pub open spec fn attempt_urls(original_url: Seq<char>, use_mirrors: bool) -> Seq<Seq<char>> {
    if use_mirrors {
        Seq::new(mirror_list().len(), |k: int| mirror_url(mirror_list()[k], original_url))
    } else {
        seq![original_url]
    }
}

/// With mirrors in use, the last address tried is the origin's own.
pub proof fn lemma_origin_is_tried_last(original_url: Seq<char>)
    ensures
        attempt_urls(original_url, true).len() == 3,
        attempt_urls(original_url, true).last() == original_url,
{
    reveal_strlit("");
    assert(""@ + original_url =~= original_url);
}

/// The addresses under which `original_url` is tried, in order.
pub fn candidate_urls(original_url: &str, use_mirrors: bool) -> (urls: Vec<String>)
    ensures
        urls.deep_view() == attempt_urls(original_url@, use_mirrors),
{
    let mut urls: Vec<String> = Vec::new();
    if use_mirrors {
        let mirrors = download_mirrors();
        let mut i: usize = 0;
        while i < mirrors.len()
            invariant
                i <= mirrors.len(),
                mirrors.deep_view() == mirror_list(),
                urls.len() == i,
                forall|k: int| 0 <= k < i ==> urls@[k]@ == mirror_url(mirror_list()[k], original_url@),
            decreases mirrors.len() - i,
        {
            assert(mirrors.deep_view()[i as int] == mirrors@[i as int]@);
            urls.push(construct_mirror_url(mirrors[i].as_str(), original_url));
            i += 1;
        }
        assert(mirrors.deep_view().len() == mirrors.len());
        assert(urls.deep_view() =~= attempt_urls(original_url@, true));
    } else {
        urls.push(String::from_str(original_url));
        assert(urls.deep_view() =~= attempt_urls(original_url@, false));
    }
    urls
}

/// The index of the first asset from `i` on whose name holds `pattern`.
pub open spec fn first_asset_with(assets: Seq<GithubAssetView>, pattern: Seq<char>, i: int) -> Option<
    int,
>
    decreases assets.len() - i,
{
    if i < 0 || i >= assets.len() {
        None
    } else if contains(assets[i].name, pattern) {
        Some(i)
    } else {
        first_asset_with(assets, pattern, i + 1)
    }
}

/// The index of the asset that the patterns from `p` on choose: the first
/// asset that fits the first pattern that any asset fits.
pub open spec fn chosen_asset(assets: Seq<GithubAssetView>, patterns: Seq<Seq<char>>, p: int) -> Option<
    int,
>
    decreases patterns.len() - p,
{
    if p < 0 || p >= patterns.len() {
        None
    } else {
        match first_asset_with(assets, patterns[p], 0) {
            Some(k) => Some(k),
            None => chosen_asset(assets, patterns, p + 1),
        }
    }
}

/// The first asset with a pattern holds it, and no asset before it does.
pub proof fn lemma_first_asset_with(assets: Seq<GithubAssetView>, pattern: Seq<char>, i: int)
    requires
        0 <= i,
    ensures
        match first_asset_with(assets, pattern, i) {
            Some(k) => i <= k < assets.len() && contains(assets[k].name, pattern) && forall|j: int|
                i <= j < k ==> !contains(assets[j].name, pattern),
            None => forall|j: int| i <= j < assets.len() ==> !contains(assets[j].name, pattern),
        },
    decreases assets.len() - i,
{
    if i < assets.len() && !contains(assets[i].name, pattern) {
        lemma_first_asset_with(assets, pattern, i + 1);
    }
}

/// The asset that a pattern list chooses is one of the assets, and its
/// name holds one of the patterns.
pub proof fn lemma_chosen_asset_fits(assets: Seq<GithubAssetView>, patterns: Seq<Seq<char>>, p: int)
    requires
        0 <= p,
    ensures
        chosen_asset(assets, patterns, p) matches Some(k) ==> 0 <= k < assets.len() && exists|q: int|
            p <= q < patterns.len() && contains(assets[k].name, #[trigger] patterns[q]),
    decreases patterns.len() - p,
{
    if p < patterns.len() {
        lemma_first_asset_with(assets, patterns[p], 0);
        match first_asset_with(assets, patterns[p], 0) {
            Some(k) => {
                assert(contains(assets[k].name, patterns[p]));
            },
            None => {
                lemma_chosen_asset_fits(assets, patterns, p + 1);
            },
        }
    }
}

fn find_asset(assets: &Vec<GithubAsset>, pattern: &str) -> (found: Option<usize>)
    ensures
        match found {
            Some(k) => first_asset_with(asset_views(assets@), pattern@, 0) == Some(k as int),
            None => first_asset_with(asset_views(assets@), pattern@, 0) is None,
        },
{
    let pat = chars_of(pattern);
    let mut i: usize = 0;
    while i < assets.len()
        invariant
            i <= assets.len(),
            pat@ == pattern@,
            first_asset_with(asset_views(assets@), pattern@, i as int) == first_asset_with(
                asset_views(assets@),
                pattern@,
                0,
            ),
        decreases assets.len() - i,
    {
        let name = chars_of(assets[i].name.as_str());
        assert(asset_views(assets@)[i as int].name == name@);
        if includes(&name, &pat) {
            return Some(i);
        }
        i += 1;
    }
    None
}

/// The asset that the patterns choose, by its index: the patterns are
/// tried in order, and the first one that the name of any asset holds
/// decides, for the first such asset.
pub fn select_asset(assets: &Vec<GithubAsset>, patterns: &Vec<String>) -> (chosen: Option<usize>)
    ensures
        match chosen {
            Some(k) => k < assets.len() && chosen_asset(
                asset_views(assets@),
                patterns.deep_view(),
                0,
            ) == Some(k as int),
            None => chosen_asset(asset_views(assets@), patterns.deep_view(), 0) is None,
        },
        chosen matches Some(k) ==> exists|q: int|
            0 <= q < patterns.len() && contains(
                asset_views(assets@)[k as int].name,
                #[trigger] patterns.deep_view()[q],
            ),
{
    proof {
        lemma_chosen_asset_fits(asset_views(assets@), patterns.deep_view(), 0);
    }
    let mut p: usize = 0;
    while p < patterns.len()
        invariant
            p <= patterns.len(),
            chosen_asset(asset_views(assets@), patterns.deep_view(), p as int) == chosen_asset(
                asset_views(assets@),
                patterns.deep_view(),
                0,
            ),
        decreases patterns.len() - p,
    {
        assert(patterns.deep_view()[p as int] == patterns@[p as int]@);
        proof {
            lemma_first_asset_with(asset_views(assets@), patterns@[p as int]@, 0);
        }
        match find_asset(assets, patterns[p].as_str()) {
            Some(k) => {
                return Some(k);
            },
            None => {},
        }
        p += 1;
    }
    None
}

/// The index of the first release from `i` on whose tag is `tag`.
pub open spec fn first_release_tagged(releases: Seq<GithubReleaseView>, tag: Seq<char>, i: int) -> Option<
    int,
>
    decreases releases.len() - i,
{
    if i < 0 || i >= releases.len() {
        None
    } else if releases[i].tag_name == tag {
        Some(i)
    } else {
        first_release_tagged(releases, tag, i + 1)
    }
}

/// The first release whose tag is `version`, by its index.
pub fn find_release(releases: &Vec<GithubRelease>, version: &str) -> (found: Option<usize>)
    ensures
        match found {
            Some(k) => k < releases.len() && first_release_tagged(
                release_views(releases@),
                version@,
                0,
            ) == Some(k as int),
            None => first_release_tagged(release_views(releases@), version@, 0) is None,
        },
{
    let mut i: usize = 0;
    while i < releases.len()
        invariant
            i <= releases.len(),
            first_release_tagged(release_views(releases@), version@, i as int)
                == first_release_tagged(release_views(releases@), version@, 0),
        decreases releases.len() - i,
    {
        assert(release_views(releases@)[i as int].tag_name == releases@[i as int].tag_name@);
        if same_text(releases[i].tag_name.as_str(), version) {
            return Some(i);
        }
        i += 1;
    }
    None
}

/// The names of a list of assets, in order.
pub open spec fn asset_names(assets: Seq<GithubAssetView>) -> Seq<Seq<char>> {
    Seq::new(assets.len(), |k: int| assets[k].name)
}

/// The patterns as a list in brackets, each in double quotes.
pub open spec fn quoted_list(patterns: Seq<Seq<char>>) -> Seq<char> {
    "["@ + join(Seq::new(patterns.len(), |k: int| "\""@ + patterns[k] + "\""@), ", "@) + "]"@
}

/// The text of the error for a release of the converter without an asset
/// for the platform: the platform, the assets there are, and the patterns
/// that none of them fits.
pub open spec fn no_converter_asset_message(
    os: Seq<char>,
    arch: Seq<char>,
    assets: Seq<GithubAssetView>,
    patterns: Seq<Seq<char>>,
) -> Seq<char> {
    "No compatible asset found for "@ + os + "-"@ + arch + ".\nAvailable assets: "@ + join(
        asset_names(assets),
        ", "@,
    ) + "\nLooked for patterns: "@ + quoted_list(patterns)
}

/// The text of the error for a release of the typesetter without an asset
/// for the platform.
pub open spec fn no_typesetter_asset_message(
    os: Seq<char>,
    arch: Seq<char>,
    assets: Seq<GithubAssetView>,
    pattern: Seq<char>,
) -> Seq<char> {
    "No compatible Typst asset found for "@ + os + "-"@ + arch + ".\nAvailable assets: "@ + join(
        asset_names(assets),
        ", "@,
    ) + "\nLooked for pattern: "@ + pattern
}

fn names_of(assets: &Vec<GithubAsset>) -> (names: Vec<String>)
    ensures
        names.deep_view() == asset_names(asset_views(assets@)),
{
    let mut names: Vec<String> = Vec::new();
    let mut i: usize = 0;
    while i < assets.len()
        invariant
            i <= assets.len(),
            names.len() == i,
            forall|k: int| 0 <= k < i ==> names@[k]@ == assets@[k].name@,
        decreases assets.len() - i,
    {
        names.push(assets[i].name.clone());
        i += 1;
    }
    assert(names.deep_view() =~= asset_names(asset_views(assets@)));
    names
}

fn quote_list(patterns: &Vec<String>) -> (out: String)
    ensures
        out@ == quoted_list(patterns.deep_view()),
{
    let mut quoted: Vec<String> = Vec::new();
    let mut i: usize = 0;
    while i < patterns.len()
        invariant
            i <= patterns.len(),
            quoted.len() == i,
            forall|k: int| 0 <= k < i ==> quoted@[k]@ == "\""@ + patterns@[k]@ + "\""@,
        decreases patterns.len() - i,
    {
        let mut q = String::from_str("\"");
        q.append(patterns[i].as_str());
        q.append("\"");
        quoted.push(q);
        i += 1;
    }
    assert(quoted.deep_view() =~= Seq::new(
        patterns.deep_view().len(),
        |k: int| "\""@ + patterns.deep_view()[k] + "\""@,
    ));
    let mut out = String::from_str("[");
    out.append(join_texts(&quoted, ", ").as_str());
    out.append("]");
    out
}

/// What is to be downloaded, and under which addresses it is tried.
#[derive(Clone, Debug, PartialEq, Eq)]
pub struct DownloadPlan {
    /// The asset. The file is stored under its name.
    pub asset: GithubAsset,
    /// The addresses to try, in order.
    pub urls: Vec<String>,
    /// Whether the addresses are mirrors of one another, whose failures
    /// are passed over one by one.
    pub use_mirrors: bool,
}

/// Whether `plan` downloads `asset` as `use_mirrors` says.
pub open spec fn plan_is_for(plan: DownloadPlan, asset: GithubAssetView, use_mirrors: bool) -> bool {
    &&& plan.asset@ == asset
    &&& plan.urls.deep_view() == attempt_urls(asset.download_url, use_mirrors)
    &&& plan.use_mirrors == use_mirrors
}

fn plan_for(asset: &GithubAsset, use_mirrors: bool) -> (plan: DownloadPlan)
    ensures
        plan_is_for(plan, asset@, use_mirrors),
{
    DownloadPlan {
        asset: asset.duplicate(),
        urls: candidate_urls(asset.download_url.as_str(), use_mirrors),
        use_mirrors,
    }
}

/// The download of version `version` of the converter for the platform of
/// `config`: the asset of the release of that tag which the platform's
/// patterns choose. A version that is not among the releases gives the
/// error `NotFound`, and a release without a fitting asset the error
/// `UnsupportedPlatform`.
pub fn download_pandoc_internal(
    version: &str,
    releases: &Vec<GithubRelease>,
    config: &DownloadConfig,
) -> (planned: Result<DownloadPlan, ToolError>)
    ensures
        match first_release_tagged(release_views(releases@), version@, 0) {
            None => planned matches Err(e) && e.kind == ErrorKind::NotFound && e.message@
                == "Version "@ + version@ + " not found"@,
            Some(r) => {
                let assets = release_views(releases@)[r].assets;
                let patterns = converter_patterns(config.target_os@, config.target_arch@);
                match chosen_asset(assets, patterns, 0) {
                    Some(k) => planned matches Ok(plan) && plan_is_for(
                        plan,
                        assets[k],
                        config.use_mirrors,
                    ),
                    None => planned matches Err(e) && e.kind == ErrorKind::UnsupportedPlatform
                        && e.message@ == no_converter_asset_message(
                        config.target_os@,
                        config.target_arch@,
                        assets,
                        patterns,
                    ),
                }
            },
        },
{
    match find_release(releases, version) {
        None => {
            let mut message = String::from_str("Version ");
            message.append(version);
            message.append(" not found");
            Err(ToolError::new(ErrorKind::NotFound, message))
        },
        Some(r) => {
            let release = &releases[r];
            assert(release_views(releases@)[r as int].assets == asset_views(release.assets@));
            let patterns = get_pandoc_asset_patterns_for_platform(
                config.target_os.as_str(),
                config.target_arch.as_str(),
            );
            match select_asset(&release.assets, &patterns) {
                Some(k) => {
                    assert(asset_views(release.assets@)[k as int] == release.assets@[k as int]@);
                    Ok(plan_for(&release.assets[k], config.use_mirrors))
                },
                None => {
                    let mut message = String::from_str("No compatible asset found for ");
                    message.append(config.target_os.as_str());
                    message.append("-");
                    message.append(config.target_arch.as_str());
                    message.append(".\nAvailable assets: ");
                    message.append(join_texts(&names_of(&release.assets), ", ").as_str());
                    message.append("\nLooked for patterns: ");
                    message.append(quote_list(&patterns).as_str());
                    Err(ToolError::new(ErrorKind::UnsupportedPlatform, message))
                },
            }
        },
    }
}

/// The text of the error for a release of the converter without a
/// packaged asset for the operating system.
pub open spec fn no_packaged_asset_message(
    assets: Seq<GithubAssetView>,
    patterns: Seq<Seq<char>>,
) -> Seq<char> {
    "No compatible asset found for current platform.\nAvailable assets: "@ + join(
        asset_names(assets),
        ", "@,
    ) + "\nLooked for patterns: "@ + quoted_list(patterns)
}

/// The download of version `version` of the converter for the operating
/// system `os`, by the endings of its packaged assets: the portable
/// archive before the installer. Mirrors are always in use. A version that
/// is not among the releases gives the error `NotFound`, and a release
/// without a fitting asset the error `UnsupportedPlatform`.
pub fn download_pandoc(version: &str, releases: &Vec<GithubRelease>, os: &str) -> (planned: Result<
    DownloadPlan,
    ToolError,
>)
    ensures
        match first_release_tagged(release_views(releases@), version@, 0) {
            None => planned matches Err(e) && e.kind == ErrorKind::NotFound && e.message@
                == "Version "@ + version@ + " not found"@,
            Some(r) => {
                let assets = release_views(releases@)[r].assets;
                match chosen_asset(assets, packaged_patterns(os@), 0) {
                    Some(k) => planned matches Ok(plan) && plan_is_for(plan, assets[k], true),
                    None => planned matches Err(e) && e.kind == ErrorKind::UnsupportedPlatform
                        && e.message@ == no_packaged_asset_message(assets, packaged_patterns(os@)),
                }
            },
        },
{
    match find_release(releases, version) {
        None => {
            let mut message = String::from_str("Version ");
            message.append(version);
            message.append(" not found");
            Err(ToolError::new(ErrorKind::NotFound, message))
        },
        Some(r) => {
            let release = &releases[r];
            assert(release_views(releases@)[r as int].assets == asset_views(release.assets@));
            let patterns = get_pandoc_asset_patterns(os);
            match select_asset(&release.assets, &patterns) {
                Some(k) => {
                    assert(asset_views(release.assets@)[k as int] == release.assets@[k as int]@);
                    Ok(plan_for(&release.assets[k], true))
                },
                None => {
                    let mut message = String::from_str(
                        "No compatible asset found for current platform.\nAvailable assets: ",
                    );
                    message.append(join_texts(&names_of(&release.assets), ", ").as_str());
                    message.append("\nLooked for patterns: ");
                    message.append(quote_list(&patterns).as_str());
                    Err(ToolError::new(ErrorKind::UnsupportedPlatform, message))
                },
            }
        },
    }
}

/// The download of the typesetter's release `release` for the platform of
/// `config`: its first asset whose name holds the platform's pattern. A
/// release without one gives the error `UnsupportedPlatform`.
pub fn download_typst_internal(release: &GithubRelease, config: &DownloadConfig) -> (planned: Result<
    DownloadPlan,
    ToolError,
>)
    ensures
        ({
            let pattern = typesetter_pattern(config.target_os@, config.target_arch@);
            match first_asset_with(release@.assets, pattern, 0) {
                Some(k) => planned matches Ok(plan) && plan_is_for(
                    plan,
                    release@.assets[k],
                    config.use_mirrors,
                ),
                None => planned matches Err(e) && e.kind == ErrorKind::UnsupportedPlatform
                    && e.message@ == no_typesetter_asset_message(
                    config.target_os@,
                    config.target_arch@,
                    release@.assets,
                    pattern,
                ),
            }
        }),
{
    let pattern = get_typst_asset_pattern(config.target_os.as_str(), config.target_arch.as_str());
    match find_asset(&release.assets, pattern.as_str()) {
        Some(k) => {
            proof {
                lemma_first_asset_with(asset_views(release.assets@), pattern@, 0);
            }
            assert(asset_views(release.assets@)[k as int] == release.assets@[k as int]@);
            Ok(plan_for(&release.assets[k], config.use_mirrors))
        },
        None => {
            let mut message = String::from_str("No compatible Typst asset found for ");
            message.append(config.target_os.as_str());
            message.append("-");
            message.append(config.target_arch.as_str());
            message.append(".\nAvailable assets: ");
            message.append(join_texts(&names_of(&release.assets), ", ").as_str());
            message.append("\nLooked for pattern: ");
            message.append(pattern.as_str());
            Err(ToolError::new(ErrorKind::UnsupportedPlatform, message))
        },
    }
}

/// The stages of one transfer at which it can fail.
#[derive(Clone, Copy, Debug, PartialEq, Eq, Structural)]
pub enum TransferStage {
    /// Sending the request.
    Request,
    /// Creating the directory that is to hold the file.
    CreateDirectory,
    /// Creating the file.
    CreateFile,
    /// Receiving the body.
    ReadBody,
    /// Writing the body to the file.
    WriteFile,
    /// Flushing the file.
    FlushFile,
}

/// The kind of error that a failure at `stage` is: what goes wrong between
/// here and the server is a network error, what goes wrong on disk an I/O
/// error.
pub open spec fn stage_error_kind(stage: TransferStage) -> ErrorKind {
    match stage {
        TransferStage::Request | TransferStage::ReadBody => ErrorKind::NetworkError,
        _ => ErrorKind::IoError,
    }
}

/// The start of the text of the error for a failure at `stage`.
pub open spec fn stage_error_prefix(stage: TransferStage) -> Seq<char> {
    match stage {
        TransferStage::Request => "Failed to start download: "@,
        TransferStage::CreateDirectory => "Failed to create directory: "@,
        TransferStage::CreateFile => "Failed to create file: "@,
        TransferStage::ReadBody => "Failed to read response bytes: "@,
        TransferStage::WriteFile => "Failed to write file: "@,
        TransferStage::FlushFile => "Failed to flush file: "@,
    }
}

/// The error for a transfer that failed at `stage` for the reason `why`.
pub fn transfer_error(stage: TransferStage, why: &str) -> (e: ToolError)
    ensures
        e.kind == stage_error_kind(stage),
        e.message@ == stage_error_prefix(stage) + why@,
{
    match stage {
        TransferStage::Request => ToolError::with_detail(
            ErrorKind::NetworkError,
            "Failed to start download: ",
            why,
        ),
        TransferStage::CreateDirectory => ToolError::with_detail(
            ErrorKind::IoError,
            "Failed to create directory: ",
            why,
        ),
        TransferStage::CreateFile => ToolError::with_detail(
            ErrorKind::IoError,
            "Failed to create file: ",
            why,
        ),
        TransferStage::ReadBody => ToolError::with_detail(
            ErrorKind::NetworkError,
            "Failed to read response bytes: ",
            why,
        ),
        TransferStage::WriteFile => ToolError::with_detail(
            ErrorKind::IoError,
            "Failed to write file: ",
            why,
        ),
        TransferStage::FlushFile => ToolError::with_detail(
            ErrorKind::IoError,
            "Failed to flush file: ",
            why,
        ),
    }
}

/// Whether a download may go on after the server's answer: only a status
/// in 200..=299 is taken; any other ends the attempt in a status error.
pub fn check_download_status(status: u16, status_text: &str) -> (checked: Result<(), ToolError>)
    ensures
        match checked {
            Ok(_) => 200 <= status <= 299,
            Err(e) => !(200 <= status <= 299) && e.kind == ErrorKind::HttpStatusError && e.message@
                == "Download failed with status: "@ + status_text@,
        },
{
    if 200 <= status && status <= 299 {
        Ok(())
    } else {
        Err(
            ToolError::with_detail(
                ErrorKind::HttpStatusError,
                "Download failed with status: ",
                status_text,
            ),
        )
    }
}

/// How one attempt ended: the path of the file that was written, or the
/// error.
pub type AttemptView = Result<Seq<char>, ToolErrorView>;

/// The value of an attempt's outcome.
pub open spec fn attempt_view(outcome: Result<String, ToolError>) -> AttemptView {
    match outcome {
        Ok(path) => Ok(path@),
        Err(e) => Err(e@),
    }
}

/// The values of a list of outcomes.
pub open spec fn attempt_views(outcomes: Seq<Result<String, ToolError>>) -> Seq<AttemptView> {
    Seq::new(outcomes.len(), |k: int| attempt_view(outcomes[k]))
}

/// What is to be done next in a download.
#[derive(Debug, PartialEq, Eq)]
pub enum DownloadStep {
    /// Fetch `url`, and report how that went.
    Try { url: String },
    /// The file is there, at `path`. Nothing more is fetched.
    Done { path: String },
    /// The download has failed for good.
    Failed { error: ToolError },
}

/// The value of a step.
pub enum DownloadStepView {
    Try { url: Seq<char> },
    Done { path: Seq<char> },
    Failed { error: ToolErrorView },
}

impl View for DownloadStep {
    type V = DownloadStepView;

    open spec fn view(&self) -> DownloadStepView {
        match self {
            DownloadStep::Try { url } => DownloadStepView::Try { url: url@ },
            DownloadStep::Done { path } => DownloadStepView::Done { path: path@ },
            DownloadStep::Failed { error } => DownloadStepView::Failed { error: error@ },
        }
    }
}

/// The error after the last mirror has failed.
pub open spec fn all_mirrors_failed() -> ToolErrorView {
    ToolErrorView { kind: ErrorKind::NetworkError, message: "All download mirrors failed"@ }
}

/// The step that asks for the address at index `next`, or the failure of
/// the whole download where no address is left.
pub open spec fn step_at(urls: Seq<Seq<char>>, next: int) -> DownloadStepView {
    if 0 <= next < urls.len() {
        DownloadStepView::Try { url: urls[next] }
    } else {
        DownloadStepView::Failed { error: all_mirrors_failed() }
    }
}

/// The step that follows an attempt at the address at index `tried`. A
/// success ends the download. A failure moves on to the next address where
/// mirrors are in use, and is the failure of the download where they are
/// not.
pub open spec fn step_after(
    urls: Seq<Seq<char>>,
    use_mirrors: bool,
    tried: int,
    outcome: AttemptView,
) -> DownloadStepView {
    match outcome {
        Ok(path) => DownloadStepView::Done { path },
        Err(error) => if use_mirrors {
            step_at(urls, tried + 1)
        } else {
            DownloadStepView::Failed { error }
        },
    }
}

/// A download in progress: the addresses, and how many of them have been
/// asked for.
#[derive(Debug, PartialEq, Eq)]
pub struct MirrorDownload {
    pub urls: Vec<String>,
    pub use_mirrors: bool,
    /// The number of addresses that have been handed out.
    pub asked: usize,
    /// Whether the download has ended.
    pub ended: bool,
}

impl MirrorDownload {
    /// Whether no more addresses have been handed out than there are.
    pub open spec fn well_formed(&self) -> bool {
        self.asked <= self.urls.len()
    }

    /// Whether an attempt is under way, whose outcome is awaited.
    pub open spec fn awaiting(&self) -> bool {
        !self.ended && 0 < self.asked <= self.urls.len()
    }

    /// The download of `plan`, and its first step: the first address.
    pub fn start(plan: &DownloadPlan) -> (begun: (MirrorDownload, DownloadStep))
        ensures
            begun.0.well_formed(),
            begun.0.urls.deep_view() == plan.urls.deep_view(),
            begun.0.use_mirrors == plan.use_mirrors,
            begun.1@ == step_at(plan.urls.deep_view(), 0),
            begun.0.asked == (if plan.urls.len() > 0 {
                1int
            } else {
                0int
            }),
            begun.0.ended == (plan.urls.len() == 0),
    {
        let urls = crate::types::copy_texts(&plan.urls);
        if urls.len() > 0 {
            assert(urls.deep_view()[0] == urls@[0]@);
            let url = urls[0].clone();
            (
                MirrorDownload { urls, use_mirrors: plan.use_mirrors, asked: 1, ended: false },
                DownloadStep::Try { url },
            )
        } else {
            (
                MirrorDownload { urls, use_mirrors: plan.use_mirrors, asked: 0, ended: true },
                DownloadStep::Failed {
                    error: ToolError::new(
                        ErrorKind::NetworkError,
                        String::from_str("All download mirrors failed"),
                    ),
                },
            )
        }
    }

    /// The step that follows the outcome of the attempt under way.
    pub fn advance(&mut self, outcome: Result<String, ToolError>) -> (step: DownloadStep)
        requires
            old(self).awaiting(),
        ensures
            final(self).well_formed(),
            final(self).urls == old(self).urls,
            final(self).use_mirrors == old(self).use_mirrors,
            step@ == step_after(
                old(self).urls.deep_view(),
                old(self).use_mirrors,
                old(self).asked - 1,
                attempt_view(outcome),
            ),
            final(self).ended == !(step is Try),
            final(self).asked == old(self).asked + (if step is Try {
                1int
            } else {
                0int
            }),
    {
        match outcome {
            Ok(path) => {
                self.ended = true;
                DownloadStep::Done { path }
            },
            Err(error) => {
                if !self.use_mirrors {
                    self.ended = true;
                    DownloadStep::Failed { error }
                } else if self.asked < self.urls.len() {
                    assert(self.urls.deep_view()[self.asked as int] == self.urls@[self.asked as int]@);
                    let url = self.urls[self.asked].clone();
                    self.asked = self.asked + 1;
                    DownloadStep::Try { url }
                } else {
                    self.ended = true;
                    DownloadStep::Failed {
                        error: ToolError::new(
                            ErrorKind::NetworkError,
                            String::from_str("All download mirrors failed"),
                        ),
                    }
                }
            },
        }
    }
}

/// How a download ends when the attempts from index `tried` on go as
/// `outcomes` say, one outcome to an address: the last step, and the
/// number of addresses that were fetched. A run that needs more outcomes
/// than there are does not end.
pub open spec fn run_from(
    urls: Seq<Seq<char>>,
    use_mirrors: bool,
    outcomes: Seq<AttemptView>,
    tried: int,
) -> Option<(DownloadStepView, int)>
    decreases urls.len() - tried,
{
    if tried < 0 || tried >= urls.len() {
        Some((DownloadStepView::Failed { error: all_mirrors_failed() }, tried))
    } else if tried >= outcomes.len() {
        None
    } else {
        match step_after(urls, use_mirrors, tried, outcomes[tried]) {
            DownloadStepView::Try { .. } => run_from(urls, use_mirrors, outcomes, tried + 1),
            last => Some((last, tried + 1)),
        }
    }
}

fn copy_outcome(outcome: &Result<String, ToolError>) -> (out: Result<String, ToolError>)
    ensures
        attempt_view(out) == attempt_view(*outcome),
{
    match outcome {
        Ok(path) => Ok(path.clone()),
        Err(error) => Err(error.duplicate()),
    }
}

/// How the download of `plan` ends when its attempts go as `outcomes` say:
/// the last step and the number of addresses that were fetched, or nothing
/// where the outcomes run out before the download has ended.
pub fn settle(plan: &DownloadPlan, outcomes: &Vec<Result<String, ToolError>>) -> (end: Option<
    (DownloadStep, usize),
>)
    ensures
        match end {
            Some((last, fetched)) => run_from(
                plan.urls.deep_view(),
                plan.use_mirrors,
                attempt_views(outcomes@),
                0,
            ) == Some((last@, fetched as int)),
            None => run_from(plan.urls.deep_view(), plan.use_mirrors, attempt_views(outcomes@), 0)
                is None,
        },
{
    let ghost urls = plan.urls.deep_view();
    let ghost views = attempt_views(outcomes@);
    let (mut state, mut step) = MirrorDownload::start(plan);
    let mut taken: usize = 0;
    loop
        invariant
            state.well_formed(),
            state.urls.deep_view() == urls,
            state.use_mirrors == plan.use_mirrors,
            urls == plan.urls.deep_view(),
            views == attempt_views(outcomes@),
            taken <= outcomes.len(),
            step is Try ==> state.awaiting() && state.asked == taken + 1 && step@ == step_at(
                urls,
                taken as int,
            ),
            step is Try ==> run_from(urls, plan.use_mirrors, views, taken as int) == run_from(
                urls,
                plan.use_mirrors,
                views,
                0,
            ),
            !(step is Try) ==> run_from(urls, plan.use_mirrors, views, 0) == Some(
                (step@, taken as int),
            ),
        decreases outcomes.len() - taken + (if step is Try { 1int } else { 0int }),
    {
        match step {
            DownloadStep::Try { .. } => {
                if taken >= outcomes.len() {
                    return None;
                }
                let outcome = copy_outcome(&outcomes[taken]);
                assert(attempt_view(outcome) == views[taken as int]);
                step = state.advance(outcome);
                taken = taken + 1;
            },
            last => {
                return Some((last, taken));
            },
        }
    }
}

/// Where every attempt before the one at index `k` fails and that one
/// succeeds, the download ends there, with the file that this attempt
/// wrote, after `k + 1` fetches: no address after the first success is
/// fetched.
pub proof fn lemma_first_success_wins(
    urls: Seq<Seq<char>>,
    outcomes: Seq<AttemptView>,
    k: int,
    from: int,
)
    requires
        0 <= from <= k < urls.len(),
        k < outcomes.len(),
        forall|j: int| from <= j < k ==> (#[trigger] outcomes[j]) is Err,
        outcomes[k] is Ok,
    ensures
        run_from(urls, true, outcomes, from) == Some(
            (DownloadStepView::Done { path: outcomes[k]->Ok_0 }, k + 1),
        ),
    decreases k - from,
{
    if from < k {
        assert(outcomes[from] is Err);
        lemma_first_success_wins(urls, outcomes, k, from + 1);
    }
}

/// Where every address fails, the download fails as a whole, after each
/// address was fetched once.
pub proof fn lemma_all_mirrors_fail(urls: Seq<Seq<char>>, outcomes: Seq<AttemptView>, from: int)
    requires
        0 <= from <= urls.len() <= outcomes.len(),
        forall|j: int| from <= j < urls.len() ==> (#[trigger] outcomes[j]) is Err,
    ensures
        run_from(urls, true, outcomes, from) == Some(
            (DownloadStepView::Failed { error: all_mirrors_failed() }, urls.len() as int),
        ),
    decreases urls.len() - from,
{
    if from < urls.len() {
        assert(outcomes[from] is Err);
        lemma_all_mirrors_fail(urls, outcomes, from + 1);
    }
}

} // verus!
