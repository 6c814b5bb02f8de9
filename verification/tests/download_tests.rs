use tool_provision::download::{
    candidate_urls, check_download_status, construct_mirror_url, download_mirrors,
    download_pandoc, download_pandoc_internal, download_typst_internal, find_release, select_asset, settle,
    transfer_error, DownloadConfig, DownloadPlan, DownloadStep, DownloadType, MirrorDownload,
    TransferStage,
};
use tool_provision::error::{ErrorKind, ToolError};
use tool_provision::registry::generate_github_assets;
use tool_provision::types::{GithubAsset, GithubRelease};

fn release(tag: &str) -> GithubRelease {
    GithubRelease {
        tag_name: tag.to_string(),
        name: tag.to_string(),
        body: String::new(),
        published_at: String::new(),
        assets: generate_github_assets(tag),
    }
}

fn asset(name: &str) -> GithubAsset {
    GithubAsset {
        name: name.to_string(),
        download_url: format!("https://example.org/{}", name),
        size: 0,
        content_type: String::new(),
    }
}

fn config(os: &str, arch: &str, use_mirrors: bool) -> DownloadConfig {
    DownloadConfig { target_os: os.to_string(), target_arch: arch.to_string(), use_mirrors }
}

fn failure(text: &str) -> Result<String, ToolError> {
    Err(ToolError { kind: ErrorKind::NetworkError, message: text.to_string() })
}

#[test]
fn download_types_are_two() {
    assert_ne!(DownloadType::Pandoc, DownloadType::Typst);
}

#[test]
fn config_for_a_platform_uses_mirrors() {
    let c = DownloadConfig::for_platform("linux", "x86_64");
    assert_eq!(c, config("linux", "x86_64", true));
}

#[test]
fn mirror_address_is_prefix_then_origin() {
    assert_eq!(
        construct_mirror_url("https://gh.ddlc.top/", "https://github.com/a/b"),
        "https://gh.ddlc.top/https://github.com/a/b"
    );
    assert_eq!(construct_mirror_url("", "https://github.com/a/b"), "https://github.com/a/b");
}

#[test]
fn mirrors_end_with_the_origin() {
    let mirrors = download_mirrors();
    assert_eq!(mirrors, vec!["https://hub.gitmirror.com/", "https://gh.ddlc.top/", ""]);
    assert_eq!(mirrors.last().unwrap(), "");
}

#[test]
fn candidate_addresses() {
    assert_eq!(
        candidate_urls("https://github.com/x", true),
        vec![
            "https://hub.gitmirror.com/https://github.com/x",
            "https://gh.ddlc.top/https://github.com/x",
            "https://github.com/x",
        ]
    );
    assert_eq!(candidate_urls("https://github.com/x", false), vec!["https://github.com/x"]);
}

#[test]
fn first_pattern_that_fits_decides() {
    let assets = vec![asset("a-macOS.pkg"), asset("a-macOS.zip"), asset("a-linux.tar.gz")];
    let patterns = vec!["macOS.zip".to_string(), "macOS.pkg".to_string()];
    assert_eq!(select_asset(&assets, &patterns), Some(1));
    let patterns = vec!["windows".to_string(), "macOS".to_string()];
    assert_eq!(select_asset(&assets, &patterns), Some(0));
    let patterns = vec!["windows".to_string()];
    assert_eq!(select_asset(&assets, &patterns), None);
    assert_eq!(select_asset(&assets, &Vec::new()), None);
    assert_eq!(select_asset(&Vec::new(), &vec!["macOS".to_string()]), None);
    assert_eq!(select_asset(&assets, &vec![String::new()]), Some(0));
}

#[test]
fn release_is_found_by_its_tag() {
    let releases = vec![release("3.7"), release("3.6"), release("3.7")];
    assert_eq!(find_release(&releases, "3.7"), Some(0));
    assert_eq!(find_release(&releases, "3.6"), Some(1));
    assert_eq!(find_release(&releases, "v3.6"), None);
    assert_eq!(find_release(&Vec::new(), "3.6"), None);
}

#[test]
fn converter_download_for_linux() {
    let releases = vec![release("3.7.0.2"), release("3.6")];
    let plan = download_pandoc_internal("3.6", &releases, &config("linux", "x86_64", true)).unwrap();
    assert_eq!(plan.asset.name, "pandoc-3.6-linux-amd64.tar.gz");
    assert_eq!(
        plan.urls,
        vec![
            "https://hub.gitmirror.com/https://github.com/jgm/pandoc/releases/download/3.6/pandoc-3.6-linux-amd64.tar.gz",
            "https://gh.ddlc.top/https://github.com/jgm/pandoc/releases/download/3.6/pandoc-3.6-linux-amd64.tar.gz",
            "https://github.com/jgm/pandoc/releases/download/3.6/pandoc-3.6-linux-amd64.tar.gz",
        ]
    );
    assert!(plan.use_mirrors);
}

#[test]
fn converter_download_for_windows_takes_the_first_fitting_asset() {
    let releases = vec![release("3.7")];
    let plan = download_pandoc_internal("3.7", &releases, &config("windows", "x86_64", false)).unwrap();
    assert_eq!(plan.asset.name, "pandoc-3.7-windows-x86_64.msi");
    assert_eq!(
        plan.urls,
        vec!["https://github.com/jgm/pandoc/releases/download/3.7/pandoc-3.7-windows-x86_64.msi"]
    );
    assert!(!plan.use_mirrors);
}

#[test]
fn unknown_version_is_not_found() {
    let e = download_pandoc_internal("9.9", &vec![release("3.7")], &config("linux", "x86_64", true))
        .unwrap_err();
    assert_eq!(e.kind, ErrorKind::NotFound);
    assert_eq!(e.message, "Version 9.9 not found");
}

#[test]
fn release_without_a_fitting_asset_is_an_unsupported_platform() {
    let e = download_pandoc_internal("3.7", &vec![release("3.7")], &config("linux", "aarch64", true))
        .unwrap_err();
    assert_eq!(e.kind, ErrorKind::UnsupportedPlatform);
    assert_eq!(
        e.message,
        "No compatible asset found for linux-aarch64.\nAvailable assets: \
         pandoc-3.7-windows-x86_64.msi, pandoc-3.7-windows-x86_64.zip, pandoc-3.7-macOS.pkg, \
         pandoc-3.7-macOS.zip, pandoc-3.7-linux-amd64.tar.gz, pandoc-3.7.tar.gz\n\
         Looked for patterns: [\"linux-arm64\"]"
    );
}

#[test]
fn typesetter_download() {
    let mut r = release("v0.13.1");
    r.assets = vec![asset("typst-x86_64-apple-darwin.tar.xz"), asset("typst-x86_64-unknown-linux-musl.tar.xz")];
    let plan = download_typst_internal(&r, &config("linux", "x86_64", false)).unwrap();
    assert_eq!(plan.asset.name, "typst-x86_64-unknown-linux-musl.tar.xz");
    assert_eq!(plan.urls, vec!["https://example.org/typst-x86_64-unknown-linux-musl.tar.xz"]);

    let e = download_typst_internal(&r, &config("windows", "x86_64", true)).unwrap_err();
    assert_eq!(e.kind, ErrorKind::UnsupportedPlatform);
    assert_eq!(
        e.message,
        "No compatible Typst asset found for windows-x86_64.\nAvailable assets: \
         typst-x86_64-apple-darwin.tar.xz, typst-x86_64-unknown-linux-musl.tar.xz\n\
         Looked for pattern: x86_64-pc-windows-msvc"
    );
}

#[test]
fn transfer_errors_by_stage() {
    for (stage, kind, text) in [
        (TransferStage::Request, ErrorKind::NetworkError, "Failed to start download: why"),
        (TransferStage::CreateDirectory, ErrorKind::IoError, "Failed to create directory: why"),
        (TransferStage::CreateFile, ErrorKind::IoError, "Failed to create file: why"),
        (TransferStage::ReadBody, ErrorKind::NetworkError, "Failed to read response bytes: why"),
        (TransferStage::WriteFile, ErrorKind::IoError, "Failed to write file: why"),
        (TransferStage::FlushFile, ErrorKind::IoError, "Failed to flush file: why"),
    ] {
        let e = transfer_error(stage, "why");
        assert_eq!(e.kind, kind);
        assert_eq!(e.message, text);
    }
}

#[test]
fn download_status_check() {
    assert_eq!(check_download_status(200, "200 OK"), Ok(()));
    assert_eq!(check_download_status(299, "299"), Ok(()));
    for status in [0u16, 199, 300, 302, 404, 503] {
        let e = check_download_status(status, "503 Service Unavailable").unwrap_err();
        assert_eq!(e.kind, ErrorKind::HttpStatusError);
        assert_eq!(e.message, "Download failed with status: 503 Service Unavailable");
    }
}

fn plan_for(url: &str, use_mirrors: bool) -> DownloadPlan {
    DownloadPlan { asset: asset("file.zip"), urls: candidate_urls(url, use_mirrors), use_mirrors }
}

#[test]
fn origin_succeeds_after_two_mirrors_failed() {
    let plan = plan_for("https://github.com/x/file.zip", true);
    let (mut state, step) = MirrorDownload::start(&plan);
    assert_eq!(step, DownloadStep::Try { url: "https://hub.gitmirror.com/https://github.com/x/file.zip".to_string() });
    let step = state.advance(failure("connection refused"));
    assert_eq!(step, DownloadStep::Try { url: "https://gh.ddlc.top/https://github.com/x/file.zip".to_string() });
    let step = state.advance(failure("connection reset"));
    assert_eq!(step, DownloadStep::Try { url: "https://github.com/x/file.zip".to_string() });
    let step = state.advance(Ok("/tmp/file.zip".to_string()));
    assert_eq!(step, DownloadStep::Done { path: "/tmp/file.zip".to_string() });
    assert!(state.ended);
    assert_eq!(state.asked, 3);

    let end = settle(&plan, &vec![failure("a"), failure("b"), Ok("/tmp/file.zip".to_string())]);
    assert_eq!(end, Some((DownloadStep::Done { path: "/tmp/file.zip".to_string() }, 3)));
}

#[test]
fn first_success_ends_the_download() {
    let plan = plan_for("https://github.com/x", true);
    let end = settle(&plan, &vec![Ok("/p".to_string()), failure("never asked"), Ok("/q".to_string())]);
    assert_eq!(end, Some((DownloadStep::Done { path: "/p".to_string() }, 1)));
    let end = settle(&plan, &vec![failure("a"), Ok("/p".to_string())]);
    assert_eq!(end, Some((DownloadStep::Done { path: "/p".to_string() }, 2)));
}

#[test]
fn all_mirrors_failing_is_one_error() {
    let plan = plan_for("https://github.com/x", true);
    let end = settle(&plan, &vec![failure("a"), failure("b"), failure("c")]);
    assert_eq!(
        end,
        Some((
            DownloadStep::Failed {
                error: ToolError {
                    kind: ErrorKind::NetworkError,
                    message: "All download mirrors failed".to_string(),
                },
            },
            3
        ))
    );
}

#[test]
fn without_mirrors_the_failure_is_passed_on() {
    let plan = plan_for("https://github.com/x", false);
    let end = settle(&plan, &vec![failure("Download failed with status: 404")]);
    assert_eq!(
        end,
        Some((
            DownloadStep::Failed {
                error: ToolError {
                    kind: ErrorKind::NetworkError,
                    message: "Download failed with status: 404".to_string(),
                },
            },
            1
        ))
    );
}

#[test]
fn a_run_without_enough_outcomes_does_not_end() {
    let plan = plan_for("https://github.com/x", true);
    assert_eq!(settle(&plan, &vec![failure("a"), failure("b")]), None);
    assert_eq!(settle(&plan, &Vec::new()), None);
}

#[test]
fn a_plan_without_addresses_fails_at_once() {
    let plan = DownloadPlan { asset: asset("f"), urls: Vec::new(), use_mirrors: true };
    let (state, step) = MirrorDownload::start(&plan);
    assert!(state.ended);
    assert_eq!(
        step,
        DownloadStep::Failed {
            error: ToolError {
                kind: ErrorKind::NetworkError,
                message: "All download mirrors failed".to_string(),
            },
        }
    );
    assert_eq!(settle(&plan, &vec![Ok("/p".to_string())]).unwrap().1, 0);
}

#[test]
fn tool_names_and_repositories() {
    assert_eq!(DownloadType::Pandoc.tool_name(), "pandoc");
    assert_eq!(DownloadType::Typst.tool_name(), "typst");
    assert_eq!(DownloadType::Pandoc.repository(), "jgm/pandoc");
    assert_eq!(DownloadType::Typst.repository(), "typst/typst");
}

#[test]
fn packaged_download_prefers_the_archive() {
    let releases = vec![release("3.7")];
    let plan = download_pandoc("3.7", &releases, "windows").unwrap();
    assert_eq!(plan.asset.name, "pandoc-3.7-windows-x86_64.zip");
    assert!(plan.use_mirrors);
    assert_eq!(plan.urls.len(), 3);
    let plan = download_pandoc("3.7", &releases, "macos").unwrap();
    assert_eq!(plan.asset.name, "pandoc-3.7-macOS.zip");
    let plan = download_pandoc("3.7", &releases, "linux").unwrap();
    assert_eq!(plan.asset.name, "pandoc-3.7-linux-amd64.tar.gz");

    let e = download_pandoc("3.8", &releases, "linux").unwrap_err();
    assert_eq!((e.kind, e.message.as_str()), (ErrorKind::NotFound, "Version 3.8 not found"));

    let mut bare = release("3.7");
    bare.assets = vec![asset("pandoc-3.7.tar.gz")];
    let e = download_pandoc("3.7", &vec![bare], "windows").unwrap_err();
    assert_eq!(e.kind, ErrorKind::UnsupportedPlatform);
    assert_eq!(
        e.message,
        "No compatible asset found for current platform.\nAvailable assets: pandoc-3.7.tar.gz\n\
         Looked for patterns: [\"windows-x86_64.zip\", \"windows-x86_64.msi\"]"
    );
}
