use tool_provision::error::ErrorKind;
use tool_provision::manager::{
    best_manager_index, check_bundled_pandoc_update, choose_pandoc_command,
    create_and_validate_custom_manager, create_custom_manager, discover_pandoc_sources,
    get_best_pandoc_manager, get_pandoc_info, get_pandoc_path, is_executable, probe_pandoc, resolve,
    update_message, validate_all, PandocManager, PandocSource, ProbeReport, SystemCandidate,
};
use tool_provision::probe::{fallback_input_formats, fallback_output_formats, CommandOutput};
use tool_provision::types::{PandocConfig, PandocInfo};

fn ran(success: bool, stdout: &[u8]) -> Result<CommandOutput, String> {
    Ok(CommandOutput { success, stdout: stdout.to_vec(), stderr: Vec::new() })
}

fn good_report() -> ProbeReport {
    ProbeReport {
        exists: true,
        version_run: ran(true, b"pandoc 3.7.0.2\nFeatures: +server +lua\n"),
        input_listing: ran(true, b"markdown\nhtml\n"),
        output_listing: ran(true, b"html\npdf\ndocx\n"),
    }
}

fn missing_report() -> ProbeReport {
    ProbeReport {
        exists: false,
        version_run: Err("No such file or directory".to_string()),
        input_listing: Err(String::new()),
        output_listing: Err(String::new()),
    }
}

fn info(path: &str, version: &str) -> PandocInfo {
    PandocInfo {
        version: version.to_string(),
        path: path.to_string(),
        is_working: true,
        supported_input_formats: vec!["markdown".to_string()],
        supported_output_formats: vec!["html".to_string()],
        detected_paths: Vec::new(),
        search_paths: Vec::new(),
    }
}

fn available(source: PandocSource, path: &str) -> PandocManager {
    PandocManager { source, info: Some(info(path, "3.7")), available: true }
}

#[test]
fn default_config_is_empty() {
    let c = PandocConfig::default();
    assert_eq!(c.custom_path, None);
    assert!(!c.use_custom_path);
    assert_eq!(c.last_detected_version, "");
}

#[test]
fn a_new_manager_is_not_validated() {
    let m = PandocManager::new(PandocSource::Managed);
    assert_eq!(m.source, PandocSource::Managed);
    assert!(!m.is_available());
    assert!(m.get_info().is_none());
    let m = create_custom_manager("/opt/pandoc".to_string());
    assert_eq!(m.source, PandocSource::Custom("/opt/pandoc".to_string()));
    assert!(!m.is_available());
    assert_eq!(m.get_info(), None);
}

#[test]
fn executable_path_of_each_source() {
    let managed = Some("/app/pandoc/pandoc".to_string());
    assert_eq!(
        create_custom_manager("/c".to_string()).get_executable_path(managed.clone()),
        Some("/c".to_string())
    );
    assert_eq!(
        PandocManager::new(PandocSource::System("/s".to_string())).get_executable_path(managed.clone()),
        Some("/s".to_string())
    );
    assert_eq!(PandocManager::new(PandocSource::Managed).get_executable_path(managed.clone()), managed);
    assert_eq!(PandocManager::new(PandocSource::Managed).get_executable_path(None), None);
}

#[test]
fn ranks_follow_the_order_of_preference() {
    assert!(PandocSource::Custom(String::new()).rank() < PandocSource::Managed.rank());
    assert!(PandocSource::Managed.rank() < PandocSource::System(String::new()).rank());
}

#[test]
fn probing_a_working_executable() {
    let got = probe_pandoc("/usr/bin/pandoc", &good_report()).unwrap();
    assert_eq!(
        got,
        PandocInfo {
            version: "3.7.0.2".to_string(),
            path: "/usr/bin/pandoc".to_string(),
            is_working: true,
            supported_input_formats: vec!["markdown".to_string(), "html".to_string()],
            supported_output_formats: vec!["html".to_string(), "pdf".to_string(), "docx".to_string()],
            detected_paths: Vec::new(),
            search_paths: Vec::new(),
        }
    );
}

#[test]
fn probing_falls_back_to_the_format_tables() {
    let mut report = good_report();
    report.input_listing = ran(false, b"");
    report.output_listing = Err("spawn failed".to_string());
    let got = probe_pandoc("/p", &report).unwrap();
    assert_eq!(got.supported_input_formats, fallback_input_formats());
    assert_eq!(got.supported_output_formats, fallback_output_formats());
    assert_eq!(got.version, "3.7.0.2");
}

#[test]
fn probing_errors() {
    let e = probe_pandoc("/p", &missing_report()).unwrap_err();
    assert_eq!((e.kind, e.message.as_str()), (ErrorKind::NotFound, "Pandoc executable not found"));

    let mut report = good_report();
    report.version_run = Err("permission denied".to_string());
    let e = probe_pandoc("/p", &report).unwrap_err();
    assert_eq!(
        (e.kind, e.message.as_str()),
        (ErrorKind::ExecutionFailed, "Failed to execute pandoc: permission denied")
    );

    report.version_run = ran(false, b"pandoc 3.7");
    let e = probe_pandoc("/p", &report).unwrap_err();
    assert_eq!((e.kind, e.message.as_str()), (ErrorKind::ExecutionFailed, "Pandoc failed to execute"));

    report.version_run = ran(true, &[0x80, 0x80]);
    let e = probe_pandoc("/p", &report).unwrap_err();
    assert_eq!(
        (e.kind, e.message.as_str()),
        (ErrorKind::IoError, "Failed to read pandoc version output")
    );
}

#[test]
fn validation_makes_a_source_available() {
    let mut m = create_custom_manager("/opt/pandoc".to_string());
    assert_eq!(m.validate(None, &good_report()), Ok(()));
    assert!(m.is_available());
    let got = m.get_info().unwrap();
    assert_eq!(got.path, "/opt/pandoc");
    assert_eq!(got.version, "3.7.0.2");
    assert!(got.is_working);
}

#[test]
fn a_system_path_that_does_not_exist_is_unavailable() {
    let mut m = PandocManager::new(PandocSource::System("/nonexistent/pandoc".to_string()));
    let e = m.validate(None, &missing_report()).unwrap_err();
    assert_eq!(e.kind, ErrorKind::NotFound);
    assert!(!m.is_available());
    assert_eq!(m.get_info(), None);
    assert_eq!(m.source, PandocSource::System("/nonexistent/pandoc".to_string()));
}

#[test]
fn a_failed_validation_clears_what_was_known() {
    let mut m = available(PandocSource::Managed, "/old");
    let e = m.validate(Some("/app/pandoc".to_string()), &missing_report()).unwrap_err();
    assert_eq!(e.message, "Pandoc executable not found");
    assert!(!m.available);
    assert_eq!(m.info, None);

    let mut m = available(PandocSource::Managed, "/old");
    let e = m.validate(None, &good_report()).unwrap_err();
    assert_eq!((e.kind, e.message.as_str()), (ErrorKind::NotFound, "Failed to get executable path"));
    assert!(!m.available);
    assert_eq!(m.info, None);
}

#[test]
fn the_managed_source_is_validated_at_the_managed_path() {
    let mut m = PandocManager::new(PandocSource::Managed);
    assert_eq!(m.validate(Some("/app/pandoc/bin/pandoc".to_string()), &good_report()), Ok(()));
    assert_eq!(m.get_info().unwrap().path, "/app/pandoc/bin/pandoc");
}

#[test]
fn custom_manager_made_and_validated() {
    let m = create_and_validate_custom_manager("/c/pandoc".to_string(), &good_report()).unwrap();
    assert!(m.available);
    assert_eq!(m.source, PandocSource::Custom("/c/pandoc".to_string()));
    assert_eq!(m.info.unwrap().path, "/c/pandoc");
    let e = create_and_validate_custom_manager("/c/pandoc".to_string(), &missing_report()).unwrap_err();
    assert_eq!(e.kind, ErrorKind::NotFound);
}

#[test]
fn executable_bits() {
    assert!(is_executable(Some(0o755)));
    assert!(is_executable(Some(0o100)));
    assert!(is_executable(Some(0o010)));
    assert!(is_executable(Some(0o001)));
    assert!(is_executable(Some(0o100644 | 0o001)));
    assert!(!is_executable(Some(0o644)));
    assert!(!is_executable(Some(0o100666)));
    assert!(!is_executable(Some(0)));
    assert!(!is_executable(None));
}

#[test]
fn discovery_lists_the_managed_source_first() {
    let candidates = vec![
        SystemCandidate { path: "/usr/bin/pandoc".to_string(), exists: true, executable: true },
        SystemCandidate { path: "/usr/local/bin/pandoc".to_string(), exists: false, executable: false },
        SystemCandidate { path: "/home/u/pandoc".to_string(), exists: true, executable: false },
        SystemCandidate { path: "/opt/pandoc".to_string(), exists: true, executable: true },
    ];
    let sources = discover_pandoc_sources(&candidates);
    let kinds: Vec<PandocSource> = sources.iter().map(|m| m.source.clone()).collect();
    assert_eq!(
        kinds,
        vec![
            PandocSource::Managed,
            PandocSource::System("/usr/bin/pandoc".to_string()),
            PandocSource::System("/opt/pandoc".to_string()),
        ]
    );
    assert!(sources.iter().all(|m| !m.available && m.info.is_none()));
    assert_eq!(discover_pandoc_sources(&Vec::new()).len(), 1);
}

#[test]
fn custom_wins_over_managed_and_system() {
    let managers = vec![
        available(PandocSource::System("/s".to_string()), "/s"),
        available(PandocSource::Managed, "/m"),
        available(PandocSource::Custom("/c".to_string()), "/c"),
    ];
    assert_eq!(best_manager_index(&managers), Some(2));
    assert_eq!(resolve(&managers).unwrap().path, "/c");
    assert_eq!(get_best_pandoc_manager(managers).unwrap().source, PandocSource::Custom("/c".to_string()));
}

#[test]
fn managed_wins_over_system_when_custom_is_not_valid() {
    let managers = vec![
        PandocManager::new(PandocSource::Custom("/broken".to_string())),
        available(PandocSource::System("/s1".to_string()), "/s1"),
        available(PandocSource::Managed, "/m"),
        available(PandocSource::System("/s2".to_string()), "/s2"),
    ];
    assert_eq!(best_manager_index(&managers), Some(2));
    assert_eq!(resolve(&managers).unwrap().path, "/m");
}

#[test]
fn system_paths_win_in_their_order() {
    let managers = vec![
        PandocManager::new(PandocSource::Managed),
        PandocManager::new(PandocSource::System("/s0".to_string())),
        available(PandocSource::System("/zzzz/s1".to_string()), "/zzzz/s1"),
        available(PandocSource::System("/a".to_string()), "/a"),
    ];
    assert_eq!(best_manager_index(&managers), Some(2));
    assert_eq!(resolve(&managers).unwrap().path, "/zzzz/s1");
}

#[test]
fn nothing_usable_is_not_found() {
    let managers = vec![
        PandocManager::new(PandocSource::Managed),
        PandocManager { source: PandocSource::System("/s".to_string()), info: None, available: true },
        PandocManager { source: PandocSource::System("/t".to_string()), info: Some(info("/t", "1")), available: false },
    ];
    assert_eq!(best_manager_index(&managers), None);
    assert_eq!(get_best_pandoc_manager(managers.clone()), None);
    let e = resolve(&managers).unwrap_err();
    assert_eq!(e.kind, ErrorKind::NotFound);
    assert_eq!(
        e.message,
        "Pandoc not found. Please check your installation or specify a custom path in settings."
    );
    assert_eq!(resolve(&Vec::new()).unwrap_err().kind, ErrorKind::NotFound);
}

#[test]
fn bundled_update_check() {
    let mut m = available(PandocSource::Managed, "/m");
    m.info.as_mut().unwrap().version = "3.6".to_string();
    assert!(check_bundled_pandoc_update(&m, "3.7.0.2"));
    assert!(!check_bundled_pandoc_update(&m, "v3.6"));
    assert!(!check_bundled_pandoc_update(&m, "3.6"));
    assert!(!check_bundled_pandoc_update(&m, "pandoc 3.6"));
    assert!(check_bundled_pandoc_update(&m, "3.6.0"));
    m.info.as_mut().unwrap().version = "pandoc.exe 3.7".to_string();
    assert!(!check_bundled_pandoc_update(&m, "v3.7"));
    m.info.as_mut().unwrap().version = "3.6".to_string();
    assert!(check_bundled_pandoc_update(&PandocManager::new(PandocSource::Managed), "3.6"));
    assert!(!check_bundled_pandoc_update(&PandocManager::new(PandocSource::Managed), "none"));
    let odd = PandocManager { source: PandocSource::Managed, info: None, available: true };
    assert!(!check_bundled_pandoc_update(&odd, "unknown"));
    assert!(check_bundled_pandoc_update(&odd, "3.6"));
}

#[test]
fn command_is_the_custom_path_or_the_first_found() {
    let detected = vec!["/usr/bin/pandoc".to_string(), "/opt/pandoc".to_string()];
    let searched = vec!["/a".to_string()];
    assert_eq!(choose_pandoc_command(Some("/c".to_string()), &detected, &searched).unwrap(), "/c");
    assert_eq!(choose_pandoc_command(Some("/c".to_string()), &Vec::new(), &searched).unwrap(), "/c");
    assert_eq!(choose_pandoc_command(None, &detected, &searched).unwrap(), "/usr/bin/pandoc");
}

#[test]
fn search_without_result_names_the_first_five_places() {
    let searched: Vec<String> = (1..=7).map(|i| format!("/p{}", i)).collect();
    let e = choose_pandoc_command(None, &Vec::new(), &searched).unwrap_err();
    assert_eq!(e.kind, ErrorKind::NotFound);
    assert_eq!(
        e.message,
        "Pandoc not found. Searched 7 locations including:\n- /p1\n- /p2\n- /p3\n- /p4\n- /p5"
    );
    let e = choose_pandoc_command(None, &Vec::new(), &searched[..2].to_vec()).unwrap_err();
    assert_eq!(e.message, "Pandoc not found. Searched 2 locations including:\n- /p1\n- /p2");
    let e = choose_pandoc_command(None, &Vec::new(), &Vec::new()).unwrap_err();
    assert_eq!(e.message, "Pandoc not found. Searched 0 locations including:\n");
    let many: Vec<String> = (0..12).map(|i| format!("/q{}", i)).collect();
    let e = choose_pandoc_command(None, &Vec::new(), &many).unwrap_err();
    assert!(e.message.starts_with("Pandoc not found. Searched 12 locations including:\n- /q0\n"));
}

#[test]
fn info_of_a_command() {
    let detected = vec!["/usr/bin/pandoc".to_string()];
    let searched = vec!["/usr/bin/pandoc".to_string(), "/usr/local/bin/pandoc".to_string()];
    let got = get_pandoc_info("/usr/bin/pandoc".to_string(), &good_report(), detected.clone(), searched.clone()).unwrap();
    assert_eq!(got.version, "3.7.0.2");
    assert_eq!(got.path, "/usr/bin/pandoc");
    assert!(got.is_working);
    assert_eq!(got.detected_paths, detected);
    assert_eq!(got.search_paths, searched);
    assert_eq!(got.supported_output_formats, vec!["html", "pdf", "docx"]);

    let mut report = good_report();
    report.version_run = ran(true, b"");
    let got = get_pandoc_info("p".to_string(), &report, Vec::new(), Vec::new()).unwrap();
    assert_eq!(got.version, "Unknown version");
    report.version_run = ran(true, b"pandoc\n");
    let got = get_pandoc_info("p".to_string(), &report, Vec::new(), Vec::new()).unwrap();
    assert_eq!(got.version, "Unknown");
    report.version_run = ran(true, b"pandoc v2.19-beta\n");
    let got = get_pandoc_info("p".to_string(), &report, Vec::new(), Vec::new()).unwrap();
    assert_eq!(got.version, "2.19-beta");
}

#[test]
fn info_errors_name_the_command() {
    let mut report = good_report();
    report.exists = false;
    report.version_run = ran(false, b"");
    let e = get_pandoc_info("/x/pandoc".to_string(), &report, Vec::new(), Vec::new()).unwrap_err();
    assert_eq!(
        (e.kind, e.message.as_str()),
        (ErrorKind::ExecutionFailed, "Pandoc at '/x/pandoc' failed to execute")
    );
    report.version_run = Err("os error 2".to_string());
    let e = get_pandoc_info("/x/pandoc".to_string(), &report, Vec::new(), Vec::new()).unwrap_err();
    assert_eq!(
        (e.kind, e.message.as_str()),
        (ErrorKind::ExecutionFailed, "Failed to execute pandoc at '/x/pandoc': os error 2")
    );
    report.version_run = ran(true, &[0xc0]);
    let e = get_pandoc_info("/x/pandoc".to_string(), &report, Vec::new(), Vec::new()).unwrap_err();
    assert_eq!((e.kind, e.message.as_str()), (ErrorKind::IoError, "Failed to read pandoc version output"));
}

#[test]
fn path_of_the_first_installation() {
    assert_eq!(get_pandoc_path(&vec!["/a".to_string(), "/b".to_string()]).unwrap(), "/a");
    let e = get_pandoc_path(&Vec::new()).unwrap_err();
    assert_eq!(e.kind, ErrorKind::NotFound);
    assert_eq!(
        e.message,
        "Pandoc not found in any common locations. Searched paths will be shown in detailed info."
    );
}

#[test]
fn update_report() {
    assert_eq!(update_message("pandoc", "3.7.0.2"), "Successfully updated managed pandoc to version 3.7.0.2");
    assert_eq!(update_message("typst", "v0.13.1"), "Successfully updated managed typst to version v0.13.1");
}

#[test]
fn a_sweep_validates_each_source_on_its_own() {
    let sources = vec![
        create_custom_manager("/c".to_string()),
        PandocManager::new(PandocSource::Managed),
        PandocManager::new(PandocSource::System("/s1".to_string())),
        PandocManager::new(PandocSource::System("/s2".to_string())),
    ];
    let reports = vec![missing_report(), good_report(), missing_report(), good_report()];
    let swept = validate_all(sources, &Some("/app/pandoc".to_string()), &reports);
    let available: Vec<bool> = swept.iter().map(|m| m.available).collect();
    assert_eq!(available, vec![false, true, false, true]);
    assert_eq!(swept[0].source, PandocSource::Custom("/c".to_string()));
    assert_eq!(swept[1].info.as_ref().unwrap().path, "/app/pandoc");
    assert_eq!(swept[3].info.as_ref().unwrap().path, "/s2");
    assert_eq!(swept[2].info, None);
    assert_eq!(resolve(&swept).unwrap().path, "/app/pandoc");
}

#[test]
fn a_sweep_leaves_sources_without_a_report_as_they_are() {
    let sources = vec![
        PandocManager::new(PandocSource::Managed),
        available(PandocSource::System("/s".to_string()), "/s"),
    ];
    let swept = validate_all(sources.clone(), &None, &vec![good_report()]);
    assert_eq!(swept.len(), 2);
    assert!(!swept[0].available);
    assert_eq!(swept[1], sources[1]);
    assert_eq!(validate_all(Vec::new(), &None, &vec![good_report()]), Vec::new());
}
