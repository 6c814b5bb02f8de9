use tool_provision::version::{
    check_update_available, extract_clean_version, extract_version_from_output,
    extract_version_number, normalize_version,
};

#[test]
fn normalize_reads_the_four_usual_forms() {
    assert_eq!(normalize_version("pandoc.exe 3.7.0.2"), "3.7.0.2");
    assert_eq!(normalize_version("pandoc 3.7.0.2"), "3.7.0.2");
    assert_eq!(normalize_version("v3.7.0.2"), "3.7.0.2");
    assert_eq!(normalize_version("3.7.0.2"), "3.7.0.2");
}

#[test]
fn normalize_falls_back_to_the_text() {
    assert_eq!(normalize_version("Unknown"), "Unknown");
    assert_eq!(normalize_version("  pandoc  "), "pandoc");
    assert_eq!(normalize_version("v"), "v");
    assert_eq!(normalize_version("   "), "   ");
    assert_eq!(normalize_version(" "), " ");
    assert_eq!(normalize_version("\t\n"), "\t\n");
    assert_eq!(normalize_version(""), "");
    assert_eq!(normalize_version("pandoc-beta"), "-beta");
}

#[test]
fn normalize_stops_at_the_first_other_character() {
    assert_eq!(normalize_version("3.7-rc1"), "3.7");
    assert_eq!(normalize_version("release v2.19.2 final"), "2.19.2");
    assert_eq!(normalize_version("vv1.2"), "1.2");
}

#[test]
fn version_number_of_a_line() {
    assert_eq!(extract_version_number("pandoc 3.1.9"), "3.1.9");
    assert_eq!(extract_version_number("v3.1"), "3.1");
    assert_eq!(extract_version_number("pandoc"), "Unknown");
    assert_eq!(extract_version_number(""), "Unknown");
}

#[test]
fn version_of_probe_output() {
    assert_eq!(extract_version_from_output("pandoc 3.7.0.2\nFeatures: +server +lua\n"), "3.7.0.2");
    assert_eq!(extract_version_from_output("pandoc.exe 3.7.0.2\r\nmore"), "3.7.0.2");
    assert_eq!(extract_version_from_output(""), "Unknown");
    assert_eq!(extract_version_from_output("pandoc\n3.1"), "");
    assert_eq!(extract_version_from_output("\npandoc 3.1"), "");
}

#[test]
fn clean_version_takes_the_first_word() {
    assert_eq!(extract_clean_version("v3.7.0.2"), "3.7.0.2");
    assert_eq!(extract_clean_version("3.6 beta"), "3.6");
    assert_eq!(extract_clean_version("v"), "v");
    assert_eq!(extract_clean_version("none"), "none");
}

#[test]
fn update_check_compares_normal_forms() {
    assert!(check_update_available(Some("3.6"), "3.7.0.2"));
    assert!(!check_update_available(Some("pandoc 3.7.0.2"), "v3.7.0.2"));
    assert!(check_update_available(Some("3.6"), "3.6.0"));
    assert!(check_update_available(None, "3.6"));
}

#[test]
fn normal_form_of_a_text_that_is_not_empty_is_not_empty() {
    for text in [" ", "v", "pandoc", "pandoc.exe", " pandoc v ", "..", "x", "\u{3000}", "vvv", "3", "-"] {
        assert!(!normalize_version(text).is_empty(), "{:?}", text);
    }
}
