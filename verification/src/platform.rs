//! Which release asset and which executable name belong to a platform.

use vstd::prelude::*;
use vstd::string::*;
use crate::text::same_text;

verus! {

/// The substrings by which the converter's release asset for `(os, arch)`
/// is recognised, the most specific first. A pair that is not listed gets
/// the entry of its operating system, and an unknown operating system that
/// of Linux on x86_64.
pub open spec fn converter_patterns(os: Seq<char>, arch: Seq<char>) -> Seq<Seq<char>> {
    if os == "windows"@ {
        seq!["windows-x86_64"@]
    } else if os == "macos"@ {
        if arch == "aarch64"@ {
            seq!["arm64-macOS"@]
        } else if arch == "x86_64"@ {
            seq!["x86_64-macOS"@]
        } else {
            seq!["macOS"@]
        }
    } else if os == "linux"@ && arch == "aarch64"@ {
        seq!["linux-arm64"@]
    } else {
        seq!["linux-amd64"@]
    }
}

/// The pattern that every pair without an entry of its own falls back to.
pub open spec fn default_converter_pattern() -> Seq<char> {
    "linux-amd64"@
}

/// Whether `(os, arch)` has an entry of its own in the converter's table.
pub open spec fn converter_pair_known(os: Seq<char>, arch: Seq<char>) -> bool {
    (os == "windows"@ || os == "macos"@ || os == "linux"@) && (arch == "x86_64"@ || (arch
        == "aarch64"@ && os != "windows"@))
}

/// The substrings by which the converter's release asset for the platform is
/// recognised, the most specific first. The list is never empty: a platform
/// that is not listed gets its fallback.
pub fn get_pandoc_asset_patterns_for_platform(target_os: &str, target_arch: &str) -> (patterns:
    Vec<String>)
    ensures
        patterns.deep_view() == converter_patterns(target_os@, target_arch@),
        patterns.len() == 1,
{
    let name = if same_text(target_os, "windows") {
        "windows-x86_64"
    } else if same_text(target_os, "macos") {
        if same_text(target_arch, "aarch64") {
            "arm64-macOS"
        } else if same_text(target_arch, "x86_64") {
            "x86_64-macOS"
        } else {
            "macOS"
        }
    } else if same_text(target_os, "linux") && same_text(target_arch, "aarch64") {
        "linux-arm64"
    } else {
        "linux-amd64"
    };
    let mut patterns: Vec<String> = Vec::new();
    patterns.push(String::from_str(name));
    assert(patterns.deep_view() =~= seq![name@]);
    patterns
}

/// Every pair gets a pattern: the list is never empty.
pub proof fn lemma_converter_patterns_nonempty(os: Seq<char>, arch: Seq<char>)
    ensures
        converter_patterns(os, arch).len() >= 1,
{
}

/// The entry that a pair without one of its own falls back to: that of its
/// operating system, and for an unknown operating system that of Linux on
/// x86_64.
pub open spec fn fallback_converter_patterns(os: Seq<char>) -> Seq<Seq<char>> {
    if os == "windows"@ {
        seq!["windows-x86_64"@]
    } else if os == "macos"@ {
        seq!["macOS"@]
    } else {
        seq![default_converter_pattern()]
    }
}

/// A pair without an entry of its own gets its fallback, never an empty
/// list.
pub proof fn lemma_unmapped_pair_gets_fallback(os: Seq<char>, arch: Seq<char>)
    requires
        !converter_pair_known(os, arch),
    ensures
        converter_patterns(os, arch) == fallback_converter_patterns(os),
        converter_patterns(os, arch).len() == 1,
{
    reveal_strlit("windows");
    reveal_strlit("macos");
    reveal_strlit("linux");
    reveal_strlit("x86_64");
    reveal_strlit("aarch64");
}

/// A pair with an unknown operating system gets the default pattern.
pub proof fn lemma_unknown_os_gets_default(os: Seq<char>, arch: Seq<char>)
    requires
        os != "windows"@,
        os != "macos"@,
        os != "linux"@,
    ensures
        converter_patterns(os, arch) == seq![default_converter_pattern()],
{
}

/// The substring by which the typesetter's release asset for `(os, arch)`
/// is recognised. A pair that is not listed gets that of Linux on x86_64.
pub open spec fn typesetter_pattern(os: Seq<char>, arch: Seq<char>) -> Seq<char> {
    if os == "windows"@ && arch == "x86_64"@ {
        "x86_64-pc-windows-msvc"@
    } else if os == "macos"@ && arch == "aarch64"@ {
        "aarch64-apple-darwin"@
    } else if os == "macos"@ && arch == "x86_64"@ {
        "x86_64-apple-darwin"@
    } else if os == "linux"@ && arch == "aarch64"@ {
        "aarch64-unknown-linux-musl"@
    } else {
        "x86_64-unknown-linux-musl"@
    }
}

/// The substring by which the typesetter's release asset for the platform is
/// recognised.
pub fn get_typst_asset_pattern(target_os: &str, target_arch: &str) -> (pattern: String)
    ensures
        pattern@ == typesetter_pattern(target_os@, target_arch@),
{
    let x86 = same_text(target_arch, "x86_64");
    let arm = same_text(target_arch, "aarch64");
    let name = if same_text(target_os, "windows") && x86 {
        "x86_64-pc-windows-msvc"
    } else if same_text(target_os, "macos") && arm {
        "aarch64-apple-darwin"
    } else if same_text(target_os, "macos") && x86 {
        "x86_64-apple-darwin"
    } else if same_text(target_os, "linux") && arm {
        "aarch64-unknown-linux-musl"
    } else {
        "x86_64-unknown-linux-musl"
    };
    String::from_str(name)
}

/// The endings by which the converter's portable archive and, after it,
/// its installer are recognised on `os`.
pub open spec fn packaged_patterns(os: Seq<char>) -> Seq<Seq<char>> {
    if os == "windows"@ {
        seq!["windows-x86_64.zip"@, "windows-x86_64.msi"@]
    } else if os == "macos"@ {
        seq!["macOS.zip"@, "macOS.pkg"@]
    } else {
        seq!["linux-amd64.tar.gz"@]
    }
}

/// The endings by which the converter's download for `os` is recognised,
/// the portable archive before the installer.
pub fn get_pandoc_asset_patterns(os: &str) -> (patterns: Vec<String>)
    ensures
        patterns.deep_view() == packaged_patterns(os@),
        patterns.len() >= 1,
{
    let mut patterns: Vec<String> = Vec::new();
    if same_text(os, "windows") {
        patterns.push(String::from_str("windows-x86_64.zip"));
        patterns.push(String::from_str("windows-x86_64.msi"));
    } else if same_text(os, "macos") {
        patterns.push(String::from_str("macOS.zip"));
        patterns.push(String::from_str("macOS.pkg"));
    } else {
        patterns.push(String::from_str("linux-amd64.tar.gz"));
    }
    assert(patterns.deep_view() =~= packaged_patterns(os@));
    patterns
}

/// The first of the endings for `os`.
pub fn get_pandoc_asset_pattern(os: &str) -> (pattern: String)
    ensures
        pattern@ == packaged_patterns(os@)[0],
{
    let patterns = get_pandoc_asset_patterns(os);
    assert(patterns.deep_view()[0] == patterns@[0]@);
    patterns[0].clone()
}

/// The name of the program file: the tool's name, with `.exe` after it on
/// Windows.
pub open spec fn program_file(tool: Seq<char>, os: Seq<char>) -> Seq<char> {
    if os == "windows"@ {
        tool + ".exe"@
    } else {
        tool
    }
}

/// The name of the program file of `tool` on `os`.
pub fn executable_name(tool: &str, os: &str) -> (name: String)
    ensures
        name@ == program_file(tool@, os@),
{
    let mut name = String::from_str(tool);
    if same_text(os, "windows") {
        name.append(".exe");
    }
    name
}

} // verus!
