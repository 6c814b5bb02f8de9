//! Probing an executable: what a run of it printed, and what that says of
//! the formats it reads and writes.

use vstd::prelude::*;
use vstd::string::*;
use vstd::utf8::{decode_utf8, valid_utf8};
use crate::text::{chars_of, copy_range, text_of, trim, trimmed};

verus! {

/// What a program that ran to its end left behind.
#[derive(Clone, Debug, PartialEq, Eq)]
pub struct CommandOutput {
    /// Whether it exited successfully.
    pub success: bool,
    pub stdout: Vec<u8>,
    pub stderr: Vec<u8>,
}

/// `String::from_utf8`: the text that `bytes` encode in UTF-8, and nothing
/// where they are no valid UTF-8.
#[verifier::external_body]
pub(crate) fn utf8_text(bytes: Vec<u8>) -> (text: Option<String>)
    ensures
        text is Some <==> valid_utf8(bytes@),
        text matches Some(t) ==> t@ == decode_utf8(bytes@),
{
    String::from_utf8(bytes).ok()
}

/// The text that a run printed, where the program could be started, exited
/// successfully and printed valid UTF-8.
pub open spec fn printed_text(run: Result<CommandOutput, String>) -> Option<Seq<char>> {
    match run {
        Ok(output) => if output.success && valid_utf8(output.stdout@) {
            Some(decode_utf8(output.stdout@))
        } else {
            None
        },
        Err(_) => None,
    }
}

/// The line `s[start..i]` without the white space around it, as a list of
/// one item, or no item where nothing is left.
pub open spec fn line_item(s: Seq<char>, start: int, i: int) -> Seq<Seq<char>> {
    let t = trim(s.subrange(start, i));
    if start <= i && t.len() > 0 {
        seq![t]
    } else {
        Seq::empty()
    }
}

/// The names listed in `s` from `start` on, where `s[start..i]` is the part
/// of the current line read so far.
pub open spec fn names_scan(s: Seq<char>, start: int, i: int) -> Seq<Seq<char>>
    decreases s.len() - i,
{
    if i >= s.len() {
        line_item(s, start, i)
    } else if s[i] == '\n' {
        line_item(s, start, i) + names_scan(s, i + 1, i + 1)
    } else {
        names_scan(s, start, i + 1)
    }
}

/// The names that a listing holds, one to a line: each line without the
/// white space around it, the empty ones left out.
pub open spec fn listed_names(s: Seq<char>) -> Seq<Seq<char>> {
    names_scan(s, 0, 0)
}

/// The names that a listing holds, one to a line.
pub fn parse_name_list(listing: &str) -> (names: Vec<String>)
    ensures
        names.deep_view() == listed_names(listing@),
{
    let s = chars_of(listing);
    let mut names: Vec<String> = Vec::new();
    let mut start: usize = 0;
    let mut i: usize = 0;
    assert(names.deep_view() + names_scan(s@, 0, 0) =~= listed_names(s@));
    while i < s.len()
        invariant
            start <= i <= s.len(),
            names.deep_view() + names_scan(s@, start as int, i as int) == listed_names(s@),
        decreases s.len() - i,
    {
        if s[i] == '\n' {
            let line = trimmed(&copy_range(&s, start, i));
            let ghost before = names.deep_view();
            if line.len() > 0 {
                names.push(text_of(&line));
                assert(names.deep_view() =~= before + seq![line@]);
            }
            assert(names.deep_view() + names_scan(s@, i + 1, i + 1) =~= before + (line_item(
                s@,
                start as int,
                i as int,
            ) + names_scan(s@, i + 1, i + 1)));
            start = i + 1;
        }
        i += 1;
    }
    let line = trimmed(&copy_range(&s, start, i));
    let ghost before = names.deep_view();
    if line.len() > 0 {
        names.push(text_of(&line));
        assert(names.deep_view() =~= before + seq![line@]);
    } else {
        assert(before + Seq::<Seq<char>>::empty() =~= before);
    }
    names
}

/// The formats that the converter is taken to read where it cannot be
/// asked.
pub open spec fn fallback_input_names() -> Seq<Seq<char>> {
    seq![
        "biblatex"@,
        "bibtex"@,
        "bits"@,
        "commonmark"@,
        "commonmark_x"@,
        "creole"@,
        "csljson"@,
        "csv"@,
        "djot"@,
        "docbook"@,
        "docx"@,
        "dokuwiki"@,
        "endnotexml"@,
        "epub"@,
        "fb2"@,
        "gfm"@,
        "haddock"@,
        "html"@,
        "ipynb"@,
        "jats"@,
        "jira"@,
        "json"@,
        "latex"@,
        "man"@,
        "markdown"@,
        "markdown_github"@,
        "markdown_mmd"@,
        "markdown_phpextra"@,
        "markdown_strict"@,
        "mdoc"@,
        "mediawiki"@,
        "muse"@,
        "native"@,
        "odt"@,
        "opml"@,
        "org"@,
        "pod"@,
        "ris"@,
        "rst"@,
        "rtf"@,
        "t2t"@,
        "textile"@,
        "tikiwiki"@,
        "tsv"@,
        "twiki"@,
        "typst"@,
        "vimwiki"@,
    ]
}

/// The formats that the converter is taken to write where it cannot be
/// asked.
pub open spec fn fallback_output_names() -> Seq<Seq<char>> {
    seq![
        "ansi"@,
        "asciidoc"@,
        "asciidoc_legacy"@,
        "asciidoctor"@,
        "beamer"@,
        "biblatex"@,
        "bibtex"@,
        "chunkedhtml"@,
        "commonmark"@,
        "commonmark_x"@,
        "context"@,
        "csljson"@,
        "djot"@,
        "docbook"@,
        "docbook4"@,
        "docbook5"@,
        "docx"@,
        "dokuwiki"@,
        "dzslides"@,
        "epub"@,
        "epub2"@,
        "epub3"@,
        "fb2"@,
        "gfm"@,
        "haddock"@,
        "html"@,
        "html4"@,
        "html5"@,
        "icml"@,
        "ipynb"@,
        "jats"@,
        "jats_archiving"@,
        "jats_articleauthoring"@,
        "jats_publishing"@,
        "jira"@,
        "json"@,
        "latex"@,
        "man"@,
        "markdown"@,
        "markdown_github"@,
        "markdown_mmd"@,
        "markdown_phpextra"@,
        "markdown_strict"@,
        "markua"@,
        "mediawiki"@,
        "ms"@,
        "muse"@,
        "native"@,
        "odt"@,
        "opendocument"@,
        "opml"@,
        "org"@,
        "pdf"@,
        "plain"@,
        "pptx"@,
        "revealjs"@,
        "rst"@,
        "rtf"@,
        "s5"@,
        "slideous"@,
        "slidy"@,
        "tei"@,
        "texinfo"@,
        "textile"@,
        "typst"@,
        "xwiki"@,
        "zimwiki"@,
    ]
}

/// The texts of a list of string slices.
pub open spec fn slice_texts(names: Seq<&'static str>) -> Seq<Seq<char>> {
    Seq::new(names.len(), |k: int| names[k]@)
}

/// Owned copies of a list of string slices.
pub fn owned_texts(names: &Vec<&'static str>) -> (out: Vec<String>)
    ensures
        out.deep_view() == slice_texts(names@),
{
    let mut out: Vec<String> = Vec::new();
    let mut i: usize = 0;
    while i < names.len()
        invariant
            i <= names.len(),
            out.len() == i,
            forall|k: int| 0 <= k < i ==> out@[k]@ == names@[k]@,
        decreases names.len() - i,
    {
        out.push(String::from_str(names[i]));
        i += 1;
    }
    assert(out.deep_view() =~= slice_texts(names@));
    out
}

/// The formats that the converter is taken to read where it cannot be asked.
pub fn fallback_input_formats() -> (formats: Vec<String>)
    ensures
        formats.deep_view() == fallback_input_names(),
{
    let names: Vec<&'static str> = vec![
        "biblatex",
        "bibtex",
        "bits",
        "commonmark",
        "commonmark_x",
        "creole",
        "csljson",
        "csv",
        "djot",
        "docbook",
        "docx",
        "dokuwiki",
        "endnotexml",
        "epub",
        "fb2",
        "gfm",
        "haddock",
        "html",
        "ipynb",
        "jats",
        "jira",
        "json",
        "latex",
        "man",
        "markdown",
        "markdown_github",
        "markdown_mmd",
        "markdown_phpextra",
        "markdown_strict",
        "mdoc",
        "mediawiki",
        "muse",
        "native",
        "odt",
        "opml",
        "org",
        "pod",
        "ris",
        "rst",
        "rtf",
        "t2t",
        "textile",
        "tikiwiki",
        "tsv",
        "twiki",
        "typst",
        "vimwiki",
    ];
    let formats = owned_texts(&names);
    assert(formats.deep_view() =~= fallback_input_names());
    formats
}

/// The formats that the converter is taken to write where it cannot be
/// asked.
pub fn fallback_output_formats() -> (formats: Vec<String>)
    ensures
        formats.deep_view() == fallback_output_names(),
{
    let names: Vec<&'static str> = vec![
        "ansi",
        "asciidoc",
        "asciidoc_legacy",
        "asciidoctor",
        "beamer",
        "biblatex",
        "bibtex",
        "chunkedhtml",
        "commonmark",
        "commonmark_x",
        "context",
        "csljson",
        "djot",
        "docbook",
        "docbook4",
        "docbook5",
        "docx",
        "dokuwiki",
        "dzslides",
        "epub",
        "epub2",
        "epub3",
        "fb2",
        "gfm",
        "haddock",
        "html",
        "html4",
        "html5",
        "icml",
        "ipynb",
        "jats",
        "jats_archiving",
        "jats_articleauthoring",
        "jats_publishing",
        "jira",
        "json",
        "latex",
        "man",
        "markdown",
        "markdown_github",
        "markdown_mmd",
        "markdown_phpextra",
        "markdown_strict",
        "markua",
        "mediawiki",
        "ms",
        "muse",
        "native",
        "odt",
        "opendocument",
        "opml",
        "org",
        "pdf",
        "plain",
        "pptx",
        "revealjs",
        "rst",
        "rtf",
        "s5",
        "slideous",
        "slidy",
        "tei",
        "texinfo",
        "textile",
        "typst",
        "xwiki",
        "zimwiki",
    ];
    let formats = owned_texts(&names);
    assert(formats.deep_view() =~= fallback_output_names());
    formats
}

/// The formats that a run of a format listing shows: the names it printed,
/// or `fallback` where it printed no valid text.
pub open spec fn formats_shown(run: Result<CommandOutput, String>, fallback: Seq<Seq<char>>) -> Seq<
    Seq<char>,
> {
    match printed_text(run) {
        Some(text) => listed_names(text),
        None => fallback,
    }
}

fn formats_from_run(run: &Result<CommandOutput, String>, fallback: Vec<String>) -> (formats: Vec<
    String,
>)
    ensures
        formats.deep_view() == formats_shown(*run, fallback.deep_view()),
{
    match run {
        Ok(output) => {
            if output.success {
                match utf8_text(output.stdout.clone()) {
                    Some(text) => parse_name_list(text.as_str()),
                    None => fallback,
                }
            } else {
                fallback
            }
        },
        Err(_) => fallback,
    }
}

/// The formats that the converter reads and those that it writes, from the
/// runs of its two format listings. Each list falls back to its table on
/// its own; the call never fails.
pub fn get_supported_formats(
    input_listing: &Result<CommandOutput, String>,
    output_listing: &Result<CommandOutput, String>,
) -> (formats: Result<(Vec<String>, Vec<String>), String>)
    ensures
        formats matches Ok(lists) && lists.0.deep_view() == formats_shown(
            *input_listing,
            fallback_input_names(),
        ) && lists.1.deep_view() == formats_shown(*output_listing, fallback_output_names()),
{
    let inputs = formats_from_run(input_listing, fallback_input_formats());
    let outputs = formats_from_run(output_listing, fallback_output_formats());
    Ok((inputs, outputs))
}

} // verus!
