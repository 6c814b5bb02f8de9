//! Version texts: from what a program prints, or from a release tag, to
//! the dotted number by which two versions are compared.

use vstd::prelude::*;
use vstd::string::*;
use crate::text::{
    char_is_digit, chars_of, contains, copy_range, find_line_end, includes, is_digit, lemma_version_end_bounds,
    line_end, remove_all, rows, same_text, split_words, strip_leading, stripped_leading,
    take_version_prefix, text_of, trim, trimmed, version_prefix, without, words,
};

verus! {

/// The name of the converter's program, which a word of a version line may
/// hold.
pub open spec fn program_name() -> Seq<char> {
    "pandoc"@
}

/// The name of the converter's program file on Windows.
pub open spec fn program_file_name() -> Seq<char> {
    "pandoc.exe"@
}

/// The version that the words from index `i` on hold: of the first word
/// that does not mention the program and, once a leading run of `v` is set
/// aside where `strip_v` says so, starts with a digit, the longest start
/// made of digits and dots.
pub open spec fn version_in_words(ws: Seq<Seq<char>>, i: int, strip_v: bool) -> Option<Seq<char>>
    decreases ws.len() - i,
{
    if i < 0 || i >= ws.len() {
        None
    } else if contains(ws[i], program_name()) {
        version_in_words(ws, i + 1, strip_v)
    } else {
        let word = if strip_v {
            strip_leading(ws[i], 'v')
        } else {
            ws[i]
        };
        if word.len() > 0 && is_digit(word[0]) {
            Some(version_prefix(word))
        } else {
            version_in_words(ws, i + 1, strip_v)
        }
    }
}

/// What is left of `s` when the program's names, the white space around the
/// rest, a run of `v` before it and the white space after that are taken
/// away.
pub open spec fn bare_text(s: Seq<char>) -> Seq<char> {
    trim(strip_leading(trim(remove_all(remove_all(trim(s), program_file_name()), program_name())), 'v'))
}

/// The normal form of a version text: the version that its words hold, or,
/// where no word holds one, its bare text, or, where that is empty, the
/// text without the white space around it, or, where nothing but white
/// space is there, the text itself. It is empty for the empty text alone.
pub open spec fn normalized(raw: Seq<char>) -> Seq<char> {
    match version_in_words(words(raw), 0, true) {
        Some(v) => v,
        None => if bare_text(raw).len() > 0 {
            bare_text(raw)
        } else if trim(raw).len() > 0 {
            trim(raw)
        } else {
            raw
        },
    }
}

/// The version number in a line such as `pandoc 3.7.0.2`: the version that
/// its words hold, with no `v` set aside, or its bare text, or `Unknown`.
pub open spec fn version_number(line: Seq<char>) -> Seq<char> {
    match version_in_words(words(line), 0, false) {
        Some(v) => v,
        None => if bare_text(line).len() > 0 {
            bare_text(line)
        } else {
            "Unknown"@
        },
    }
}

/// The first line of what a program printed, up to its first line feed; of
/// an empty output, `Unknown`.
pub open spec fn first_line(output: Seq<char>) -> Seq<char> {
    if output.len() == 0 {
        "Unknown"@
    } else {
        output.subrange(0, line_end(output, 0))
    }
}

/// The version in the output of a version probe: the version that the words
/// of its first line hold, or that line without the program's names and the
/// white space around the rest.
pub open spec fn version_of_output(output: Seq<char>) -> Seq<char> {
    let line = first_line(output);
    match version_in_words(words(line), 0, false) {
        Some(v) => v,
        None => trim(remove_all(remove_all(line, program_file_name()), program_name())),
    }
}

/// The first word of `version` once a leading run of `v` is set aside, or
/// `version` itself where no word is left.
pub open spec fn clean_version(version: Seq<char>) -> Seq<char> {
    let ws = words(strip_leading(version, 'v'));
    if ws.len() > 0 {
        ws[0]
    } else {
        version
    }
}

/// A version that stands in a word starts with a digit, so it is never
/// empty.
pub proof fn lemma_version_in_words_nonempty(ws: Seq<Seq<char>>, i: int, strip_v: bool)
    ensures
        version_in_words(ws, i, strip_v) matches Some(v) ==> v.len() > 0 && is_digit(v[0]),
    decreases ws.len() - i,
{
    if i < 0 || i >= ws.len() {
    } else if contains(ws[i], program_name()) {
        lemma_version_in_words_nonempty(ws, i + 1, strip_v);
    } else {
        let word = if strip_v {
            strip_leading(ws[i], 'v')
        } else {
            ws[i]
        };
        if word.len() > 0 && is_digit(word[0]) {
            lemma_version_end_bounds(word, 0);
        } else {
            lemma_version_in_words_nonempty(ws, i + 1, strip_v);
        }
    }
}

/// The normal form of a text that is not empty is not empty.
pub proof fn lemma_normalized_nonempty(raw: Seq<char>)
    requires
        raw.len() > 0,
    ensures
        normalized(raw).len() > 0,
{
    lemma_version_in_words_nonempty(words(raw), 0, true);
}

fn find_version(ws: &Vec<Vec<char>>, strip_v: bool) -> (found: Option<Vec<char>>)
    ensures
        match found {
            Some(v) => version_in_words(rows(ws@), 0, strip_v) == Some(v@),
            None => version_in_words(rows(ws@), 0, strip_v) is None,
        },
{
    let name = chars_of("pandoc");
    let mut i: usize = 0;
    while i < ws.len()
        invariant
            i <= ws.len(),
            name@ == program_name(),
            version_in_words(rows(ws@), i as int, strip_v) == version_in_words(
                rows(ws@),
                0,
                strip_v,
            ),
        decreases ws.len() - i,
    {
        assert(rows(ws@)[i as int] == ws@[i as int]@);
        if !includes(&ws[i], &name) {
            if strip_v {
                let word = stripped_leading(&ws[i], 'v');
                if word.len() > 0 && char_is_digit(word[0]) {
                    return Some(take_version_prefix(&word));
                }
            } else {
                if ws[i].len() > 0 && char_is_digit(ws[i][0]) {
                    return Some(take_version_prefix(&ws[i]));
                }
            }
        }
        i += 1;
    }
    None
}

fn bare(s: &Vec<char>) -> (out: Vec<char>)
    ensures
        out@ == bare_text(s@),
{
    let file_name = chars_of("pandoc.exe");
    let name = chars_of("pandoc");
    let t = trimmed(s);
    let a = without(&t, &file_name);
    let b = without(&a, &name);
    let c = trimmed(&b);
    let d = stripped_leading(&c, 'v');
    trimmed(&d)
}

/// The normal form of a version text, by which two versions are compared.
/// It is not empty unless the text is.
pub fn normalize_version(version_str: &str) -> (version: String)
    ensures
        version@ == normalized(version_str@),
        version_str@.len() > 0 ==> version@.len() > 0,
{
    let chars = chars_of(version_str);
    let ws = split_words(&chars);
    proof {
        lemma_version_in_words_nonempty(words(version_str@), 0, true);
    }
    match find_version(&ws, true) {
        Some(v) => text_of(&v),
        None => {
            let cleaned = bare(&chars);
            if cleaned.len() > 0 {
                text_of(&cleaned)
            } else {
                let text = trimmed(&chars);
                if text.len() > 0 {
                    text_of(&text)
                } else {
                    text_of(&chars)
                }
            }
        },
    }
}

/// The version number in a version line.
pub fn extract_version_number(version_str: &str) -> (version: String)
    ensures
        version@ == version_number(version_str@),
{
    let chars = chars_of(version_str);
    let ws = split_words(&chars);
    match find_version(&ws, false) {
        Some(v) => text_of(&v),
        None => {
            let cleaned = bare(&chars);
            if cleaned.len() > 0 {
                text_of(&cleaned)
            } else {
                String::from_str("Unknown")
            }
        },
    }
}

/// The version in the output of a version probe.
pub fn extract_version_from_output(output: &str) -> (version: String)
    ensures
        version@ == version_of_output(output@),
{
    let all = chars_of(output);
    let line = if all.len() == 0 {
        chars_of("Unknown")
    } else {
        let e = find_line_end(&all, 0);
        copy_range(&all, 0, e)
    };
    let ws = split_words(&line);
    match find_version(&ws, false) {
        Some(v) => text_of(&v),
        None => {
            let file_name = chars_of("pandoc.exe");
            let name = chars_of("pandoc");
            let a = without(&line, &file_name);
            let b = without(&a, &name);
            text_of(&trimmed(&b))
        },
    }
}

/// The first word of a version text, without a leading `v`.
pub fn extract_clean_version(version: &str) -> (clean: String)
    ensures
        clean@ == clean_version(version@),
{
    let chars = chars_of(version);
    let rest = stripped_leading(&chars, 'v');
    let ws = split_words(&rest);
    if ws.len() > 0 {
        assert(rows(ws@)[0] == ws@[0]@);
        text_of(&ws[0])
    } else {
        text_of(&chars)
    }
}

/// Whether the registry offers another version than the current one: the
/// two are compared in normal form, as texts. Without a current version
/// there is always one to get.
pub open spec fn update_offered(current: Option<Seq<char>>, latest: Seq<char>) -> bool {
    match current {
        Some(c) => normalized(c) != normalized(latest),
        None => true,
    }
}

/// Whether the registry offers another version than the current one.
pub fn check_update_available(current: Option<&str>, latest: &str) -> (offered: bool)
    ensures
        offered == update_offered(
            match current {
                Some(c) => Some(c@),
                None => None,
            },
            latest@,
        ),
{
    match current {
        Some(c) => {
            let a = normalize_version(c);
            let b = normalize_version(latest);
            !same_text(a.as_str(), b.as_str())
        },
        None => true,
    }
}

/// The same version never counts as an update of itself.
pub proof fn lemma_no_update_to_same_version(current: Seq<char>, latest: Seq<char>)
    requires
        normalized(current) == normalized(latest),
    ensures
        !update_offered(Some(current), latest),
{
}

} // verus!
