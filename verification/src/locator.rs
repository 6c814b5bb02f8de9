//! Where an executable of the converter may be: the search paths of each
//! platform, the places below a managed directory, and which of the
//! candidates wins.

use vstd::prelude::*;
use vstd::string::*;
use vstd::utf8::{decode_utf8, valid_utf8};
use crate::error::{ErrorKind, ToolError};
use crate::probe::{utf8_text, CommandOutput};
use crate::text::{
    chars_of, followed_by, copy_range, find_line_end, line_end, same_text, text_of, trim, trimmed,
};

verus! {

/// The values of the environment that the search paths are built from,
/// each missing where the variable is not set.
#[derive(Clone, Debug, PartialEq, Eq)]
pub struct SearchEnvironment {
    /// `HOME`.
    pub home: Option<String>,
    /// `USERPROFILE`.
    pub user_profile: Option<String>,
    /// `ChocolateyInstall`.
    pub chocolatey_install: Option<String>,
    /// `CONDA_PREFIX`.
    pub conda_prefix: Option<String>,
}

/// `root` followed by each of `tails`, where there is a root.
pub open spec fn below(root: Option<Seq<char>>, tails: Seq<Seq<char>>) -> Seq<Seq<char>> {
    match root {
        Some(r) => Seq::new(tails.len(), |k: int| r + tails[k]),
        None => Seq::empty(),
    }
}

/// The places on Windows where the converter is commonly installed: below
/// the user's profile, in the program directories, and below the roots of
/// Chocolatey and Conda.
pub open spec fn windows_paths(
    user_profile: Option<Seq<char>>,
    chocolatey_install: Option<Seq<char>>,
    conda_prefix: Option<Seq<char>>,
) -> Seq<Seq<char>> {
    below(
        user_profile,
        seq![
            "\\AppData\\Roaming\\pandoc\\pandoc.exe"@,
            "\\AppData\\Local\\pandoc\\pandoc.exe"@,
            "\\AppData\\Local\\Pandoc\\pandoc.exe"@,
            "\\scoop\\apps\\pandoc\\current\\pandoc.exe"@,
        ],
    ) + seq![
        "C:\\Program Files\\Pandoc\\pandoc.exe"@,
        "C:\\Program Files (x86)\\Pandoc\\pandoc.exe"@,
    ] + below(chocolatey_install, seq!["\\bin\\pandoc.exe"@]) + below(
        conda_prefix,
        seq!["\\Scripts\\pandoc.exe"@, "\\bin\\pandoc.exe"@],
    )
}

/// The places on macOS where the converter is commonly installed: those of
/// Homebrew, those below the user's home, and the system's.
pub open spec fn macos_paths(home: Option<Seq<char>>) -> Seq<Seq<char>> {
    seq!["/usr/local/bin/pandoc"@, "/opt/homebrew/bin/pandoc"@] + below(
        home,
        seq!["/Library/Haskell/bin/pandoc"@, "/.local/bin/pandoc"@, "/.cabal/bin/pandoc"@],
    ) + seq!["/usr/bin/pandoc"@, "/usr/local/bin/pandoc"@]
}

/// The places on Linux where the converter is commonly installed: the
/// system's, and those below the user's home.
pub open spec fn linux_paths(home: Option<Seq<char>>) -> Seq<Seq<char>> {
    seq!["/usr/bin/pandoc"@, "/usr/local/bin/pandoc"@] + below(
        home,
        seq!["/.local/bin/pandoc"@, "/.cabal/bin/pandoc"@],
    )
}

fn push_below(paths: &mut Vec<String>, root: &Option<String>, tails: Vec<&'static str>)
    ensures
        final(paths).deep_view() == old(paths).deep_view() + below(
            root.deep_view(),
            crate::probe::slice_texts(tails@),
        ),
{
    let ghost before = paths.deep_view();
    match root {
        Some(r) => {
            let mut i: usize = 0;
            while i < tails.len()
                invariant
                    i <= tails.len(),
                    paths.len() == before.len() + i,
                    forall|k: int| 0 <= k < before.len() ==> paths@[k]@ == before[k],
                    forall|k: int| 0 <= k < i ==> paths@[before.len() + k]@ == r@ + tails@[k]@,
                decreases tails.len() - i,
            {
                paths.push(followed_by(r.as_str(), tails[i]));
                i += 1;
            }
            assert(paths.deep_view() =~= before + below(
                root.deep_view(),
                crate::probe::slice_texts(tails@),
            ));
        },
        None => {
            assert(paths.deep_view() =~= before + Seq::<Seq<char>>::empty());
        },
    }
}

fn push_all(paths: &mut Vec<String>, items: Vec<&'static str>)
    ensures
        final(paths).deep_view() == old(paths).deep_view() + crate::probe::slice_texts(items@),
{
    let ghost before = paths.deep_view();
    let mut i: usize = 0;
    while i < items.len()
        invariant
            i <= items.len(),
            paths.len() == before.len() + i,
            forall|k: int| 0 <= k < before.len() ==> paths@[k]@ == before[k],
            forall|k: int| 0 <= k < i ==> paths@[before.len() + k]@ == items@[k]@,
        decreases items.len() - i,
    {
        paths.push(String::from_str(items[i]));
        i += 1;
    }
    assert(paths.deep_view() =~= before + crate::probe::slice_texts(items@));
}

/// The places on Windows where the converter is commonly installed.
pub fn get_windows_common_paths(env: &SearchEnvironment) -> (paths: Vec<String>)
    ensures
        paths.deep_view() == windows_paths(
            env.user_profile.deep_view(),
            env.chocolatey_install.deep_view(),
            env.conda_prefix.deep_view(),
        ),
{
    let mut paths: Vec<String> = Vec::new();
    assert(paths.deep_view() =~= Seq::<Seq<char>>::empty());
    let t1 = vec![
        "\\AppData\\Roaming\\pandoc\\pandoc.exe",
        "\\AppData\\Local\\pandoc\\pandoc.exe",
        "\\AppData\\Local\\Pandoc\\pandoc.exe",
        "\\scoop\\apps\\pandoc\\current\\pandoc.exe",
    ];
    let t2 = vec!["C:\\Program Files\\Pandoc\\pandoc.exe", "C:\\Program Files (x86)\\Pandoc\\pandoc.exe"];
    let t3 = vec!["\\bin\\pandoc.exe"];
    let t4 = vec!["\\Scripts\\pandoc.exe", "\\bin\\pandoc.exe"];
    proof {
        assert(crate::probe::slice_texts(t1@) =~= seq![
            "\\AppData\\Roaming\\pandoc\\pandoc.exe"@,
            "\\AppData\\Local\\pandoc\\pandoc.exe"@,
            "\\AppData\\Local\\Pandoc\\pandoc.exe"@,
            "\\scoop\\apps\\pandoc\\current\\pandoc.exe"@,
        ]);
        assert(crate::probe::slice_texts(t2@) =~= seq![
            "C:\\Program Files\\Pandoc\\pandoc.exe"@,
            "C:\\Program Files (x86)\\Pandoc\\pandoc.exe"@,
        ]);
        assert(crate::probe::slice_texts(t3@) =~= seq!["\\bin\\pandoc.exe"@]);
        assert(crate::probe::slice_texts(t4@) =~= seq![
            "\\Scripts\\pandoc.exe"@,
            "\\bin\\pandoc.exe"@,
        ]);
    }
    push_below(&mut paths, &env.user_profile, t1);
    push_all(&mut paths, t2);
    push_below(&mut paths, &env.chocolatey_install, t3);
    push_below(&mut paths, &env.conda_prefix, t4);
    assert(paths.deep_view() =~= windows_paths(
        env.user_profile.deep_view(),
        env.chocolatey_install.deep_view(),
        env.conda_prefix.deep_view(),
    ));
    paths
}

/// The places on macOS where the converter is commonly installed.
pub fn get_macos_common_paths(env: &SearchEnvironment) -> (paths: Vec<String>)
    ensures
        paths.deep_view() == macos_paths(env.home.deep_view()),
{
    let mut paths: Vec<String> = Vec::new();
    assert(paths.deep_view() =~= Seq::<Seq<char>>::empty());
    let t1 = vec!["/usr/local/bin/pandoc", "/opt/homebrew/bin/pandoc"];
    let t2 = vec!["/Library/Haskell/bin/pandoc", "/.local/bin/pandoc", "/.cabal/bin/pandoc"];
    let t3 = vec!["/usr/bin/pandoc", "/usr/local/bin/pandoc"];
    proof {
        assert(crate::probe::slice_texts(t1@) =~= seq![
            "/usr/local/bin/pandoc"@,
            "/opt/homebrew/bin/pandoc"@,
        ]);
        assert(crate::probe::slice_texts(t2@) =~= seq![
            "/Library/Haskell/bin/pandoc"@,
            "/.local/bin/pandoc"@,
            "/.cabal/bin/pandoc"@,
        ]);
        assert(crate::probe::slice_texts(t3@) =~= seq![
            "/usr/bin/pandoc"@,
            "/usr/local/bin/pandoc"@,
        ]);
    }
    push_all(&mut paths, t1);
    push_below(&mut paths, &env.home, t2);
    push_all(&mut paths, t3);
    assert(paths.deep_view() =~= macos_paths(env.home.deep_view()));
    paths
}

/// The places on Linux where the converter is commonly installed.
pub fn get_linux_common_paths(env: &SearchEnvironment) -> (paths: Vec<String>)
    ensures
        paths.deep_view() == linux_paths(env.home.deep_view()),
{
    let mut paths: Vec<String> = Vec::new();
    assert(paths.deep_view() =~= Seq::<Seq<char>>::empty());
    let t1 = vec!["/usr/bin/pandoc", "/usr/local/bin/pandoc"];
    let t2 = vec!["/.local/bin/pandoc", "/.cabal/bin/pandoc"];
    proof {
        assert(crate::probe::slice_texts(t1@) =~= seq![
            "/usr/bin/pandoc"@,
            "/usr/local/bin/pandoc"@,
        ]);
        assert(crate::probe::slice_texts(t2@) =~= seq!["/.local/bin/pandoc"@, "/.cabal/bin/pandoc"@]);
    }
    push_all(&mut paths, t1);
    push_below(&mut paths, &env.home, t2);
    assert(paths.deep_view() =~= linux_paths(env.home.deep_view()));
    paths
}

/// What a lookup of the program on the search path of the shell shows: the
/// first line of what the lookup printed, without the white space around
/// it. A lookup that could not run or did not succeed found nothing, and
/// one that printed no valid text could not be read.
pub open spec fn path_lookup(run: Result<CommandOutput, String>) -> Result<
    Seq<char>,
    (ErrorKind, Seq<char>),
> {
    match run {
        Ok(output) => if !output.success {
            Err((ErrorKind::NotFound, "Not found in PATH"@))
        } else if !valid_utf8(output.stdout@) {
            Err((ErrorKind::IoError, "Failed to read path output"@))
        } else {
            let text = decode_utf8(output.stdout@);
            Ok(trim(text.subrange(0, line_end(text, 0))))
        },
        Err(_) => Err((ErrorKind::NotFound, "Not found in PATH"@)),
    }
}

/// Where the program is on the search path of the shell, from the run of
/// the lookup.
pub fn get_path_pandoc_internal(lookup: &Result<CommandOutput, String>) -> (found: Result<
    String,
    ToolError,
>)
    ensures
        match found {
            Ok(path) => path_lookup(*lookup) == Ok::<Seq<char>, (ErrorKind, Seq<char>)>(path@),
            Err(e) => path_lookup(*lookup) == Err::<Seq<char>, (ErrorKind, Seq<char>)>(
                (e.kind, e.message@),
            ),
        },
{
    match lookup {
        Ok(output) => {
            if !output.success {
                Err(ToolError::new(ErrorKind::NotFound, String::from_str("Not found in PATH")))
            } else {
                match utf8_text(output.stdout.clone()) {
                    None => Err(
                        ToolError::new(
                            ErrorKind::IoError,
                            String::from_str("Failed to read path output"),
                        ),
                    ),
                    Some(text) => {
                        let chars = chars_of(text.as_str());
                        let e = find_line_end(&chars, 0);
                        let line = copy_range(&chars, 0, e);
                        Ok(text_of(&trimmed(&line)))
                    },
                }
            }
        },
        Err(_) => Err(ToolError::new(ErrorKind::NotFound, String::from_str("Not found in PATH"))),
    }
}

/// `acc`, followed by each of `items` from index `i` on that is not yet in
/// the list when its turn comes.
pub open spec fn add_new(acc: Seq<Seq<char>>, items: Seq<Seq<char>>, i: int) -> Seq<Seq<char>>
    decreases items.len() - i,
{
    if i < 0 || i >= items.len() {
        acc
    } else if acc.contains(items[i]) {
        add_new(acc, items, i + 1)
    } else {
        add_new(acc.push(items[i]), items, i + 1)
    }
}

/// Adding what is new keeps a list free of duplicates so, keeps what it
/// held at its start, and leaves none of the items out.
pub proof fn lemma_add_new(acc: Seq<Seq<char>>, items: Seq<Seq<char>>, i: int)
    requires
        0 <= i <= items.len(),
    ensures
        acc.no_duplicates() ==> add_new(acc, items, i).no_duplicates(),
        add_new(acc, items, i).len() >= acc.len(),
        add_new(acc, items, i).subrange(0, acc.len() as int) == acc,
        forall|k: int| i <= k < items.len() ==> add_new(acc, items, i).contains(#[trigger] items[k]),
        forall|p: Seq<char>| #[trigger]
            add_new(acc, items, i).contains(p) ==> acc.contains(p) || exists|k: int|
                i <= k < items.len() && items[k] == p,
    decreases items.len() - i,
{
    if i >= items.len() {
        assert(acc.subrange(0, acc.len() as int) =~= acc);
    } else {
        let next = if acc.contains(items[i]) {
            acc
        } else {
            acc.push(items[i])
        };
        lemma_add_new(next, items, i + 1);
        let out = add_new(acc, items, i);
        assert(out == add_new(next, items, i + 1));
        assert(out.subrange(0, acc.len() as int) =~= out.subrange(0, next.len() as int).subrange(
            0,
            acc.len() as int,
        ));
        assert(next.subrange(0, acc.len() as int) =~= acc);
        assert(next.contains(items[i])) by {
            if !acc.contains(items[i]) {
                assert(next[acc.len() as int] == items[i]);
            }
        }
        let w = choose|w: int| 0 <= w < next.len() && next[w] == items[i];
        assert(out.contains(items[i])) by {
            assert(out.subrange(0, next.len() as int)[w] == out[w]);
        }
        assert forall|p: Seq<char>| #[trigger] out.contains(p) implies acc.contains(p) || exists|
            k: int,
        |
            i <= k < items.len() && items[k] == p by {
            if next.contains(p) {
                if !acc.contains(p) {
                    let v = choose|v: int| 0 <= v < next.len() && next[v] == p;
                    assert(v == acc.len());
                    assert(items[i] == p);
                }
            } else {
                let k = choose|k: int| i + 1 <= k < items.len() && items[k] == p;
                assert(i <= k < items.len() && items[k] == p);
            }
        }
        if acc.no_duplicates() {
            assert(next.no_duplicates());
        }
    }
}

/// Whether `list` holds the text `t`.
pub fn holds_text(list: &Vec<String>, t: &str) -> (held: bool)
    ensures
        held == list.deep_view().contains(t@),
{
    let mut i: usize = 0;
    while i < list.len()
        invariant
            i <= list.len(),
            forall|k: int| 0 <= k < i ==> list.deep_view()[k] != t@,
        decreases list.len() - i,
    {
        assert(list.deep_view()[i as int] == list@[i as int]@);
        if same_text(list[i].as_str(), t) {
            return true;
        }
        i += 1;
    }
    false
}

/// The places to search on `os`: what the lookup on the search path of the
/// shell found, then the places where the converter is commonly installed,
/// each listed once.
pub open spec fn search_path_list(
    os: Seq<char>,
    lookup: Result<CommandOutput, String>,
    env: SearchEnvironment,
) -> Seq<Seq<char>> {
    let first = match path_lookup(lookup) {
        Ok(p) => seq![p],
        Err(_) => Seq::empty(),
    };
    let common = if os == "windows"@ {
        windows_paths(
            env.user_profile.deep_view(),
            env.chocolatey_install.deep_view(),
            env.conda_prefix.deep_view(),
        )
    } else if os == "macos"@ {
        macos_paths(env.home.deep_view())
    } else {
        linux_paths(env.home.deep_view())
    };
    add_new(first, common, 0)
}

/// The places to search for the converter on `os`, in the order in which
/// they are tried. No place is listed twice, and what the lookup found
/// comes first.
pub fn get_search_paths(
    os: &str,
    lookup: &Result<CommandOutput, String>,
    env: &SearchEnvironment,
) -> (paths: Vec<String>)
    ensures
        paths.deep_view() == search_path_list(os@, *lookup, *env),
        paths.deep_view().no_duplicates(),
        path_lookup(*lookup) matches Ok(p) ==> paths.len() > 0 && paths.deep_view()[0] == p,
{
    let mut paths: Vec<String> = Vec::new();
    match get_path_pandoc_internal(lookup) {
        Ok(p) => {
            paths.push(p);
            assert(paths.deep_view() =~= seq![p@]);
        },
        Err(_) => {
            assert(paths.deep_view() =~= Seq::<Seq<char>>::empty());
        },
    }
    let common = if same_text(os, "windows") {
        get_windows_common_paths(env)
    } else if same_text(os, "macos") {
        get_macos_common_paths(env)
    } else {
        get_linux_common_paths(env)
    };
    let ghost first = paths.deep_view();
    proof {
        lemma_add_new(first, common.deep_view(), 0);
        if first.len() > 0 {
            let all = add_new(first, common.deep_view(), 0);
            assert(all.subrange(0, first.len() as int)[0] == all[0]);
        }
    }
    let mut i: usize = 0;
    while i < common.len()
        invariant
            i <= common.len(),
            add_new(paths.deep_view(), common.deep_view(), i as int) == add_new(
                first,
                common.deep_view(),
                0,
            ),
        decreases common.len() - i,
    {
        assert(common.deep_view()[i as int] == common@[i as int]@);
        if !holds_text(&paths, common[i].as_str()) {
            let ghost before = paths.deep_view();
            paths.push(common[i].clone());
            assert(paths.deep_view() =~= before.push(common@[i as int]@));
        }
        i += 1;
    }
    paths
}

/// Whether a path holds an executable of the converter that works: the
/// file is there, and the version probe could be started and exited
/// successfully.
pub open spec fn probe_succeeded(exists: bool, probe: Result<CommandOutput, String>) -> bool {
    exists && (probe matches Ok(output) && output.success)
}

/// Whether a path holds an executable of the converter that works, from
/// whether the file is there and from the run of the version probe. No
/// failure of the probe is an error: each makes the path invalid.
pub fn validate_pandoc_executable(exists: bool, probe: &Result<CommandOutput, String>) -> (valid:
    bool)
    ensures
        valid == probe_succeeded(exists, *probe),
{
    if !exists {
        return false;
    }
    match probe {
        Ok(output) => output.success,
        Err(_) => false,
    }
}

/// Whether the typesetter's executable works, from the run of its version
/// probe.
pub fn validate_typst_executable(probe: &Result<CommandOutput, String>) -> (valid: bool)
    ensures
        valid == probe_succeeded(true, *probe),
{
    match probe {
        Ok(output) => output.success,
        Err(_) => false,
    }
}

/// A place that was searched, and whether it holds an executable that
/// works.
#[derive(Clone, Debug, PartialEq, Eq)]
pub struct ProbedPath {
    pub path: String,
    pub valid: bool,
}

/// `acc`, followed by the path of each candidate from index `i` on that is
/// valid and not yet in the list when its turn comes.
pub open spec fn add_valid(acc: Seq<Seq<char>>, candidates: Seq<ProbedPath>, i: int) -> Seq<Seq<char>>
    decreases candidates.len() - i,
{
    if i < 0 || i >= candidates.len() {
        acc
    } else if candidates[i].valid && !acc.contains(candidates[i].path@) {
        add_valid(acc.push(candidates[i].path@), candidates, i + 1)
    } else {
        add_valid(acc, candidates, i + 1)
    }
}

/// The index of the first valid candidate from `i` on.
pub open spec fn first_valid(candidates: Seq<ProbedPath>, i: int) -> Option<int>
    decreases candidates.len() - i,
{
    if i < 0 || i >= candidates.len() {
        None
    } else if candidates[i].valid {
        Some(i)
    } else {
        first_valid(candidates, i + 1)
    }
}

/// The installations that were found: the paths of the valid candidates in
/// the order of the search, each once.
pub fn find_all_pandoc_paths(candidates: &Vec<ProbedPath>) -> (paths: Vec<String>)
    ensures
        paths.deep_view() == add_valid(Seq::empty(), candidates@, 0),
{
    let mut paths: Vec<String> = Vec::new();
    assert(paths.deep_view() =~= Seq::<Seq<char>>::empty());
    let mut i: usize = 0;
    while i < candidates.len()
        invariant
            i <= candidates.len(),
            add_valid(paths.deep_view(), candidates@, i as int) == add_valid(
                Seq::empty(),
                candidates@,
                0,
            ),
        decreases candidates.len() - i,
    {
        if candidates[i].valid && !holds_text(&paths, candidates[i].path.as_str()) {
            let ghost before = paths.deep_view();
            paths.push(candidates[i].path.clone());
            assert(paths.deep_view() =~= before.push(candidates@[i as int].path@));
        }
        i += 1;
    }
    paths
}

/// The first place that holds an executable that works, in the order of
/// the search: of two valid places the earlier one wins, whatever their
/// paths are.
pub fn find_first_valid(candidates: &Vec<ProbedPath>) -> (found: Option<String>)
    ensures
        match found {
            Some(path) => first_valid(candidates@, 0) matches Some(k) && path@
                == candidates@[k].path@,
            None => first_valid(candidates@, 0) is None,
        },
{
    let mut i: usize = 0;
    while i < candidates.len()
        invariant
            i <= candidates.len(),
            first_valid(candidates@, i as int) == first_valid(candidates@, 0),
        decreases candidates.len() - i,
    {
        if candidates[i].valid {
            return Some(candidates[i].path.clone());
        }
        i += 1;
    }
    None
}

/// The first valid place is the first of the installations that were
/// found.
pub proof fn lemma_first_valid_heads_the_list(
    acc: Seq<Seq<char>>,
    candidates: Seq<ProbedPath>,
    i: int,
)
    requires
        0 <= i <= candidates.len(),
    ensures
        add_valid(acc, candidates, i).len() >= acc.len(),
        add_valid(acc, candidates, i).subrange(0, acc.len() as int) == acc,
        acc.len() == 0 ==> match first_valid(candidates, i) {
            Some(k) => add_valid(acc, candidates, i).len() > 0 && add_valid(acc, candidates, i)[0]
                == candidates[k].path@,
            None => add_valid(acc, candidates, i).len() == 0,
        },
    decreases candidates.len() - i,
{
    if i >= candidates.len() {
        assert(acc.subrange(0, acc.len() as int) =~= acc);
    } else if candidates[i].valid && !acc.contains(candidates[i].path@) {
        let next = acc.push(candidates[i].path@);
        lemma_first_valid_heads_the_list(next, candidates, i + 1);
        let out = add_valid(acc, candidates, i);
        assert(out.subrange(0, acc.len() as int) =~= out.subrange(0, next.len() as int).subrange(
            0,
            acc.len() as int,
        ));
        assert(next.subrange(0, acc.len() as int) =~= acc);
        if acc.len() == 0 {
            assert(out.subrange(0, next.len() as int)[0] == out[0]);
        }
    } else {
        lemma_first_valid_heads_the_list(acc, candidates, i + 1);
    }
}

/// What one directory below a managed directory holds.
#[derive(Clone, Debug, PartialEq, Eq)]
pub struct SubdirSnapshot {
    /// The directory's name.
    pub name: String,
    /// Whether the executable lies in it.
    pub has_executable: bool,
    /// Whether the executable lies in its `bin` directory.
    pub has_bin_executable: bool,
}

/// What a managed directory holds.
#[derive(Clone, Debug, PartialEq, Eq)]
pub struct DirectorySnapshot {
    /// Whether the directory is there.
    pub exists: bool,
    /// Whether the executable lies in it.
    pub has_executable: bool,
    /// Whether the executable lies in its `bin` directory.
    pub has_bin_executable: bool,
    /// The directories in it, in the order in which they were listed.
    pub subdirs: Vec<SubdirSnapshot>,
}

/// Where the executable `exe` lies in the directories from index `i` on,
/// as the parts of a path: in the first directory that holds it, itself
/// before its `bin` directory.
pub open spec fn location_in_subdirs(subdirs: Seq<SubdirSnapshot>, exe: Seq<char>, i: int) -> Option<
    Seq<Seq<char>>,
>
    decreases subdirs.len() - i,
{
    if i < 0 || i >= subdirs.len() {
        None
    } else if subdirs[i].has_executable {
        Some(seq![subdirs[i].name@, exe])
    } else if subdirs[i].has_bin_executable {
        Some(seq![subdirs[i].name@, "bin"@, exe])
    } else {
        location_in_subdirs(subdirs, exe, i + 1)
    }
}

/// Where the executable `exe` lies below a managed directory, as the parts
/// of a path relative to it: in the directory itself, else in its `bin`
/// directory, else one level further down. Archives differ in whether they
/// hold the executable at their root or in a directory named after the
/// version.
pub open spec fn location_in(dir: DirectorySnapshot, exe: Seq<char>) -> Option<Seq<Seq<char>>> {
    if !dir.exists {
        None
    } else if dir.has_executable {
        Some(seq![exe])
    } else if dir.has_bin_executable {
        Some(seq!["bin"@, exe])
    } else {
        location_in_subdirs(dir.subdirs@, exe, 0)
    }
}

fn path_of(parts: Vec<&str>) -> (out: Vec<String>)
    ensures
        out.deep_view() == Seq::new(parts@.len(), |k: int| parts@[k]@),
{
    let mut out: Vec<String> = Vec::new();
    let mut i: usize = 0;
    while i < parts.len()
        invariant
            i <= parts.len(),
            out.len() == i,
            forall|k: int| 0 <= k < i ==> out@[k]@ == parts@[k]@,
        decreases parts.len() - i,
    {
        out.push(String::from_str(parts[i]));
        i += 1;
    }
    assert(out.deep_view() =~= Seq::new(parts@.len(), |k: int| parts@[k]@));
    out
}

/// Where the executable `exe_name` lies below a managed directory, as the
/// parts of a path relative to it. The first place that holds it wins.
pub fn find_pandoc_in_directory(dir: &DirectorySnapshot, exe_name: &str) -> (found: Option<
    Vec<String>,
>)
    ensures
        found.deep_view() == location_in(*dir, exe_name@),
{
    if !dir.exists {
        return None;
    }
    if dir.has_executable {
        let parts = path_of(vec![exe_name]);
        assert(parts.deep_view() =~= seq![exe_name@]);
        return Some(parts);
    }
    if dir.has_bin_executable {
        let parts = path_of(vec!["bin", exe_name]);
        assert(parts.deep_view() =~= seq!["bin"@, exe_name@]);
        return Some(parts);
    }
    let mut i: usize = 0;
    while i < dir.subdirs.len()
        invariant
            i <= dir.subdirs.len(),
            dir.exists && !dir.has_executable && !dir.has_bin_executable,
            location_in_subdirs(dir.subdirs@, exe_name@, i as int) == location_in_subdirs(
                dir.subdirs@,
                exe_name@,
                0,
            ),
        decreases dir.subdirs.len() - i,
    {
        let sub = &dir.subdirs[i];
        if sub.has_executable {
            let parts = path_of(vec![sub.name.as_str(), exe_name]);
            assert(parts.deep_view() =~= seq![sub.name@, exe_name@]);
            return Some(parts);
        }
        if sub.has_bin_executable {
            let parts = path_of(vec![sub.name.as_str(), "bin", exe_name]);
            assert(parts.deep_view() =~= seq![sub.name@, "bin"@, exe_name@]);
            return Some(parts);
        }
        i += 1;
    }
    None
}

/// The two managed directories.
#[derive(Clone, Copy, Debug, PartialEq, Eq, Structural)]
pub enum ManagedRoot {
    /// The directory `pandoc` among the application's resources, filled
    /// when the application was built.
    Bundled,
    /// The directory `pandoc-portable` among the user's application data,
    /// filled by a download.
    Portable,
}

/// The name of a managed directory below its root.
pub open spec fn managed_directory_name(root: ManagedRoot) -> Seq<char> {
    match root {
        ManagedRoot::Bundled => "pandoc"@,
        ManagedRoot::Portable => "pandoc-portable"@,
    }
}

/// The name of a managed directory below its root.
pub fn managed_directory(root: ManagedRoot) -> (name: String)
    ensures
        name@ == managed_directory_name(root),
{
    match root {
        ManagedRoot::Bundled => String::from_str("pandoc"),
        ManagedRoot::Portable => String::from_str("pandoc-portable"),
    }
}

/// Where the managed executable lies: in which of the two directories, and
/// by which path below it.
#[derive(Clone, Debug, PartialEq, Eq)]
pub struct ManagedLocation {
    pub root: ManagedRoot,
    pub relative: Vec<String>,
}

/// Where the managed executable lies: in the bundled directory where that
/// holds it, else in the portable one. A directory whose root could not
/// be resolved is passed over.
pub open spec fn managed_location(
    bundled: Option<DirectorySnapshot>,
    portable: Option<DirectorySnapshot>,
    exe: Seq<char>,
) -> Option<(ManagedRoot, Seq<Seq<char>>)> {
    let in_bundled = match bundled {
        Some(dir) => location_in(dir, exe),
        None => None,
    };
    let in_portable = match portable {
        Some(dir) => location_in(dir, exe),
        None => None,
    };
    match in_bundled {
        Some(parts) => Some((ManagedRoot::Bundled, parts)),
        None => match in_portable {
            Some(parts) => Some((ManagedRoot::Portable, parts)),
            None => None,
        },
    }
}

/// Where the managed executable `exe_name` lies, from what the bundled and
/// the portable directory hold.
pub fn get_managed_pandoc_path(
    bundled: &Option<DirectorySnapshot>,
    portable: &Option<DirectorySnapshot>,
    exe_name: &str,
) -> (found: Option<ManagedLocation>)
    ensures
        match found {
            Some(place) => managed_location(*bundled, *portable, exe_name@) == Some(
                (place.root, place.relative.deep_view()),
            ),
            None => managed_location(*bundled, *portable, exe_name@) is None,
        },
{
    match bundled {
        Some(dir) => {
            match find_pandoc_in_directory(dir, exe_name) {
                Some(relative) => {
                    return Some(ManagedLocation { root: ManagedRoot::Bundled, relative });
                },
                None => {},
            }
        },
        None => {},
    }
    match portable {
        Some(dir) => {
            match find_pandoc_in_directory(dir, exe_name) {
                Some(relative) => {
                    return Some(ManagedLocation { root: ManagedRoot::Portable, relative });
                },
                None => {},
            }
        },
        None => {},
    }
    None
}

} // verus!
