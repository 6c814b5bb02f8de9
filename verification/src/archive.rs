//! Extraction of release archives: which format a file name stands for,
//! and the steps by which the content of an archive is laid out below a
//! target directory. The steps are data; whoever holds the file system
//! carries them out in order.

use vstd::prelude::*;
use vstd::string::*;
use crate::codec::{
    decode_xz, gunzip, gzip_decoded, xz_decoded, xz_overflows, xz_refusal, zip_entries, zip_entry,
    zip_len, zip_listing, zip_open, ZipEntry, ZipEntryView,
};
use crate::error::{ErrorKind, ToolError};
use crate::text::{
    chars_of, copy_range, ends_with, includes_at, starts_with, str_ends_with, text_of,
};

verus! {

/// The archive formats that can be extracted.
#[derive(Clone, Copy, Debug, PartialEq, Eq, Structural)]
pub enum ArchiveFormat {
    Zip,
    TarGz,
    TarXz,
}

/// The index of the last dot of `s` before index `j`, or -1 where there is
/// none.
pub open spec fn last_dot(s: Seq<char>, j: int) -> int
    decreases j,
{
    if j <= 0 || j > s.len() {
        -1
    } else if s[j - 1] == '.' {
        j - 1
    } else {
        last_dot(s, j - 1)
    }
}

/// The extension of a file name: what follows its last dot. A name without
/// a dot has none, nor has one whose only dot is its first character, nor
/// the name `..`.
pub open spec fn extension(file_name: Seq<char>) -> Option<Seq<char>> {
    let dot = last_dot(file_name, file_name.len() as int);
    if dot <= 0 || file_name == ".."@ {
        None
    } else {
        Some(file_name.subrange(dot + 1, file_name.len() as int))
    }
}

/// The format that a file name stands for: a gzip-compressed tar archive
/// by the ending `.tar.gz`, an XZ-compressed one by the ending `.tar.xz`,
/// and a zip archive by the extension `zip`. Every other name stands for
/// none.
pub open spec fn format_of(file_name: Seq<char>) -> Option<ArchiveFormat> {
    if ends_with(file_name, ".tar.gz"@) {
        Some(ArchiveFormat::TarGz)
    } else if ends_with(file_name, ".tar.xz"@) {
        Some(ArchiveFormat::TarXz)
    } else if extension(file_name) == Some("zip"@) {
        Some(ArchiveFormat::Zip)
    } else {
        None
    }
}

/// The text of the error for a file name that stands for no format: it
/// names the extension, and for a compressed file that is no tar archive
/// the file.
pub open spec fn unsupported_message(file_name: Seq<char>) -> Seq<char> {
    match extension(file_name) {
        Some(ext) => if ext == "gz"@ {
            "Unsupported .gz format: "@ + file_name
        } else if ext == "xz"@ {
            "Unsupported .xz format: "@ + file_name
        } else {
            "Unsupported archive format: "@ + ext
        },
        None => "Unsupported archive format: "@,
    }
}

fn extension_of(name: &Vec<char>) -> (ext: Option<Vec<char>>)
    ensures
        match ext {
            Some(e) => extension(name@) == Some(e@),
            None => extension(name@) is None,
        },
{
    let mut j: usize = name.len();
    while j > 0 && name[j - 1] != '.'
        invariant
            j <= name.len(),
            last_dot(name@, j as int) == last_dot(name@, name@.len() as int),
        decreases j,
    {
        j -= 1;
    }
    proof {
        reveal_strlit("..");
    }
    if j <= 1 {
        None
    } else if name.len() == 2 && name[0] == '.' && name[1] == '.' {
        assert(name@ =~= ".."@);
        None
    } else {
        Some(copy_range(name, j, name.len()))
    }
}

fn ends_in(name: &Vec<char>, ending: &str) -> (r: bool)
    ensures
        r == ends_with(name@, ending@),
{
    let tail = chars_of(ending);
    if tail.len() > name.len() {
        false
    } else {
        includes_at(name, &tail, name.len() - tail.len())
    }
}

/// The format that the archive's file name stands for, or the error
/// `UnsupportedFormat` for a name that stands for none.
pub fn archive_format(file_name: &str) -> (format: Result<ArchiveFormat, ToolError>)
    ensures
        match format {
            Ok(f) => format_of(file_name@) == Some(f),
            Err(e) => format_of(file_name@) is None && e.kind == ErrorKind::UnsupportedFormat
                && e.message@ == unsupported_message(file_name@),
        },
{
    let name = chars_of(file_name);
    if ends_in(&name, ".tar.gz") {
        return Ok(ArchiveFormat::TarGz);
    }
    if ends_in(&name, ".tar.xz") {
        return Ok(ArchiveFormat::TarXz);
    }
    match extension_of(&name) {
        None => {
            proof {
                reveal_strlit("");
                assert("Unsupported archive format: "@ + ""@ =~= "Unsupported archive format: "@);
            }
            Err(
                ToolError::with_detail(
                    ErrorKind::UnsupportedFormat,
                    "Unsupported archive format: ",
                    "",
                ),
            )
        },
        Some(ext) => {
            let ext_text = text_of(&ext);
            if ext_text.as_str().eq("zip") {
                Ok(ArchiveFormat::Zip)
            } else if ext_text.as_str().eq("gz") {
                Err(
                    ToolError::with_detail(
                        ErrorKind::UnsupportedFormat,
                        "Unsupported .gz format: ",
                        file_name,
                    ),
                )
            } else if ext_text.as_str().eq("xz") {
                Err(
                    ToolError::with_detail(
                        ErrorKind::UnsupportedFormat,
                        "Unsupported .xz format: ",
                        file_name,
                    ),
                )
            } else {
                Err(
                    ToolError::with_detail(
                        ErrorKind::UnsupportedFormat,
                        "Unsupported archive format: ",
                        ext_text.as_str(),
                    ),
                )
            }
        },
    }
}

/// A name that ends in `.tar.gz` stands for a gzip-compressed tar archive.
pub proof fn lemma_tar_gz_suffix(file_name: Seq<char>)
    requires
        ends_with(file_name, ".tar.gz"@),
    ensures
        format_of(file_name) == Some(ArchiveFormat::TarGz),
{
}

/// A name that ends in `.tar.xz` stands for an XZ-compressed tar archive.
pub proof fn lemma_tar_xz_suffix(file_name: Seq<char>)
    requires
        ends_with(file_name, ".tar.xz"@),
    ensures
        format_of(file_name) == Some(ArchiveFormat::TarXz),
{
    reveal_strlit(".tar.xz");
    reveal_strlit(".tar.gz");
    let n = file_name.len() as int;
    if ends_with(file_name, ".tar.gz"@) {
        assert(file_name.subrange(n - 7, n)[5] == 'x');
        assert(file_name.subrange(n - 7, n)[5] == 'g');
    }
}

/// Where the last dot before `j` is, there is a dot, and none after it.
proof fn lemma_last_dot(s: Seq<char>, j: int)
    requires
        0 <= j <= s.len(),
    ensures
        -1 <= last_dot(s, j) < j,
        last_dot(s, j) >= 0 ==> s[last_dot(s, j)] == '.',
        forall|k: int| last_dot(s, j) < k < j ==> s[k] != '.',
    decreases j,
{
    if j > 0 && s[j - 1] != '.' {
        lemma_last_dot(s, j - 1);
    }
}

/// A name that ends in `.zip`, and holds more than that, stands for a zip
/// archive.
pub proof fn lemma_zip_suffix(file_name: Seq<char>)
    requires
        ends_with(file_name, ".zip"@),
        file_name.len() > 4,
    ensures
        format_of(file_name) == Some(ArchiveFormat::Zip),
{
    reveal_strlit(".zip");
    reveal_strlit("zip");
    reveal_strlit("..");
    reveal_strlit(".tar.gz");
    reveal_strlit(".tar.xz");
    let n = file_name.len() as int;
    let tail = file_name.subrange(n - 4, n);
    assert(file_name[n - 1] == tail[3] && file_name[n - 2] == tail[2] && file_name[n - 3]
        == tail[1] && file_name[n - 4] == tail[0]);
    lemma_last_dot(file_name, n);
    assert(last_dot(file_name, n) == n - 4);
    assert(file_name.subrange(n - 3, n) =~= "zip"@);
    if ends_with(file_name, ".tar.gz"@) {
        assert(file_name.subrange(n - 7, n)[6] == 'z');
    }
    if ends_with(file_name, ".tar.xz"@) {
        assert(file_name.subrange(n - 7, n)[6] == 'z');
    }
}

/// A name that ends in none of `.tar.gz`, `.tar.xz` and `.zip` stands for
/// no format.
pub proof fn lemma_unsupported_without_suffix(file_name: Seq<char>)
    requires
        !ends_with(file_name, ".tar.gz"@),
        !ends_with(file_name, ".tar.xz"@),
        !ends_with(file_name, ".zip"@),
    ensures
        format_of(file_name) is None,
{
    reveal_strlit(".zip");
    reveal_strlit("zip");
    let n = file_name.len() as int;
    if extension(file_name) == Some("zip"@) {
        lemma_last_dot(file_name, n);
        let dot = last_dot(file_name, n);
        let ext = file_name.subrange(dot + 1, n);
        assert(ext.len() == 3);
        assert(ext[0] == 'z' && ext[1] == 'i' && ext[2] == 'p');
        assert(file_name.subrange(n - 4, n) =~= ".zip"@);
    }
}

/// A name stands for a format only by one of the two endings or by the
/// extension `zip`.
pub proof fn lemma_other_extension_unsupported(file_name: Seq<char>)
    requires
        !ends_with(file_name, ".tar.gz"@),
        !ends_with(file_name, ".tar.xz"@),
        extension(file_name) != Some("zip"@),
    ensures
        format_of(file_name) is None,
{
}

/// One step of an extraction. Names are relative to the target directory,
/// their parts divided by `/`.
#[derive(Clone, Debug, PartialEq, Eq)]
pub enum ExtractStep {
    /// Create the target directory, and the directories above it, where
    /// they are missing.
    CreateTarget,
    /// Create the directory `name`, and the directories above it.
    MakeDir { name: String },
    /// Create the directories above `name`, then write `data` to the file
    /// `name`, in place of what it held.
    WriteFile { name: String, data: Vec<u8> },
    /// Give `name` the permission bits `mode`, where the platform has such
    /// bits. A failure of this step is passed over.
    SetMode { name: String, mode: u32 },
    /// Unpack the tar archive `data` into the target directory, paths and
    /// permissions as the archive gives them. `format` is the format that
    /// the archive came in, by which a failure is reported.
    UnpackTar { data: Vec<u8>, format: ArchiveFormat },
}

/// The value of a step.
pub enum ExtractStepView {
    CreateTarget,
    MakeDir { name: Seq<char> },
    WriteFile { name: Seq<char>, data: Seq<u8> },
    SetMode { name: Seq<char>, mode: u32 },
    UnpackTar { data: Seq<u8>, format: ArchiveFormat },
}

impl View for ExtractStep {
    type V = ExtractStepView;

    open spec fn view(&self) -> ExtractStepView {
        match self {
            ExtractStep::CreateTarget => ExtractStepView::CreateTarget,
            ExtractStep::MakeDir { name } => ExtractStepView::MakeDir { name: name@ },
            ExtractStep::WriteFile { name, data } => ExtractStepView::WriteFile {
                name: name@,
                data: data@,
            },
            ExtractStep::SetMode { name, mode } => ExtractStepView::SetMode {
                name: name@,
                mode: *mode,
            },
            ExtractStep::UnpackTar { data, format } => ExtractStepView::UnpackTar {
                data: data@,
                format: *format,
            },
        }
    }
}

/// The values of a list of steps.
pub open spec fn step_views(steps: Seq<ExtractStep>) -> Seq<ExtractStepView> {
    Seq::new(steps.len(), |k: int| steps[k]@)
}

/// The steps that lay out one zip entry: a directory is created, a file
/// written; then the entry's permission bits are set, where it has any.
pub open spec fn steps_of_entry(entry: ZipEntryView) -> Seq<ExtractStepView> {
    let place = if ends_with(entry.name, "/"@) {
        ExtractStepView::MakeDir { name: entry.name }
    } else {
        ExtractStepView::WriteFile { name: entry.name, data: entry.data }
    };
    match entry.unix_mode {
        Some(mode) => seq![place, ExtractStepView::SetMode { name: entry.name, mode }],
        None => seq![place],
    }
}

/// The steps that lay out the entries from index `i` up to the first one
/// that cannot be read.
pub open spec fn steps_of_entries(entries: Seq<Option<ZipEntryView>>, i: int) -> Seq<ExtractStepView>
    decreases entries.len() - i,
{
    if i < 0 || i >= entries.len() {
        Seq::empty()
    } else {
        match entries[i] {
            Some(entry) => steps_of_entry(entry) + steps_of_entries(entries, i + 1),
            None => Seq::empty(),
        }
    }
}

/// Whether every entry can be read.
pub open spec fn all_readable(entries: Seq<Option<ZipEntryView>>) -> bool {
    forall|k: int| 0 <= k < entries.len() ==> (#[trigger] entries[k]) is Some
}

/// The steps of an extraction, and the error that ends it where it cannot
/// be carried through. The steps are to be carried out in any case; they
/// are the part of the work that precedes the error.
#[derive(Debug, PartialEq, Eq)]
pub struct ExtractionPlan {
    pub steps: Vec<ExtractStep>,
    pub failure: Option<ToolError>,
}

/// The steps that lay out one zip entry.
pub fn entry_steps(entry: ZipEntry) -> (steps: Vec<ExtractStep>)
    ensures
        step_views(steps@) == steps_of_entry(entry@),
{
    let mut steps: Vec<ExtractStep> = Vec::new();
    let is_dir = str_ends_with(entry.name.as_str(), "/");
    let name = entry.name.clone();
    if is_dir {
        steps.push(ExtractStep::MakeDir { name: entry.name });
    } else {
        steps.push(ExtractStep::WriteFile { name: entry.name, data: entry.data });
    }
    match entry.unix_mode {
        Some(mode) => {
            steps.push(ExtractStep::SetMode { name, mode });
        },
        None => {},
    }
    assert(step_views(steps@) =~= steps_of_entry(entry@));
    steps
}

fn append_steps(steps: &mut Vec<ExtractStep>, more: Vec<ExtractStep>)
    ensures
        step_views(final(steps)@) == step_views(old(steps)@) + step_views(more@),
{
    let ghost before = step_views(steps@);
    let ghost added = step_views(more@);
    let mut more = more;
    steps.append(&mut more);
    assert(step_views(steps@) =~= before + added);
}

/// What extracting the zip archive `listing` comes to: where every entry
/// can be read, the target directory is created and the entries are laid
/// out in order; where the archive or one of its entries cannot be read,
/// the target directory is created and nothing else is done.
pub open spec fn zip_plan(listing: Option<Seq<Option<ZipEntryView>>>) -> (Seq<ExtractStepView>, bool) {
    match listing {
        Some(entries) => if all_readable(entries) {
            (seq![ExtractStepView::CreateTarget] + steps_of_entries(entries, 0), true)
        } else {
            (seq![ExtractStepView::CreateTarget], false)
        },
        None => (seq![ExtractStepView::CreateTarget], false),
    }
}

fn only_create_target() -> (steps: Vec<ExtractStep>)
    ensures
        step_views(steps@) == seq![ExtractStepView::CreateTarget],
{
    let mut steps: Vec<ExtractStep> = Vec::new();
    steps.push(ExtractStep::CreateTarget);
    assert(step_views(steps@) =~= seq![ExtractStepView::CreateTarget]);
    steps
}

/// The steps that extract the zip archive `bytes`. Every entry is read
/// before any step is planned: where the archive or one of its entries
/// cannot be read, the plan ends in an `IoError` and holds no step that
/// writes.
pub fn zip_steps(bytes: Vec<u8>) -> (plan: ExtractionPlan)
    ensures
        step_views(plan.steps@) == zip_plan(zip_listing(bytes@)).0,
        plan.failure is None <==> zip_plan(zip_listing(bytes@)).1,
        plan.failure is Some ==> step_views(plan.steps@) == seq![ExtractStepView::CreateTarget],
        plan.failure matches Some(e) ==> e.kind == ErrorKind::IoError && starts_with(
            e.message@,
            if zip_listing(bytes@) is None {
                "Failed to read ZIP archive: "@
            } else {
                "Failed to read file from archive: "@
            },
        ),
{
    match zip_open(bytes) {
        Err(why) => ExtractionPlan {
            steps: only_create_target(),
            failure: Some(
                ToolError::with_detail(
                    ErrorKind::IoError,
                    "Failed to read ZIP archive: ",
                    why.as_str(),
                ),
            ),
        },
        Ok(archive) => {
            let mut archive = archive;
            let ghost entries = zip_entries(archive);
            let n = zip_len(&archive);
            let mut steps = only_create_target();
            let mut i: usize = 0;
            assert(steps_of_entries(entries, 0) + Seq::<ExtractStepView>::empty()
                =~= steps_of_entries(entries, 0));
            while i < n
                invariant
                    i <= n,
                    n == entries.len(),
                    zip_entries(archive) == entries,
                    zip_listing(bytes@) == Some(entries),
                    forall|k: int| 0 <= k < i ==> (#[trigger] entries[k]) is Some,
                    step_views(steps@) + steps_of_entries(entries, i as int) == seq![
                        ExtractStepView::CreateTarget,
                    ] + steps_of_entries(entries, 0),
                decreases n - i,
            {
                match zip_entry(&mut archive, i) {
                    Err(why) => {
                        assert(entries[i as int] is None);
                        return ExtractionPlan {
                            steps: only_create_target(),
                            failure: Some(
                                ToolError::with_detail(
                                    ErrorKind::IoError,
                                    "Failed to read file from archive: ",
                                    why.as_str(),
                                ),
                            ),
                        };
                    },
                    Ok(entry) => {
                        let ghost before = step_views(steps@);
                        let more = entry_steps(entry);
                        append_steps(&mut steps, more);
                        assert(step_views(steps@) + steps_of_entries(entries, i + 1) =~= before + (
                        steps_of_entry(entry@) + steps_of_entries(entries, i + 1)));
                    },
                }
                i += 1;
            }
            assert(step_views(steps@) + Seq::<ExtractStepView>::empty() =~= step_views(steps@));
            ExtractionPlan { steps, failure: None }
        },
    }
}

/// The start of the text of the error for a compressed tar archive whose
/// compression cannot be undone; the text of the outside error follows it.
pub open spec fn decode_failure_prefix(format: ArchiveFormat) -> Seq<char> {
    match format {
        ArchiveFormat::Zip => "Failed to read ZIP archive: "@,
        ArchiveFormat::TarGz => "Failed to extract TAR.GZ archive: "@,
        ArchiveFormat::TarXz => "Failed to decompress XZ: "@,
    }
}

/// The start of the text of the error for an archive that cannot be
/// unpacked into the target directory.
pub open spec fn unpack_failure_prefix(format: ArchiveFormat) -> Seq<char> {
    match format {
        ArchiveFormat::Zip => "Failed to read ZIP archive: "@,
        ArchiveFormat::TarGz => "Failed to extract TAR.GZ archive: "@,
        ArchiveFormat::TarXz => "Failed to extract TAR.XZ archive: "@,
    }
}

/// The error for an archive of the format `format` that could not be
/// unpacked for the reason `why`.
pub fn unpack_failure(format: ArchiveFormat, why: &str) -> (e: ToolError)
    ensures
        e.kind == ErrorKind::IoError,
        e.message@ == unpack_failure_prefix(format) + why@,
{
    match format {
        ArchiveFormat::Zip => ToolError::with_detail(
            ErrorKind::IoError,
            "Failed to read ZIP archive: ",
            why,
        ),
        ArchiveFormat::TarGz => ToolError::with_detail(
            ErrorKind::IoError,
            "Failed to extract TAR.GZ archive: ",
            why,
        ),
        ArchiveFormat::TarXz => ToolError::with_detail(
            ErrorKind::IoError,
            "Failed to extract TAR.XZ archive: ",
            why,
        ),
    }
}

/// What extracting a compressed tar archive comes to, after the target
/// directory is created: one step that unpacks the decompressed archive, or
/// no further step where the data cannot be decompressed.
pub open spec fn tar_plan(decoded: Option<Seq<u8>>, format: ArchiveFormat) -> (
    Seq<ExtractStepView>,
    bool,
) {
    match decoded {
        Some(data) => (
            seq![ExtractStepView::CreateTarget, ExtractStepView::UnpackTar { data, format }],
            true,
        ),
        None => (seq![ExtractStepView::CreateTarget], false),
    }
}

/// The steps that extract a tar archive once its compression is undone.
/// `decoded` is the decompressed archive, or the text of the error that
/// decompressing gave; `format` is the format that the archive came in.
pub fn tar_steps(decoded: Result<Vec<u8>, String>, format: ArchiveFormat) -> (plan: ExtractionPlan)
    ensures
        step_views(plan.steps@) == tar_plan(
            match decoded {
                Ok(data) => Some(data@),
                Err(_) => None,
            },
            format,
        ).0,
        match decoded {
            Ok(_) => plan.failure is None,
            Err(why) => plan.failure matches Some(e) && e.kind == ErrorKind::IoError && e.message@
                == decode_failure_prefix(format) + why@ && starts_with(
                e.message@,
                decode_failure_prefix(format),
            ),
        },
{
    match decoded {
        Ok(data) => {
            let mut steps = only_create_target();
            let ghost before = step_views(steps@);
            steps.push(ExtractStep::UnpackTar { data, format });
            assert(step_views(steps@) =~= before + seq![
                ExtractStepView::UnpackTar { data: data@, format },
            ]);
            assert(step_views(steps@) =~= seq![
                ExtractStepView::CreateTarget,
                ExtractStepView::UnpackTar { data: data@, format },
            ]);
            ExtractionPlan { steps, failure: None }
        },
        Err(why) => {
            let error = match format {
                ArchiveFormat::Zip => ToolError::with_detail(
                    ErrorKind::IoError,
                    "Failed to read ZIP archive: ",
                    why.as_str(),
                ),
                ArchiveFormat::TarGz => ToolError::with_detail(
                    ErrorKind::IoError,
                    "Failed to extract TAR.GZ archive: ",
                    why.as_str(),
                ),
                ArchiveFormat::TarXz => ToolError::with_detail(
                    ErrorKind::IoError,
                    "Failed to decompress XZ: ",
                    why.as_str(),
                ),
            };
            ExtractionPlan { steps: only_create_target(), failure: Some(error) }
        },
    }
}

/// What extracting the archive `bytes` of the name `file_name` comes to:
/// the steps to carry out, and whether they complete the extraction.
pub open spec fn extraction_plan(file_name: Seq<char>, bytes: Seq<u8>) -> (
    Seq<ExtractStepView>,
    bool,
) {
    match format_of(file_name) {
        Some(ArchiveFormat::Zip) => zip_plan(zip_listing(bytes)),
        Some(ArchiveFormat::TarGz) => tar_plan(gzip_decoded(bytes), ArchiveFormat::TarGz),
        Some(ArchiveFormat::TarXz) => tar_plan(xz_decoded(bytes), ArchiveFormat::TarXz),
        None => (seq![ExtractStepView::CreateTarget], false),
    }
}

/// The start of the text of the error for data that cannot be read as
/// `format`; the text of the outside error follows it.
pub open spec fn read_failure_prefix(format: ArchiveFormat, bytes: Seq<u8>) -> Seq<char> {
    match format {
        ArchiveFormat::Zip => if zip_listing(bytes) is None {
            "Failed to read ZIP archive: "@
        } else {
            "Failed to read file from archive: "@
        },
        _ => decode_failure_prefix(format),
    }
}

/// A plan that ends in a failure holds no step but the creation of the
/// target directory: an extraction that fails replaces no file.
pub proof fn lemma_failed_plan_writes_nothing(file_name: Seq<char>, bytes: Seq<u8>)
    requires
        !extraction_plan(file_name, bytes).1,
    ensures
        extraction_plan(file_name, bytes).0 == seq![ExtractStepView::CreateTarget],
{
}

/// The steps that extract the archive `bytes`, whose format its file name
/// gives. The target directory is created first, whatever follows. A name
/// that stands for no format gives the error `UnsupportedFormat`, and data
/// that cannot be read as the format an `IoError`; in either case nothing
/// is written. A sound archive of one of the three formats gives a plan
/// that does not fail.
pub fn extract_archive_unified(file_name: &str, bytes: Vec<u8>) -> (plan: ExtractionPlan)
    ensures
        step_views(plan.steps@) == extraction_plan(file_name@, bytes@).0,
        plan.failure is None <==> extraction_plan(file_name@, bytes@).1,
        plan.failure is Some ==> step_views(plan.steps@) == seq![ExtractStepView::CreateTarget],
        plan.failure matches Some(e) ==> match format_of(file_name@) {
            None => e.kind == ErrorKind::UnsupportedFormat && e.message@ == unsupported_message(
                file_name@,
            ),
            Some(format) => e.kind == ErrorKind::IoError && starts_with(
                e.message@,
                read_failure_prefix(format, bytes@),
            ) && (format == ArchiveFormat::TarXz && xz_overflows(bytes@) ==> e.message@
                == "Failed to decompress XZ: "@ + xz_refusal()),
        },
{
    match archive_format(file_name) {
        Err(e) => ExtractionPlan { steps: only_create_target(), failure: Some(e) },
        Ok(ArchiveFormat::Zip) => zip_steps(bytes),
        Ok(ArchiveFormat::TarGz) => tar_steps(gunzip(&bytes), ArchiveFormat::TarGz),
        Ok(ArchiveFormat::TarXz) => tar_steps(decode_xz(&bytes), ArchiveFormat::TarXz),
    }
}

} // verus!
