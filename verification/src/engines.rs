//! Conversions: the PDF engines of each output format, which of them is
//! used, and the arguments with which the converter is run.

use vstd::prelude::*;
use vstd::string::*;
use vstd::utf8::{decode_utf8, valid_utf8};
use crate::error::{ErrorKind, ToolError, ToolErrorView};
use crate::locator::{first_valid, holds_text, DirectorySnapshot, ProbedPath, SubdirSnapshot};
use crate::probe::{owned_texts, slice_texts, utf8_text, CommandOutput};
use crate::text::{chars_of, contains, includes, join, join_texts, same_text, text_of, trim, trimmed};

verus! {

/// The PDF engine that the converter uses for an output format when none
/// is named.
pub open spec fn default_pdf_engine(output_format: Seq<char>) -> Seq<char> {
    if output_format == "latex"@ {
        "pdflatex"@
    } else if output_format == "context"@ {
        "context"@
    } else if output_format == "html"@ {
        "wkhtmltopdf"@
    } else if output_format == "ms"@ {
        "pdfroff"@
    } else if output_format == "typst"@ {
        "typst"@
    } else {
        "pdflatex"@
    }
}

/// The PDF engine that the converter uses for `output_format` when none is
/// named.
pub fn get_default_pdf_engine(output_format: &str) -> (engine: &'static str)
    ensures
        engine@ == default_pdf_engine(output_format@),
{
    if same_text(output_format, "latex") {
        "pdflatex"
    } else if same_text(output_format, "context") {
        "context"
    } else if same_text(output_format, "html") {
        "wkhtmltopdf"
    } else if same_text(output_format, "ms") {
        "pdfroff"
    } else if same_text(output_format, "typst") {
        "typst"
    } else {
        "pdflatex"
    }
}

/// The PDF engines that can serve an output format, the preferred ones
/// first.
pub open spec fn pdf_engines(output_format: Seq<char>) -> Seq<Seq<char>> {
    if output_format == "latex"@ {
        seq!["pdflatex"@, "xelatex"@, "lualatex"@, "tectonic"@, "latexmk"@]
    } else if output_format == "context"@ {
        seq!["context"@]
    } else if output_format == "html"@ {
        seq!["wkhtmltopdf"@, "weasyprint"@, "prince"@, "pagedjs-cli"@]
    } else if output_format == "ms"@ {
        seq!["pdfroff"@]
    } else if output_format == "typst"@ {
        seq!["typst"@]
    } else {
        seq!["pdflatex"@, "xelatex"@, "lualatex"@, "wkhtmltopdf"@, "weasyprint"@, "typst"@]
    }
}

/// The PDF engines that can serve `output_format`, the preferred ones first.
pub fn get_pdf_engines_for_format(output_format: &str) -> (engines: Vec<&'static str>)
    ensures
        slice_texts(engines@) == pdf_engines(output_format@),
{
    let engines: Vec<&'static str> = if same_text(output_format, "latex") {
        vec!["pdflatex", "xelatex", "lualatex", "tectonic", "latexmk"]
    } else if same_text(output_format, "context") {
        vec!["context"]
    } else if same_text(output_format, "html") {
        vec!["wkhtmltopdf", "weasyprint", "prince", "pagedjs-cli"]
    } else if same_text(output_format, "ms") {
        vec!["pdfroff"]
    } else if same_text(output_format, "typst") {
        vec!["typst"]
    } else {
        vec!["pdflatex", "xelatex", "lualatex", "wkhtmltopdf", "weasyprint", "typst"]
    };
    assert(slice_texts(engines@) =~= pdf_engines(output_format@));
    engines
}

/// A place where a managed executable may lie: below which of the roots
/// that were looked at, and by which path below that root.
#[derive(Clone, Debug, PartialEq, Eq)]
pub struct CandidatePlace {
    /// The index of the root.
    pub root: usize,
    /// The parts of the path below the root.
    pub relative: Vec<String>,
}

/// The value of a place.
pub struct CandidatePlaceView {
    pub root: int,
    pub relative: Seq<Seq<char>>,
}

impl View for CandidatePlace {
    type V = CandidatePlaceView;

    open spec fn view(&self) -> CandidatePlaceView {
        CandidatePlaceView { root: self.root as int, relative: self.relative.deep_view() }
    }
}

/// The values of a list of places.
pub open spec fn place_views(places: Seq<CandidatePlace>) -> Seq<CandidatePlaceView> {
    Seq::new(places.len(), |k: int| places[k]@)
}

/// The places below the directories from index `i` on of the root `root`
/// that hold the executable `exe`, in the order in which the directories
/// were listed.
pub open spec fn places_in_subdirs(
    root: int,
    subdirs: Seq<SubdirSnapshot>,
    exe: Seq<char>,
    i: int,
) -> Seq<CandidatePlaceView>
    decreases subdirs.len() - i,
{
    if i < 0 || i >= subdirs.len() {
        Seq::empty()
    } else if subdirs[i].has_executable {
        seq![CandidatePlaceView { root, relative: seq![subdirs[i].name@, exe] }]
            + places_in_subdirs(root, subdirs, exe, i + 1)
    } else {
        places_in_subdirs(root, subdirs, exe, i + 1)
    }
}

/// The places of one root that hold the executable `exe`: the root's
/// directory itself before the directories in it.
pub open spec fn places_in_root(root: int, dir: DirectorySnapshot, exe: Seq<char>) -> Seq<
    CandidatePlaceView,
> {
    let direct = if dir.has_executable {
        seq![CandidatePlaceView { root, relative: seq![exe] }]
    } else {
        Seq::empty()
    };
    if dir.exists {
        direct + places_in_subdirs(root, dir.subdirs@, exe, 0)
    } else {
        direct
    }
}

/// The places of the roots from index `i` on that hold the executable
/// `exe`, root by root in the order of the roots.
pub open spec fn candidate_places(roots: Seq<DirectorySnapshot>, exe: Seq<char>, i: int) -> Seq<
    CandidatePlaceView,
>
    decreases roots.len() - i,
{
    if i < 0 || i >= roots.len() {
        Seq::empty()
    } else {
        places_in_root(i, roots[i], exe) + candidate_places(roots, exe, i + 1)
    }
}

fn push_place(places: &mut Vec<CandidatePlace>, root: usize, relative: Vec<String>)
    ensures
        place_views(final(places)@) == place_views(old(places)@) + seq![
            CandidatePlaceView { root: root as int, relative: relative.deep_view() },
        ],
{
    let ghost before = place_views(places@);
    let ghost added = relative.deep_view();
    places.push(CandidatePlace { root, relative });
    assert(place_views(places@) =~= before + seq![
        CandidatePlaceView { root: root as int, relative: added },
    ]);
}

fn one_part(a: &str) -> (parts: Vec<String>)
    ensures
        parts.deep_view() == seq![a@],
{
    let mut parts: Vec<String> = Vec::new();
    parts.push(String::from_str(a));
    assert(parts.deep_view() =~= seq![a@]);
    parts
}

fn two_parts(a: &str, b: &str) -> (parts: Vec<String>)
    ensures
        parts.deep_view() == seq![a@, b@],
{
    let mut parts: Vec<String> = Vec::new();
    parts.push(String::from_str(a));
    parts.push(String::from_str(b));
    assert(parts.deep_view() =~= seq![a@, b@]);
    parts
}

/// The places where a managed executable of the typesetter lies, in the
/// order in which they are tried: root by root, in each the root's
/// directory itself before the directories in it.
pub fn typst_candidates(roots: &Vec<DirectorySnapshot>, exe_name: &str) -> (places: Vec<
    CandidatePlace,
>)
    ensures
        place_views(places@) == candidate_places(roots@, exe_name@, 0),
{
    let mut places: Vec<CandidatePlace> = Vec::new();
    assert(place_views(places@) =~= Seq::<CandidatePlaceView>::empty());
    let mut r: usize = 0;
    while r < roots.len()
        invariant
            r <= roots.len(),
            place_views(places@) + candidate_places(roots@, exe_name@, r as int)
                == candidate_places(roots@, exe_name@, 0),
        decreases roots.len() - r,
    {
        let dir = &roots[r];
        let ghost before = place_views(places@);
        if dir.has_executable {
            push_place(&mut places, r, one_part(exe_name));
        }
        let ghost direct = place_views(places@);
        if dir.exists {
            let mut i: usize = 0;
            assert(place_views(places@) + places_in_subdirs(r as int, dir.subdirs@, exe_name@, 0)
                == before + places_in_root(r as int, *dir, exe_name@)) by {
                assert(direct + places_in_subdirs(r as int, dir.subdirs@, exe_name@, 0) =~= before
                    + places_in_root(r as int, *dir, exe_name@));
            }
            while i < dir.subdirs.len()
                invariant
                    i <= dir.subdirs.len(),
                    place_views(places@) + places_in_subdirs(
                        r as int,
                        dir.subdirs@,
                        exe_name@,
                        i as int,
                    ) == before + places_in_root(r as int, *dir, exe_name@),
                decreases dir.subdirs.len() - i,
            {
                let sub = &dir.subdirs[i];
                if sub.has_executable {
                    let ghost so_far = place_views(places@);
                    push_place(&mut places, r, two_parts(sub.name.as_str(), exe_name));
                    assert(place_views(places@) + places_in_subdirs(
                        r as int,
                        dir.subdirs@,
                        exe_name@,
                        i + 1,
                    ) =~= so_far + places_in_subdirs(r as int, dir.subdirs@, exe_name@, i as int));
                }
                i += 1;
            }
            assert(place_views(places@) + Seq::<CandidatePlaceView>::empty() =~= place_views(
                places@,
            ));
        } else {
            assert(direct =~= before + places_in_root(r as int, *dir, exe_name@));
        }
        assert(place_views(places@) + candidate_places(roots@, exe_name@, r + 1) =~= before + (
        places_in_root(r as int, *dir, exe_name@) + candidate_places(roots@, exe_name@, r + 1)));
        r += 1;
    }
    assert(place_views(places@) + Seq::<CandidatePlaceView>::empty() =~= place_views(places@));
    places
}

/// The typesetter that is used: the first managed executable that works,
/// in the order in which the places were searched, else the one of the
/// system by its bare name, where that works.
pub open spec fn best_typst(places: Seq<ProbedPath>, system_works: bool) -> Option<Seq<char>> {
    match first_valid(places, 0) {
        Some(k) => Some(places[k].path@),
        None => if system_works {
            Some("typst"@)
        } else {
            None
        },
    }
}

/// The typesetter that is used, from the managed places that were probed and
/// from whether the one of the system works.
pub fn get_best_typst_path(places: &Vec<ProbedPath>, system_works: bool) -> (best: Option<String>)
    ensures
        best.deep_view() == best_typst(places@, system_works),
{
    match crate::locator::find_first_valid(places) {
        Some(path) => Some(path),
        None => {
            if system_works {
                Some(String::from_str("typst"))
            } else {
                None
            }
        },
    }
}

/// The engines that are available among `engines` from index `i` on, added
/// to `acc`. The typesetter stands by the path of the one that is used,
/// where there is one, and is listed once; every other engine stands by
/// its name where its probe succeeded.
pub open spec fn add_available(
    acc: Seq<Seq<char>>,
    engines: Seq<Seq<char>>,
    typst: Option<Seq<char>>,
    working: Seq<Seq<char>>,
    i: int,
) -> Seq<Seq<char>>
    decreases engines.len() - i,
{
    if i < 0 || i >= engines.len() {
        acc
    } else if engines[i] == "typst"@ && typst is Some {
        if acc.contains(typst->0) {
            add_available(acc, engines, typst, working, i + 1)
        } else {
            add_available(acc.push(typst->0), engines, typst, working, i + 1)
        }
    } else if working.contains(engines[i]) {
        add_available(acc.push(engines[i]), engines, typst, working, i + 1)
    } else {
        add_available(acc, engines, typst, working, i + 1)
    }
}

/// The PDF engines that are available for an output format, the preferred
/// ones first. `typst` is the typesetter that is used, if any, and
/// `working` names the engines whose probe succeeded.
pub fn check_available_pdf_engines_for_format(
    output_format: &str,
    typst: &Option<String>,
    working: &Vec<String>,
) -> (available: Vec<String>)
    ensures
        available.deep_view() == add_available(
            Seq::empty(),
            pdf_engines(output_format@),
            typst.deep_view(),
            working.deep_view(),
            0,
        ),
{
    let engines = get_pdf_engines_for_format(output_format);
    let ghost names = pdf_engines(output_format@);
    let mut available: Vec<String> = Vec::new();
    assert(available.deep_view() =~= Seq::<Seq<char>>::empty());
    let mut i: usize = 0;
    while i < engines.len()
        invariant
            i <= engines.len(),
            slice_texts(engines@) == names,
            add_available(
                available.deep_view(),
                names,
                typst.deep_view(),
                working.deep_view(),
                i as int,
            ) == add_available(Seq::empty(), names, typst.deep_view(), working.deep_view(), 0),
        decreases engines.len() - i,
    {
        assert(names[i as int] == engines@[i as int]@);
        let ghost before = available.deep_view();
        let is_typst = same_text(engines[i], "typst");
        let mut handled = false;
        if is_typst {
            match typst {
                Some(path) => {
                    if !holds_text(&available, path.as_str()) {
                        available.push(path.clone());
                        assert(available.deep_view() =~= before.push(path@));
                    }
                    handled = true;
                },
                None => {},
            }
        }
        if !handled {
            if holds_text(working, engines[i]) {
                available.push(String::from_str(engines[i]));
                assert(available.deep_view() =~= before.push(engines@[i as int]@));
            }
        }
        i += 1;
    }
    available
}

/// What is to be converted, and how.
#[derive(Clone, Debug, PartialEq, Eq)]
pub struct ConversionRequest {
    pub input_file: String,
    pub output_file: String,
    /// The format of the input. Without one, or with `auto` or the empty
    /// text, the converter finds it out by itself.
    pub input_format: Option<String>,
    pub output_format: String,
    /// The PDF engine that the user asks for.
    pub pdf_engine: Option<String>,
}

/// The value of a request.
pub struct ConversionRequestView {
    pub input_file: Seq<char>,
    pub output_file: Seq<char>,
    pub input_format: Option<Seq<char>>,
    pub output_format: Seq<char>,
    pub pdf_engine: Option<Seq<char>>,
}

impl View for ConversionRequest {
    type V = ConversionRequestView;

    open spec fn view(&self) -> ConversionRequestView {
        ConversionRequestView {
            input_file: self.input_file@,
            output_file: self.output_file@,
            input_format: self.input_format.deep_view(),
            output_format: self.output_format@,
            pdf_engine: self.pdf_engine.deep_view(),
        }
    }
}

/// The PDF engine that a conversion uses: the one that the user asks for,
/// where it is available; without a wish the default engine, where that is
/// available, else the first available one.
pub open spec fn chosen_engine(
    requested: Option<Seq<char>>,
    default: Seq<char>,
    available: Seq<Seq<char>>,
) -> Option<Seq<char>> {
    match requested {
        Some(engine) => if available.contains(engine) {
            Some(engine)
        } else {
            None
        },
        None => if available.contains(default) {
            Some(default)
        } else if available.len() > 0 {
            Some(available[0])
        } else {
            None
        },
    }
}

/// The arguments that name the formats: the input format where one is
/// set, then the output format.
pub open spec fn format_arguments(request: ConversionRequestView) -> Seq<Seq<char>> {
    let input = match request.input_format {
        Some(f) => if f.len() > 0 && f != "auto"@ {
            seq!["-f"@, f]
        } else {
            Seq::empty()
        },
        None => Seq::empty(),
    };
    input + seq!["-t"@, request.output_format]
}

/// The arguments with which the converter is run, for a conversion that
/// uses `engine` where it makes a PDF: the formats, the engine, the input
/// file, and the output file after `-o`.
pub open spec fn conversion_arguments(request: ConversionRequestView, engine: Seq<char>) -> Seq<
    Seq<char>,
> {
    let pdf = if request.output_format == "pdf"@ {
        seq!["--pdf-engine"@, engine]
    } else {
        Seq::empty()
    };
    format_arguments(request) + pdf + seq![request.input_file, "-o"@, request.output_file]
}

/// The text of the error for an output format that the converter does not
/// write.
pub open spec fn unsupported_output_message(output_format: Seq<char>) -> Seq<char> {
    "Output format '"@ + output_format + "' is not supported by this Pandoc installation"@
}

/// The text of the error for a PDF engine that the user asks for and that
/// is not available.
pub open spec fn engine_unavailable_message(engine: Seq<char>, available: Seq<Seq<char>>) -> Seq<
    char,
> {
    "Specified PDF engine '"@ + engine + "' is not available.\nAvailable engines for PDF output: "@
        + join(available, ", "@)
}

/// The text of the error for a conversion to PDF without any engine.
pub open spec fn no_engine_message(output_format: Seq<char>) -> Seq<char> {
    "PDF conversion failed: No PDF engine found for output format '"@ + output_format
        + "'.\n\nRecommended PDF engines for "@ + output_format + ":\n"@ + join(
        pdf_engines(output_format),
        ", "@,
    )
        + "\n\nInstallation guides:\n\u{2022} typst: 'cargo install typst-cli' or download from GitHub releases\n\u{2022} wkhtmltopdf: Download from https://wkhtmltopdf.org/\n\u{2022} weasyprint: 'pip install weasyprint'\n\u{2022} LaTeX distribution (TeX Live, MiKTeX): For academic publishing\n\nAlternatively, try converting to HTML first, then use a browser to print to PDF."@
}

/// Whether a conversion can be run, and the text of the error where it
/// cannot: the output format must be among those that the converter
/// writes, and a conversion to PDF needs an engine.
pub open spec fn conversion_plan(
    request: ConversionRequestView,
    supported_outputs: Seq<Seq<char>>,
    available_engines: Seq<Seq<char>>,
) -> Result<Seq<Seq<char>>, ToolErrorView> {
    if !supported_outputs.contains(request.output_format) {
        Err(
            ToolErrorView {
                kind: ErrorKind::UnsupportedFormat,
                message: unsupported_output_message(request.output_format),
            },
        )
    } else if request.output_format != "pdf"@ {
        Ok(conversion_arguments(request, Seq::empty()))
    } else {
        match chosen_engine(
            request.pdf_engine,
            default_pdf_engine(request.output_format),
            available_engines,
        ) {
            Some(engine) => Ok(conversion_arguments(request, engine)),
            None => Err(
                ToolErrorView {
                    kind: ErrorKind::NotFound,
                    message: match request.pdf_engine {
                        Some(engine) => engine_unavailable_message(engine, available_engines),
                        None => no_engine_message(request.output_format),
                    },
                },
            ),
        }
    }
}

/// The arguments with which the converter is run for `request`, or why the
/// conversion cannot be run. `supported_outputs` are the formats that the
/// converter writes, and `available_engines` the PDF engines that are
/// available, the preferred ones first.
pub fn convert_with_pandoc(
    request: &ConversionRequest,
    supported_outputs: &Vec<String>,
    available_engines: &Vec<String>,
) -> (arguments: Result<Vec<String>, ToolError>)
    ensures
        match arguments {
            Ok(list) => conversion_plan(
                request@,
                supported_outputs.deep_view(),
                available_engines.deep_view(),
            ) == Ok::<Seq<Seq<char>>, ToolErrorView>(list.deep_view()),
            Err(e) => conversion_plan(
                request@,
                supported_outputs.deep_view(),
                available_engines.deep_view(),
            ) == Err::<Seq<Seq<char>>, ToolErrorView>(e@),
        },
{
    let output_format = request.output_format.as_str();
    if !holds_text(supported_outputs, output_format) {
        let mut message = String::from_str("Output format '");
        message.append(output_format);
        message.append("' is not supported by this Pandoc installation");
        return Err(ToolError::new(ErrorKind::UnsupportedFormat, message));
    }
    let mut list: Vec<String> = Vec::new();
    assert(list.deep_view() =~= Seq::<Seq<char>>::empty());
    match &request.input_format {
        Some(f) => {
            proof {
                reveal_strlit("");
            }
            let empty = same_text(f.as_str(), "");
            assert(empty == (f@.len() == 0)) by {
                if f@.len() == 0 {
                    assert(f@ =~= ""@);
                }
            }
            if !empty && !same_text(f.as_str(), "auto") {
                list.push(String::from_str("-f"));
                list.push(f.clone());
                assert(list.deep_view() =~= seq!["-f"@, f@]);
            }
        },
        None => {},
    }
    let ghost before = list.deep_view();
    list.push(String::from_str("-t"));
    list.push(request.output_format.clone());
    assert(list.deep_view() =~= before + seq!["-t"@, request.output_format@]);
    assert(list.deep_view() == format_arguments(request@));
    if same_text(output_format, "pdf") {
        let default = get_default_pdf_engine(output_format);
        let engine = match &request.pdf_engine {
            Some(wish) => {
                if holds_text(available_engines, wish.as_str()) {
                    wish.clone()
                } else {
                    let mut message = String::from_str("Specified PDF engine '");
                    message.append(wish.as_str());
                    message.append("' is not available.\nAvailable engines for PDF output: ");
                    message.append(join_texts(available_engines, ", ").as_str());
                    return Err(ToolError::new(ErrorKind::NotFound, message));
                }
            },
            None => {
                if holds_text(available_engines, default) {
                    String::from_str(default)
                } else if available_engines.len() > 0 {
                    assert(available_engines.deep_view()[0] == available_engines@[0]@);
                    available_engines[0].clone()
                } else {
                    let names = owned_texts(&get_pdf_engines_for_format(output_format));
                    let mut message = String::from_str(
                        "PDF conversion failed: No PDF engine found for output format '",
                    );
                    message.append(output_format);
                    message.append("'.\n\nRecommended PDF engines for ");
                    message.append(output_format);
                    message.append(":\n");
                    message.append(join_texts(&names, ", ").as_str());
                    message.append(
                        "\n\nInstallation guides:\n\u{2022} typst: 'cargo install typst-cli' or download from GitHub releases\n\u{2022} wkhtmltopdf: Download from https://wkhtmltopdf.org/\n\u{2022} weasyprint: 'pip install weasyprint'\n\u{2022} LaTeX distribution (TeX Live, MiKTeX): For academic publishing\n\nAlternatively, try converting to HTML first, then use a browser to print to PDF.",
                    );
                    return Err(ToolError::new(ErrorKind::NotFound, message));
                }
            },
        };
        let ghost before = list.deep_view();
        list.push(String::from_str("--pdf-engine"));
        list.push(engine);
        assert(list.deep_view() =~= before + seq!["--pdf-engine"@, engine@]);
    } else {
        assert(list.deep_view() + Seq::<Seq<char>>::empty() =~= list.deep_view());
    }
    let ghost before = list.deep_view();
    list.push(request.input_file.clone());
    list.push(String::from_str("-o"));
    list.push(request.output_file.clone());
    assert(list.deep_view() =~= before + seq![request.input_file@, "-o"@, request.output_file@]);
    Ok(list)
}

/// What the user is told of a conversion that the converter has run: that
/// it succeeded, or what the converter wrote to its error stream, and,
/// where a conversion to PDF failed for want of an engine, what can be
/// done about it.
pub open spec fn conversion_report(
    request: ConversionRequestView,
    command: Seq<char>,
    run: Result<CommandOutput, String>,
) -> Result<Seq<char>, ToolErrorView> {
    match run {
        Err(why) => Err(
            ToolErrorView {
                kind: ErrorKind::ExecutionFailed,
                message: "Failed to execute pandoc at '"@ + command + "': "@ + why@,
            },
        ),
        Ok(output) => if output.success {
            Ok("Successfully converted "@ + request.input_file + " to "@ + request.output_file)
        } else {
            let said = if valid_utf8(output.stderr@) {
                decode_utf8(output.stderr@)
            } else {
                "Unknown pandoc error"@
            };
            Err(
                ToolErrorView {
                    kind: ErrorKind::ExecutionFailed,
                    message: if request.output_format == "pdf"@ && contains(said, "not found"@) {
                        "PDF conversion failed: Required engine not found.\n\nSolutions:\n1. Install the recommended PDF engine for this format\n2. Alternative: Convert to HTML first, then print to PDF from browser\n3. Try a different output format (html, docx, etc.)\n\nOriginal error: "@
                            + trim(said)
                    } else {
                        "Pandoc conversion failed: "@ + trim(said)
                    },
                },
            )
        },
    }
}

/// What the user is told of a conversion, from the run of the converter.
pub fn conversion_outcome(
    request: &ConversionRequest,
    command: &str,
    run: &Result<CommandOutput, String>,
) -> (told: Result<String, ToolError>)
    ensures
        match told {
            Ok(text) => conversion_report(request@, command@, *run) == Ok::<
                Seq<char>,
                ToolErrorView,
            >(text@),
            Err(e) => conversion_report(request@, command@, *run) == Err::<
                Seq<char>,
                ToolErrorView,
            >(e@),
        },
{
    match run {
        Err(why) => {
            let mut message = String::from_str("Failed to execute pandoc at '");
            message.append(command);
            message.append("': ");
            message.append(why.as_str());
            Err(ToolError::new(ErrorKind::ExecutionFailed, message))
        },
        Ok(output) => {
            if output.success {
                let mut text = String::from_str("Successfully converted ");
                text.append(request.input_file.as_str());
                text.append(" to ");
                text.append(request.output_file.as_str());
                Ok(text)
            } else {
                let said = match utf8_text(output.stderr.clone()) {
                    Some(text) => chars_of(text.as_str()),
                    None => chars_of("Unknown pandoc error"),
                };
                let detail = text_of(&trimmed(&said));
                let marker = chars_of("not found");
                if same_text(request.output_format.as_str(), "pdf") && includes(&said, &marker) {
                    Err(
                        ToolError::with_detail(
                            ErrorKind::ExecutionFailed,
                            "PDF conversion failed: Required engine not found.\n\nSolutions:\n1. Install the recommended PDF engine for this format\n2. Alternative: Convert to HTML first, then print to PDF from browser\n3. Try a different output format (html, docx, etc.)\n\nOriginal error: ",
                            detail.as_str(),
                        ),
                    )
                } else {
                    Err(
                        ToolError::with_detail(
                            ErrorKind::ExecutionFailed,
                            "Pandoc conversion failed: ",
                            detail.as_str(),
                        ),
                    )
                }
            }
        },
    }
}

} // verus!
