//! The sources of the converter and their order of preference, the state
//! of one source before and after its validation, and the choice among the
//! validated sources.

use vstd::prelude::*;
use vstd::string::*;
use vstd::utf8::{decode_utf8, valid_utf8};
use crate::error::{ErrorKind, ToolError, ToolErrorView};
use crate::probe::{
    fallback_input_names, fallback_output_names, formats_shown, get_supported_formats, utf8_text,
    CommandOutput,
};
use crate::types::{PandocInfo, PandocInfoView};
use crate::version::{
    extract_version_from_output, normalize_version, normalized, version_of_output,
};
use crate::text::{
    chars_of, copy_range, decimal, decimal_text, find_line_end, line_end, same_text, text_of,
};
use crate::version::{extract_version_number, version_number};

verus! {

/// Where an executable of the converter comes from.
#[derive(Clone, Debug, PartialEq, Eq)]
pub enum PandocSource {
    /// A path that the user has set.
    Custom(String),
    /// The managed executable: bundled with the application, or downloaded
    /// into its data directory.
    Managed,
    /// An installation found on the system.
    System(String),
}

/// The value of a source.
pub enum PandocSourceView {
    Custom(Seq<char>),
    Managed,
    System(Seq<char>),
}

impl View for PandocSource {
    type V = PandocSourceView;

    open spec fn view(&self) -> PandocSourceView {
        match self {
            PandocSource::Custom(path) => PandocSourceView::Custom(path@),
            PandocSource::Managed => PandocSourceView::Managed,
            PandocSource::System(path) => PandocSourceView::System(path@),
        }
    }
}

/// The rank of a source in the order of preference; the lower rank wins. A
/// custom path comes before the managed executable, and that before any
/// installation of the system.
pub open spec fn rank(source: PandocSourceView) -> nat {
    match source {
        PandocSourceView::Custom(_) => 0,
        PandocSourceView::Managed => 1,
        PandocSourceView::System(_) => 2,
    }
}

/// The path of the executable of a source. That of the managed source is
/// `managed`: where the managed executable was found, if it was.
pub open spec fn executable_path(source: PandocSourceView, managed: Option<Seq<char>>) -> Option<
    Seq<char>,
> {
    match source {
        PandocSourceView::Custom(path) => Some(path),
        PandocSourceView::Managed => managed,
        PandocSourceView::System(path) => Some(path),
    }
}

impl PandocSource {
    /// A copy of the source.
    pub fn duplicate(&self) -> (out: PandocSource)
        ensures
            out@ == self@,
    {
        match self {
            PandocSource::Custom(path) => PandocSource::Custom(path.clone()),
            PandocSource::Managed => PandocSource::Managed,
            PandocSource::System(path) => PandocSource::System(path.clone()),
        }
    }

    /// The rank of the source in the order of preference.
    pub fn rank(&self) -> (r: u8)
        ensures
            r == rank(self@),
    {
        match self {
            PandocSource::Custom(_) => 0,
            PandocSource::Managed => 1,
            PandocSource::System(_) => 2,
        }
    }
}

/// What the probes of one executable showed.
#[derive(Debug, PartialEq, Eq)]
pub struct ProbeReport {
    /// Whether a file lies at the path.
    pub exists: bool,
    /// The run of the version probe.
    pub version_run: Result<CommandOutput, String>,
    /// The run that lists the formats that the converter reads.
    pub input_listing: Result<CommandOutput, String>,
    /// The run that lists the formats that the converter writes.
    pub output_listing: Result<CommandOutput, String>,
}

/// What the probes of the executable at `path` come to: what is known of
/// it where the file is there and the version probe ran, succeeded and
/// printed valid text, and else the error. The two format lists are read
/// from their listings, each falling back to its table where its listing
/// shows nothing.
pub open spec fn probed_info(path: Seq<char>, report: ProbeReport) -> Result<
    PandocInfoView,
    ToolErrorView,
> {
    if !report.exists {
        Err(ToolErrorView { kind: ErrorKind::NotFound, message: "Pandoc executable not found"@ })
    } else {
        match report.version_run {
            Err(why) => Err(
                ToolErrorView {
                    kind: ErrorKind::ExecutionFailed,
                    message: "Failed to execute pandoc: "@ + why@,
                },
            ),
            Ok(output) => if !output.success {
                Err(
                    ToolErrorView {
                        kind: ErrorKind::ExecutionFailed,
                        message: "Pandoc failed to execute"@,
                    },
                )
            } else if !valid_utf8(output.stdout@) {
                Err(
                    ToolErrorView {
                        kind: ErrorKind::IoError,
                        message: "Failed to read pandoc version output"@,
                    },
                )
            } else {
                Ok(
                    PandocInfoView {
                        version: version_of_output(decode_utf8(output.stdout@)),
                        path,
                        is_working: true,
                        supported_input_formats: formats_shown(
                            report.input_listing,
                            fallback_input_names(),
                        ),
                        supported_output_formats: formats_shown(
                            report.output_listing,
                            fallback_output_names(),
                        ),
                        detected_paths: Seq::empty(),
                        search_paths: Seq::empty(),
                    },
                )
            },
        }
    }
}

/// What is known of the executable at `path` after its probes, or why it
/// cannot be used.
pub fn probe_pandoc(path: &str, report: &ProbeReport) -> (probed: Result<PandocInfo, ToolError>)
    ensures
        match probed {
            Ok(info) => probed_info(path@, *report) == Ok::<PandocInfoView, ToolErrorView>(info@),
            Err(e) => probed_info(path@, *report) == Err::<PandocInfoView, ToolErrorView>(e@),
        },
{
    if !report.exists {
        return Err(
            ToolError::new(ErrorKind::NotFound, String::from_str("Pandoc executable not found")),
        );
    }
    match &report.version_run {
        Err(why) => Err(
            ToolError::with_detail(
                ErrorKind::ExecutionFailed,
                "Failed to execute pandoc: ",
                why.as_str(),
            ),
        ),
        Ok(output) => {
            if !output.success {
                return Err(
                    ToolError::new(
                        ErrorKind::ExecutionFailed,
                        String::from_str("Pandoc failed to execute"),
                    ),
                );
            }
            match utf8_text(output.stdout.clone()) {
                None => Err(
                    ToolError::new(
                        ErrorKind::IoError,
                        String::from_str("Failed to read pandoc version output"),
                    ),
                ),
                Some(text) => {
                    let version = extract_version_from_output(text.as_str());
                    let formats = get_supported_formats(
                        &report.input_listing,
                        &report.output_listing,
                    );
                    let (inputs, outputs) = match formats {
                        Ok(lists) => lists,
                        Err(_) => (Vec::new(), Vec::new()),
                    };
                    let detected_paths: Vec<String> = Vec::new();
                    let search_paths: Vec<String> = Vec::new();
                    assert(detected_paths.deep_view() =~= Seq::<Seq<char>>::empty());
                    assert(search_paths.deep_view() =~= Seq::<Seq<char>>::empty());
                    Ok(
                        PandocInfo {
                            version,
                            path: String::from_str(path),
                            is_working: true,
                            supported_input_formats: inputs,
                            supported_output_formats: outputs,
                            detected_paths,
                            search_paths,
                        },
                    )
                },
            }
        },
    }
}

/// One source of the converter, and what its validation has shown.
#[derive(Clone, Debug, PartialEq, Eq)]
pub struct PandocManager {
    pub source: PandocSource,
    pub info: Option<PandocInfo>,
    pub available: bool,
}

/// The value of a manager.
pub struct PandocManagerView {
    pub source: PandocSourceView,
    pub info: Option<PandocInfoView>,
    pub available: bool,
}

impl View for PandocManager {
    type V = PandocManagerView;

    open spec fn view(&self) -> PandocManagerView {
        PandocManagerView {
            source: self.source@,
            info: match self.info {
                Some(info) => Some(info@),
                None => None,
            },
            available: self.available,
        }
    }
}

/// What the validation of a source comes to: what is known of its
/// executable, or the error. A source without a path cannot be validated.
pub open spec fn validated(
    source: PandocSourceView,
    managed: Option<Seq<char>>,
    report: ProbeReport,
) -> Result<PandocInfoView, ToolErrorView> {
    match executable_path(source, managed) {
        Some(path) => probed_info(path, report),
        None => Err(
            ToolErrorView { kind: ErrorKind::NotFound, message: "Failed to get executable path"@ },
        ),
    }
}

/// A source after its validation: available with what is known of its
/// executable, or unavailable with nothing.
pub open spec fn validated_manager(
    manager: PandocManagerView,
    managed: Option<Seq<char>>,
    report: ProbeReport,
) -> PandocManagerView {
    match validated(manager.source, managed, report) {
        Ok(info) => PandocManagerView { source: manager.source, info: Some(info), available: true },
        Err(_) => PandocManagerView { source: manager.source, info: None, available: false },
    }
}

impl PandocManager {
    /// An available source is known to work: it has its information, and
    /// that says that the executable works.
    pub open spec fn well_formed(&self) -> bool {
        self.available ==> (self.info matches Some(info) && info.is_working)
    }

    /// Whether the source has not been validated yet, or was found
    /// unavailable.
    pub open spec fn is_blank(&self) -> bool {
        self.info is None && !self.available
    }

    /// A source that is not validated yet.
    pub fn new(source: PandocSource) -> (manager: PandocManager)
        ensures
            manager.source == source,
            manager.is_blank(),
            manager.well_formed(),
    {
        PandocManager { source, info: None, available: false }
    }

    /// The path of the source's executable. `managed` is where the managed
    /// executable was found, if it was.
    pub fn get_executable_path(&self, managed: Option<String>) -> (path: Option<String>)
        ensures
            path.deep_view() == executable_path(self.source@, managed.deep_view()),
    {
        match &self.source {
            PandocSource::Custom(path) => Some(path.clone()),
            PandocSource::Managed => managed,
            PandocSource::System(path) => Some(path.clone()),
        }
    }

    /// Validates the source from the probes of its executable. The source
    /// becomes available, with all that is known of the executable, or
    /// unavailable, with nothing: never anything between the two.
    pub fn validate(&mut self, managed: Option<String>, report: &ProbeReport) -> (outcome: Result<
        (),
        ToolError,
    >)
        ensures
            final(self).source == old(self).source,
            final(self).well_formed(),
            final(self)@ == validated_manager(old(self)@, managed.deep_view(), *report),
            match validated(old(self).source@, managed.deep_view(), *report) {
                Ok(info) => outcome is Ok && final(self).available && final(self)@.info == Some(
                    info,
                ),
                Err(e) => outcome matches Err(err) && err@ == e && final(self).is_blank(),
            },
    {
        match self.get_executable_path(managed) {
            Some(path) => {
                match probe_pandoc(path.as_str(), report) {
                    Ok(info) => {
                        self.info = Some(info);
                        self.available = true;
                        Ok(())
                    },
                    Err(e) => {
                        self.info = None;
                        self.available = false;
                        Err(e)
                    },
                }
            },
            None => {
                self.info = None;
                self.available = false;
                Err(
                    ToolError::new(
                        ErrorKind::NotFound,
                        String::from_str("Failed to get executable path"),
                    ),
                )
            },
        }
    }

    /// Whether the source is available.
    pub fn is_available(&self) -> (available: bool)
        ensures
            available == self.available,
    {
        self.available
    }

    /// What is known of the source's executable, if anything.
    pub fn get_info(&self) -> (info: Option<&PandocInfo>)
        ensures
            match info {
                Some(i) => self.info == Some(*i),
                None => self.info is None,
            },
    {
        self.info.as_ref()
    }

    /// A copy of the manager.
    pub fn duplicate(&self) -> (out: PandocManager)
        ensures
            out@ == self@,
    {
        PandocManager {
            source: self.source.duplicate(),
            info: match &self.info {
                Some(info) => Some(info.duplicate()),
                None => None,
            },
            available: self.available,
        }
    }
}

/// A source for a path that the user has set, not validated yet.
pub fn create_custom_manager(custom_path: String) -> (manager: PandocManager)
    ensures
        manager.source@ == PandocSourceView::Custom(custom_path@),
        manager.is_blank(),
        manager.well_formed(),
{
    PandocManager::new(PandocSource::Custom(custom_path))
}

/// A source for a path that the user has set, validated from the probes of
/// its executable; the error where the path holds no executable that
/// works.
pub fn create_and_validate_custom_manager(custom_path: String, report: &ProbeReport) -> (made: Result<
    PandocManager,
    ToolError,
>)
    ensures
        match probed_info(custom_path@, *report) {
            Ok(info) => made matches Ok(m) && m@ == (PandocManagerView {
                source: PandocSourceView::Custom(custom_path@),
                info: Some(info),
                available: true,
            }),
            Err(e) => made matches Err(err) && err@ == e,
        },
{
    let mut manager = create_custom_manager(custom_path);
    match manager.validate(None, report) {
        Ok(_) => Ok(manager),
        Err(e) => Err(e),
    }
}

/// Whether a file's permission bits allow anyone to execute it.
pub open spec fn mode_is_executable(mode: u32) -> bool {
    mode & 0o111 != 0
}

/// Whether a file can be executed, from its Unix permission bits. A file
/// whose permissions cannot be read counts as not executable.
pub fn is_executable(unix_mode: Option<u32>) -> (executable: bool)
    ensures
        executable == (unix_mode matches Some(mode) && mode_is_executable(mode)),
{
    match unix_mode {
        Some(mode) => mode & 0o111 != 0,
        None => false,
    }
}

/// A place of the search paths, and what a look at the file system showed
/// of it.
#[derive(Clone, Debug, PartialEq, Eq)]
pub struct SystemCandidate {
    pub path: String,
    /// Whether a file lies there.
    pub exists: bool,
    /// Whether that file can be executed.
    pub executable: bool,
}

/// The sources for the candidates from index `i` on: one for each place
/// that holds a file which can be executed.
pub open spec fn system_sources(candidates: Seq<SystemCandidate>, i: int) -> Seq<PandocManagerView>
    decreases candidates.len() - i,
{
    if i < 0 || i >= candidates.len() {
        Seq::empty()
    } else if candidates[i].exists && candidates[i].executable {
        seq![
            PandocManagerView {
                source: PandocSourceView::System(candidates[i].path@),
                info: None,
                available: false,
            },
        ] + system_sources(candidates, i + 1)
    } else {
        system_sources(candidates, i + 1)
    }
}

/// The sources that discovery yields: the managed source, then one for
/// each usable place of the search paths, in their order; none of them
/// validated yet.
pub open spec fn discovered_sources(candidates: Seq<SystemCandidate>) -> Seq<PandocManagerView> {
    seq![PandocManagerView { source: PandocSourceView::Managed, info: None, available: false }]
        + system_sources(candidates, 0)
}

/// The values of a list of sources.
pub open spec fn manager_views(managers: Seq<PandocManager>) -> Seq<PandocManagerView> {
    Seq::new(managers.len(), |k: int| managers[k]@)
}

/// The sources of the converter: the managed one, and one for each place of
/// the search paths that holds a file which can be executed. They are to
/// be validated one by one; no validation depends on another.
pub fn discover_pandoc_sources(candidates: &Vec<SystemCandidate>) -> (sources: Vec<PandocManager>)
    ensures
        manager_views(sources@) == discovered_sources(candidates@),
        forall|k: int| 0 <= k < sources.len() ==> (#[trigger] sources[k]).well_formed(),
{
    let mut sources: Vec<PandocManager> = Vec::new();
    sources.push(PandocManager::new(PandocSource::Managed));
    let ghost head = manager_views(sources@);
    assert(head =~= seq![
        PandocManagerView { source: PandocSourceView::Managed, info: None, available: false },
    ]);
    assert(head + system_sources(candidates@, 0) =~= discovered_sources(candidates@));
    let mut i: usize = 0;
    while i < candidates.len()
        invariant
            i <= candidates.len(),
            manager_views(sources@) + system_sources(candidates@, i as int) == discovered_sources(
                candidates@,
            ),
            forall|k: int| 0 <= k < sources.len() ==> (#[trigger] sources[k]).well_formed(),
        decreases candidates.len() - i,
    {
        if candidates[i].exists && candidates[i].executable {
            let ghost before = manager_views(sources@);
            let m = PandocManager::new(PandocSource::System(candidates[i].path.clone()));
            sources.push(m);
            assert(manager_views(sources@) =~= before + seq![m@]);
            assert(manager_views(sources@) + system_sources(candidates@, i + 1) =~= before + (
            seq![m@] + system_sources(candidates@, i + 1)));
        }
        i += 1;
    }
    assert(manager_views(sources@) + Seq::<PandocManagerView>::empty() =~= manager_views(sources@));
    sources
}

/// The sources after a sweep of validations, each source validated from
/// the report at its index; a source without a report is left as it is.
pub open spec fn validated_sources(
    sources: Seq<PandocManagerView>,
    managed: Option<Seq<char>>,
    reports: Seq<ProbeReport>,
) -> Seq<PandocManagerView> {
    Seq::new(
        sources.len(),
        |k: int|
            if k < reports.len() {
                validated_manager(sources[k], managed, reports[k])
            } else {
                sources[k]
            },
    )
}

/// Validates the sources one by one, each from the report at its index,
/// and keeps their order. The failure of one validation makes that source
/// unavailable and touches no other.
pub fn validate_all(
    sources: Vec<PandocManager>,
    managed: &Option<String>,
    reports: &Vec<ProbeReport>,
) -> (swept: Vec<PandocManager>)
    ensures
        manager_views(swept@) == validated_sources(
            manager_views(sources@),
            managed.deep_view(),
            reports@,
        ),
        forall|k: int|
            0 <= k < swept.len() && k < reports.len() ==> (#[trigger] swept[k]).well_formed(),
{
    let mut swept: Vec<PandocManager> = Vec::new();
    let mut i: usize = 0;
    while i < sources.len()
        invariant
            i <= sources.len(),
            swept.len() == i,
            forall|k: int|
                0 <= k < i ==> (#[trigger] swept@[k])@ == validated_sources(
                    manager_views(sources@),
                    managed.deep_view(),
                    reports@,
                )[k],
            forall|k: int|
                0 <= k < i && k < reports.len() ==> (#[trigger] swept[k]).well_formed(),
        decreases sources.len() - i,
    {
        let mut manager = sources[i].duplicate();
        assert(manager_views(sources@)[i as int] == sources@[i as int]@);
        if i < reports.len() {
            let path = match managed {
                Some(p) => Some(p.clone()),
                None => None,
            };
            let _ = manager.validate(path, &reports[i]);
        }
        swept.push(manager);
        i += 1;
    }
    assert(manager_views(swept@) =~= validated_sources(
        manager_views(sources@),
        managed.deep_view(),
        reports@,
    ));
    swept
}

/// Whether a source can be chosen: it is available and has its
/// information.
pub open spec fn usable(manager: PandocManagerView) -> bool {
    manager.available && manager.info is Some
}

/// The index of the first usable source of rank `r` from `i` on.
pub open spec fn first_usable(managers: Seq<PandocManagerView>, r: nat, i: int) -> Option<int>
    decreases managers.len() - i,
{
    if i < 0 || i >= managers.len() {
        None
    } else if usable(managers[i]) && rank(managers[i].source) == r {
        Some(i)
    } else {
        first_usable(managers, r, i + 1)
    }
}

/// The index of the source that is chosen: the first usable one of the
/// best rank that any usable source has. A custom path wins over the
/// managed executable, and that over every installation of the system;
/// within one rank the order of the list decides.
pub open spec fn best_index(managers: Seq<PandocManagerView>) -> Option<int> {
    match first_usable(managers, 0, 0) {
        Some(k) => Some(k),
        None => match first_usable(managers, 1, 0) {
            Some(k) => Some(k),
            None => first_usable(managers, 2, 0),
        },
    }
}

/// The first usable source of a rank is usable and of that rank, and no
/// source before it is both.
pub proof fn lemma_first_usable(managers: Seq<PandocManagerView>, r: nat, i: int)
    requires
        0 <= i,
    ensures
        match first_usable(managers, r, i) {
            Some(k) => i <= k < managers.len() && usable(managers[k]) && rank(managers[k].source)
                == r && forall|j: int|
                i <= j < k ==> !(usable(#[trigger] managers[j]) && rank(managers[j].source) == r),
            None => forall|j: int|
                i <= j < managers.len() ==> !(usable(#[trigger] managers[j]) && rank(
                    managers[j].source,
                ) == r),
        },
    decreases managers.len() - i,
{
    if i < managers.len() && !(usable(managers[i]) && rank(managers[i].source) == r) {
        lemma_first_usable(managers, r, i + 1);
    }
}

/// The chosen source is usable, no usable source has a better rank, and
/// none of the same rank stands before it.
pub proof fn lemma_best_index(managers: Seq<PandocManagerView>)
    ensures
        match best_index(managers) {
            Some(k) => 0 <= k < managers.len() && usable(managers[k]) && forall|j: int|
                0 <= j < managers.len() && usable(#[trigger] managers[j]) ==> rank(
                    managers[k].source,
                ) < rank(managers[j].source) || (rank(managers[k].source) == rank(
                    managers[j].source,
                ) && k <= j),
            None => forall|j: int| 0 <= j < managers.len() ==> !usable(#[trigger] managers[j]),
        },
{
    lemma_first_usable(managers, 0, 0);
    lemma_first_usable(managers, 1, 0);
    lemma_first_usable(managers, 2, 0);
}

/// Where a custom path, the managed executable and an installation of the
/// system are usable at once, the custom path is chosen: the choice falls
/// on the first usable source with a custom path, whatever else is usable.
pub proof fn lemma_custom_path_wins(managers: Seq<PandocManagerView>, custom: int)
    requires
        0 <= custom < managers.len(),
        managers[custom].source is Custom,
        usable(managers[custom]),
        forall|j: int|
            0 <= j < custom ==> !(usable(#[trigger] managers[j]) && managers[j].source is Custom),
    ensures
        best_index(managers) == Some(custom),
{
    lemma_first_usable(managers, 0, 0);
}

/// Without a usable custom path, a usable managed executable is chosen
/// before every installation of the system.
pub proof fn lemma_managed_before_system(managers: Seq<PandocManagerView>, managed: int)
    requires
        0 <= managed < managers.len(),
        managers[managed].source is Managed,
        usable(managers[managed]),
        forall|j: int|
            0 <= j < managers.len() ==> !(usable(#[trigger] managers[j]) && managers[j].source
                is Custom),
        forall|j: int|
            0 <= j < managed ==> !(usable(#[trigger] managers[j]) && managers[j].source is Managed),
    ensures
        best_index(managers) == Some(managed),
{
    lemma_first_usable(managers, 0, 0);
    lemma_first_usable(managers, 1, 0);
}

fn find_usable(managers: &Vec<PandocManager>, r: u8) -> (found: Option<usize>)
    ensures
        match found {
            Some(k) => k < managers.len() && first_usable(manager_views(managers@), r as nat, 0)
                == Some(k as int),
            None => first_usable(manager_views(managers@), r as nat, 0) is None,
        },
{
    let mut i: usize = 0;
    while i < managers.len()
        invariant
            i <= managers.len(),
            first_usable(manager_views(managers@), r as nat, i as int) == first_usable(
                manager_views(managers@),
                r as nat,
                0,
            ),
        decreases managers.len() - i,
    {
        assert(manager_views(managers@)[i as int] == managers@[i as int]@);
        if managers[i].available && managers[i].info.is_some() && managers[i].source.rank() == r {
            return Some(i);
        }
        i += 1;
    }
    None
}

/// The index of the source that is chosen among validated sources.
pub fn best_manager_index(managers: &Vec<PandocManager>) -> (best: Option<usize>)
    ensures
        match best {
            Some(k) => k < managers.len() && best_index(manager_views(managers@)) == Some(k as int),
            None => best_index(manager_views(managers@)) is None,
        },
{
    match find_usable(managers, 0) {
        Some(k) => Some(k),
        None => match find_usable(managers, 1) {
            Some(k) => Some(k),
            None => find_usable(managers, 2),
        },
    }
}

/// The source that is chosen among validated sources: the first usable
/// one in the order of preference. The others are dropped.
pub fn get_best_pandoc_manager(managers: Vec<PandocManager>) -> (best: Option<PandocManager>)
    ensures
        match best {
            Some(m) => best_index(manager_views(managers@)) matches Some(k) && m@
                == managers@[k]@,
            None => best_index(manager_views(managers@)) is None,
        },
{
    match best_manager_index(&managers) {
        Some(k) => Some(managers[k].duplicate()),
        None => None,
    }
}

/// The text of the error for a search that found no source.
pub open spec fn not_found_message() -> Seq<char> {
    "Pandoc not found. Please check your installation or specify a custom path in settings."@
}

/// What is known of the converter that is to be used: the information of
/// the chosen source. Where no source is usable, the error `NotFound`.
pub fn resolve(managers: &Vec<PandocManager>) -> (resolved: Result<PandocInfo, ToolError>)
    ensures
        match best_index(manager_views(managers@)) {
            Some(k) => resolved matches Ok(info) && Some(info@) == managers@[k]@.info,
            None => resolved matches Err(e) && e.kind == ErrorKind::NotFound && e.message@
                == not_found_message(),
        },
{
    match best_manager_index(managers) {
        Some(k) => {
            assert(manager_views(managers@)[k as int] == managers@[k as int]@);
            proof {
                lemma_best_index(manager_views(managers@));
            }
            match &managers[k].info {
                Some(info) => Ok(info.duplicate()),
                None => Err(
                    ToolError::new(
                        ErrorKind::NotFound,
                        String::from_str(
                            "Pandoc not found. Please check your installation or specify a custom path in settings.",
                        ),
                    ),
                ),
            }
        },
        None => Err(
            ToolError::new(
                ErrorKind::NotFound,
                String::from_str(
                    "Pandoc not found. Please check your installation or specify a custom path in settings.",
                ),
            ),
        ),
    }
}

/// The version that the managed source has: that of its information where
/// it is available, `unknown` where it is available without information,
/// and `none` where it is not available.
pub open spec fn managed_version(manager: PandocManagerView) -> Seq<char> {
    if manager.available {
        match manager.info {
            Some(info) => info.version,
            None => "unknown"@,
        }
    } else {
        "none"@
    }
}

/// Whether the managed executable differs from the newest release: the
/// normal forms of the two versions differ as texts. No order of versions
/// is read into them: `3.6` differs from `3.6.0`.
pub fn check_bundled_pandoc_update(managed: &PandocManager, latest_tag: &str) -> (differs: bool)
    ensures
        differs == (normalized(managed_version(managed@)) != normalized(latest_tag@)),
{
    let latest = normalize_version(latest_tag);
    let current = if managed.available {
        match &managed.info {
            Some(info) => normalize_version(info.version.as_str()),
            None => normalize_version("unknown"),
        }
    } else {
        normalize_version("none")
    };
    !same_text(current.as_str(), latest.as_str())
}

/// The first `n` of `paths` as a list, one to a line, each after `- `.
pub open spec fn bullet_list(paths: Seq<Seq<char>>, n: int) -> Seq<char>
    decreases n,
{
    if n <= 0 || n > paths.len() {
        Seq::empty()
    } else if n == 1 {
        "- "@ + paths[0]
    } else {
        bullet_list(paths, n - 1) + "\n"@ + "- "@ + paths[n - 1]
    }
}

/// The text of the error for a search without result: how many places
/// were searched, and the first five of them.
pub open spec fn searched_message(search_paths: Seq<Seq<char>>) -> Seq<char> {
    "Pandoc not found. Searched "@ + decimal(search_paths.len()) + " locations including:\n"@
        + bullet_list(
        search_paths,
        if search_paths.len() < 5 {
            search_paths.len() as int
        } else {
            5
        },
    )
}

/// The command by which the converter is run: the custom path where one is
/// given, else the first installation that was found.
pub open spec fn chosen_command(custom: Option<Seq<char>>, detected: Seq<Seq<char>>) -> Option<
    Seq<char>,
> {
    match custom {
        Some(path) => Some(path),
        None => if detected.len() > 0 {
            Some(detected[0])
        } else {
            None
        },
    }
}

/// The command by which the converter is run, or the error `NotFound`,
/// which names the places that were searched.
pub fn choose_pandoc_command(
    custom_path: Option<String>,
    detected_paths: &Vec<String>,
    search_paths: &Vec<String>,
) -> (command: Result<String, ToolError>)
    ensures
        match chosen_command(custom_path.deep_view(), detected_paths.deep_view()) {
            Some(path) => command matches Ok(c) && c@ == path,
            None => command matches Err(e) && e.kind == ErrorKind::NotFound && e.message@
                == searched_message(search_paths.deep_view()),
        },
{
    match custom_path {
        Some(path) => Ok(path),
        None => {
            if detected_paths.len() > 0 {
                assert(detected_paths.deep_view()[0] == detected_paths@[0]@);
                Ok(detected_paths[0].clone())
            } else {
                let mut message = String::from_str("Pandoc not found. Searched ");
                message.append(decimal_text(search_paths.len() as u64).as_str());
                message.append(" locations including:\n");
                let shown: usize = if search_paths.len() < 5 {
                    search_paths.len()
                } else {
                    5
                };
                let mut list = String::new();
                let mut i: usize = 0;
                while i < shown
                    invariant
                        i <= shown <= search_paths.len(),
                        list@ == bullet_list(search_paths.deep_view(), i as int),
                    decreases shown - i,
                {
                    assert(search_paths.deep_view()[i as int] == search_paths@[i as int]@);
                    if i > 0 {
                        list.append("\n");
                    } else {
                        assert(Seq::<char>::empty() + "- "@ =~= "- "@);
                    }
                    list.append("- ");
                    list.append(search_paths[i].as_str());
                    assert(i > 0 ==> list@ =~= bullet_list(search_paths.deep_view(), i as int)
                        + "\n"@ + "- "@ + search_paths@[i as int]@);
                    i += 1;
                }
                message.append(list.as_str());
                Err(ToolError::new(ErrorKind::NotFound, message))
            }
        },
    }
}

/// What is known of the converter run by `command`, from the run of its
/// version probe and of its two format listings: the version number of the
/// first line that the probe printed, the formats, and the places that
/// were searched and found. A probe that could not be started or did not
/// succeed gives the error `ExecutionFailed`, and one that printed no
/// valid text an `IoError`.
pub open spec fn described(
    command: Seq<char>,
    report: ProbeReport,
    detected: Seq<Seq<char>>,
    searched: Seq<Seq<char>>,
) -> Result<PandocInfoView, ToolErrorView> {
    match report.version_run {
        Err(why) => Err(
            ToolErrorView {
                kind: ErrorKind::ExecutionFailed,
                message: "Failed to execute pandoc at '"@ + command + "': "@ + why@,
            },
        ),
        Ok(output) => if !output.success {
            Err(
                ToolErrorView {
                    kind: ErrorKind::ExecutionFailed,
                    message: "Pandoc at '"@ + command + "' failed to execute"@,
                },
            )
        } else if !valid_utf8(output.stdout@) {
            Err(
                ToolErrorView {
                    kind: ErrorKind::IoError,
                    message: "Failed to read pandoc version output"@,
                },
            )
        } else {
            let text = decode_utf8(output.stdout@);
            let line = if text.len() == 0 {
                "Unknown version"@
            } else {
                text.subrange(0, line_end(text, 0))
            };
            Ok(
                PandocInfoView {
                    version: version_number(line),
                    path: command,
                    is_working: true,
                    supported_input_formats: formats_shown(
                        report.input_listing,
                        fallback_input_names(),
                    ),
                    supported_output_formats: formats_shown(
                        report.output_listing,
                        fallback_output_names(),
                    ),
                    detected_paths: detected,
                    search_paths: searched,
                },
            )
        },
    }
}

/// What is known of the converter run by `command`.
pub fn get_pandoc_info(
    command: String,
    report: &ProbeReport,
    detected_paths: Vec<String>,
    search_paths: Vec<String>,
) -> (info: Result<PandocInfo, ToolError>)
    ensures
        match info {
            Ok(i) => described(
                command@,
                *report,
                detected_paths.deep_view(),
                search_paths.deep_view(),
            ) == Ok::<PandocInfoView, ToolErrorView>(i@),
            Err(e) => described(
                command@,
                *report,
                detected_paths.deep_view(),
                search_paths.deep_view(),
            ) == Err::<PandocInfoView, ToolErrorView>(e@),
        },
{
    match &report.version_run {
        Err(why) => {
            let mut message = String::from_str("Failed to execute pandoc at '");
            message.append(command.as_str());
            message.append("': ");
            message.append(why.as_str());
            Err(ToolError::new(ErrorKind::ExecutionFailed, message))
        },
        Ok(output) => {
            if !output.success {
                let mut message = String::from_str("Pandoc at '");
                message.append(command.as_str());
                message.append("' failed to execute");
                return Err(ToolError::new(ErrorKind::ExecutionFailed, message));
            }
            match utf8_text(output.stdout.clone()) {
                None => Err(
                    ToolError::new(
                        ErrorKind::IoError,
                        String::from_str("Failed to read pandoc version output"),
                    ),
                ),
                Some(text) => {
                    let chars = chars_of(text.as_str());
                    let version = if chars.len() == 0 {
                        extract_version_number("Unknown version")
                    } else {
                        let e = find_line_end(&chars, 0);
                        let line = text_of(&copy_range(&chars, 0, e));
                        extract_version_number(line.as_str())
                    };
                    let formats = get_supported_formats(
                        &report.input_listing,
                        &report.output_listing,
                    );
                    let (inputs, outputs) = match formats {
                        Ok(lists) => lists,
                        Err(_) => (Vec::new(), Vec::new()),
                    };
                    Ok(
                        PandocInfo {
                            version,
                            path: command,
                            is_working: true,
                            supported_input_formats: inputs,
                            supported_output_formats: outputs,
                            detected_paths,
                            search_paths,
                        },
                    )
                },
            }
        },
    }
}

/// The path of the converter: the first installation that was found.
pub fn get_pandoc_path(detected_paths: &Vec<String>) -> (path: Result<String, ToolError>)
    ensures
        match path {
            Ok(p) => detected_paths.len() > 0 && p@ == detected_paths@[0]@,
            Err(e) => detected_paths.len() == 0 && e.kind == ErrorKind::NotFound && e.message@
                == "Pandoc not found in any common locations. Searched paths will be shown in detailed info."@,
        },
{
    if detected_paths.len() == 0 {
        Err(
            ToolError::new(
                ErrorKind::NotFound,
                String::from_str(
                    "Pandoc not found in any common locations. Searched paths will be shown in detailed info.",
                ),
            ),
        )
    } else {
        Ok(detected_paths[0].clone())
    }
}

/// The text that reports a finished update of a managed tool.
pub fn update_message(tool: &str, version: &str) -> (message: String)
    ensures
        message@ == "Successfully updated managed "@ + tool@ + " to version "@ + version@,
{
    let mut message = String::from_str("Successfully updated managed ");
    message.append(tool);
    message.append(" to version ");
    message.append(version);
    message
}

} // verus!
