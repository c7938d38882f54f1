//! The engine: what is checked before the tool is run, what is made of its
//! result, and how a wait for it is concluded.
//!
//! Running the tool is a capability, [`ExtractorClone`], that the caller
//! brings along: the real process, or a stand-in. The functions here are
//! what a worker runs; waiting for the worker with a deadline is the
//! caller's part, and [`PboApi::conclude`] says what the call returns.

use vstd::prelude::*;
use vstd::string::StringExecFns;
use crate::config::{default_config, PboConfig, PboConfigView};
use crate::constants::DEFAULT_TIMEOUT;
use crate::error::{PboError, PboErrorView};
use crate::executor::{
    clamp_timeout,
    failure_of,
    follow_up_of,
    resolve,
    timeout_in_force,
    FollowUp,
    WaitOutcome,
};
use crate::mapper::{plan_renames, planned_renames, rename_views, renamed, Rename};
use crate::options::{
    filter_error,
    options_error,
    regex_accepts,
    usual_extraction,
    usual_listing,
    validate_filter,
    ExtractOptions,
    ExtractOptionsView,
};
use crate::paths::{file_name, unit_result_view, PathProbe};
use crate::result::{
    command_failed,
    extract_prefix,
    option_view,
    prefix_of,
    ExtractResult,
};
use crate::text::{contains_any, views};

verus! {

// ---------------------------------------------------------------------------
// Capabilities
// ---------------------------------------------------------------------------

/// Runs the extraction tool. Nothing is promised of what an implementation
/// returns: the engine checks whatever comes back. The two relations only
/// give a name to what a run may come to, so that a caller can say which
/// run its result stems from.
pub trait ExtractorClone {
    /// `r` is what an extraction of the archive at `pbo_path` into
    /// `output_dir` with `options` may come to. An implementation that
    /// does not say otherwise may come to any result.
    open spec fn extracted(
        &self,
        pbo_path: Seq<char>,
        output_dir: Seq<char>,
        options: ExtractOptionsView,
        r: Result<ExtractResult, PboError>,
    ) -> bool {
        true
    }

    /// `r` is what a listing of the archive at `pbo_path` with `options`
    /// may come to. An implementation that does not say otherwise may come
    /// to any result.
    open spec fn listed(
        &self,
        pbo_path: Seq<char>,
        options: ExtractOptionsView,
        r: Result<ExtractResult, PboError>,
    ) -> bool {
        true
    }

    /// Extracts the archive at `pbo_path` into `output_dir`.
    fn extract_with_options(
        &self,
        pbo_path: &str,
        output_dir: &str,
        options: ExtractOptions,
    ) -> (r: Result<ExtractResult, PboError>)
        ensures
            self.extracted(pbo_path@, output_dir@, options@, r),
    ;

    /// Lists the archive at `pbo_path`.
    fn list_with_options(&self, pbo_path: &str, options: ExtractOptions) -> (r: Result<
        ExtractResult,
        PboError,
    >)
        ensures
            self.listed(pbo_path@, options@, r),
    ;

    /// Extracts with the usual options: no pause, warnings as errors, and
    /// the file filter where there is one. The result is that of
    /// [`ExtractorClone::extract_with_options`] with these options.
    fn extract(&self, pbo_path: &str, output_dir: &str, file_filter: Option<&str>) -> (r: Result<
        ExtractResult,
        PboError,
    >)
        ensures
            self.extracted(
                pbo_path@,
                output_dir@,
                usual_extraction(crate::config::option_str_view(file_filter)),
                r,
            ),
    {
        let options = ExtractOptions::for_filtered_extraction(owned_filter(file_filter));
        self.extract_with_options(pbo_path, output_dir, options)
    }

    /// Lists with the usual options: no pause, warnings as errors, brief
    /// or detailed. The result is that of
    /// [`ExtractorClone::list_with_options`] with these options.
    fn list_contents(&self, pbo_path: &str, brief: bool) -> (r: Result<ExtractResult, PboError>)
        ensures
            self.listed(pbo_path@, usual_listing(brief), r),
    {
        let options = if brief {
            ExtractOptions::for_brief_listing()
        } else {
            ExtractOptions::for_listing()
        };
        self.list_with_options(pbo_path, options)
    }
}

/// Runs an extraction with the usual options and an optional file filter.
pub trait Extractor {
    /// Extracts the archive at `pbo_path` into `output_dir`.
    fn extract(&self, pbo_path: &str, output_dir: &str, file_filter: Option<&str>) -> Result<
        ExtractResult,
        PboError,
    >;
}

/// An owned copy of an optional string slice.
pub fn owned_filter(file_filter: Option<&str>) -> (r: Option<String>)
    ensures
        option_view(r) == crate::config::option_str_view(file_filter),
{
    match file_filter {
        Some(f) => Some(String::from_str(f)),
        None => None,
    }
}

// ---------------------------------------------------------------------------
// Model
// ---------------------------------------------------------------------------

/// Why an archive is refused before anything is run: it does not exist.
pub open spec fn source_error(pbo: PathProbe) -> Option<PboErrorView> {
    if !pbo.exists {
        Some(PboErrorView::InvalidPath(pbo.path@))
    } else {
        None
    }
}

/// Why an output directory is refused: it does not exist and neither does
/// its parent, so it cannot be created.
pub open spec fn output_dir_error(output_dir: PathProbe) -> Option<PboErrorView> {
    if !output_dir.exists && !output_dir.parent_exists {
        Some(PboErrorView::InvalidPath(output_dir.path@))
    } else {
        None
    }
}

/// Why an archive is refused as too small to be one.
pub open spec fn archive_error(pbo: PathProbe) -> Option<PboErrorView> {
    if !pbo.exists {
        Some(PboErrorView::InvalidPath(pbo.path@))
    } else if pbo.size < MIN_ARCHIVE_BYTES {
        Some(PboErrorView::InvalidPbo("File too small to be a valid PBO"@))
    } else {
        None
    }
}

/// The size in bytes below which a file cannot be an archive.
pub const MIN_ARCHIVE_BYTES: u64 = 8;

/// Why a listing is refused before anything is run. In this order: the
/// archive does not exist; the options contradict each other or the file
/// filter holds a character it must not.
pub open spec fn listing_error(pbo: PathProbe, options: ExtractOptionsView) -> Option<
    PboErrorView,
> {
    if source_error(pbo) is Some {
        source_error(pbo)
    } else {
        options_error(options.brief_listing, options.file_filter)
    }
}

/// Why an extraction is refused before anything is run. In this order: the
/// archive does not exist; the output directory cannot be created; the file
/// filter is blank; the file filter is no glob and no regular expression;
/// the options contradict each other or the file filter holds a character
/// it must not.
pub open spec fn extraction_error(
    pbo: PathProbe,
    output_dir: PathProbe,
    options: ExtractOptionsView,
) -> Option<PboErrorView> {
    if source_error(pbo) is Some {
        source_error(pbo)
    } else if output_dir_error(output_dir) is Some {
        output_dir_error(output_dir)
    } else if options.file_filter is Some && filter_error(
        options.file_filter.unwrap(),
        regex_accepts(options.file_filter.unwrap()),
    ) is Some {
        filter_error(options.file_filter.unwrap(), regex_accepts(options.file_filter.unwrap()))
    } else {
        options_error(options.brief_listing, options.file_filter)
    }
}

/// The path in the output directory that a file filter names, where there
/// is a filter. What is found there before an extraction is stale.
pub open spec fn stale_target_of(output_dir: Seq<char>, file_filter: Option<Seq<char>>) -> Option<
    Seq<char>,
> {
    match file_filter {
        Some(f) => Some(crate::temp::joined(output_dir, f)),
        None => None,
    }
}

/// A run is accepted where it succeeded; a failed run becomes the error
/// `CommandFailed` with its message, and an error stays what it is.
pub open spec fn accepted(run: Result<ExtractResult, PboError>, r: Result<
    ExtractResult,
    PboError,
>) -> bool {
    match run {
        Ok(result) => if result.success() {
            r == run
        } else {
            r is Err && r->Err_0@ == crate::result::failure_view(result)
        },
        Err(_) => r == run,
    }
}

/// What an extraction comes to where only its exit code is asked for:
/// `true` for a run that succeeded, and the errors as [`accepted`] has
/// them.
pub open spec fn extraction_done(run: Result<ExtractResult, PboError>, r: Result<
    bool,
    PboError,
>) -> bool {
    match run {
        Ok(result) => if result.success() {
            r == Ok::<bool, PboError>(true)
        } else {
            r is Err && r->Err_0@ == crate::result::failure_view(result)
        },
        Err(e) => r is Err && r->Err_0 == e,
    }
}

/// What a listing comes to where its prefix is asked for: the prefix that
/// the output of a successful run announces, and the errors as
/// [`accepted`] has them.
pub open spec fn prefix_read(run: Result<ExtractResult, PboError>, r: Result<
    Option<String>,
    PboError,
>) -> bool {
    match run {
        Ok(result) => if result.success() {
            r is Ok && option_view(r->Ok_0) == prefix_of(result.stdout@)
        } else {
            r is Err && r->Err_0@ == crate::result::failure_view(result)
        },
        Err(e) => r is Err && r->Err_0 == e,
    }
}

/// What the engine without a deadline returns for a listing: its own error
/// for an archive that does not exist, and else, unchanged, what the
/// listing of that archive with these options came to.
pub open spec fn listing_handed_on<E: ExtractorClone>(
    extractor: &E,
    pbo: PathProbe,
    options: ExtractOptionsView,
    r: Result<ExtractResult, PboError>,
) -> bool {
    match source_error(pbo) {
        Some(e) => r is Err && r->Err_0@ == e,
        None => extractor.listed(pbo.path@, options, r),
    }
}

/// What the engine without a deadline returns for an extraction: the error
/// `refusal` where there is one, and else, unchanged, what the extraction
/// of that archive into that directory with these options came to.
pub open spec fn extraction_handed_on<E: ExtractorClone>(
    extractor: &E,
    refusal: Option<PboErrorView>,
    pbo: PathProbe,
    output_dir: PathProbe,
    options: ExtractOptionsView,
    r: Result<ExtractResult, PboError>,
) -> bool {
    match refusal {
        Some(e) => r is Err && r->Err_0@ == e,
        None => extractor.extracted(pbo.path@, output_dir.path@, options, r),
    }
}

/// What the engine returns for a listing: its own error where
/// [`listing_error`] finds one, and else what [`accepted`] makes of the run
/// that the listing of that archive with these options came to.
pub open spec fn listing_accepted<E: ExtractorClone>(
    extractor: &E,
    pbo: PathProbe,
    options: ExtractOptionsView,
    r: Result<ExtractResult, PboError>,
) -> bool {
    match listing_error(pbo, options) {
        Some(e) => r is Err && r->Err_0@ == e,
        None => exists|run: Result<ExtractResult, PboError>| #[trigger]
            extractor.listed(pbo.path@, options, run) && accepted(run, r),
    }
}

/// What the engine returns for an extraction: its own error where
/// [`extraction_error`] finds one, and else what [`accepted`] makes of the
/// run that the extraction of that archive into that directory with these
/// options came to.
pub open spec fn extraction_accepted<E: ExtractorClone>(
    extractor: &E,
    pbo: PathProbe,
    output_dir: PathProbe,
    options: ExtractOptionsView,
    r: Result<ExtractResult, PboError>,
) -> bool {
    match extraction_error(pbo, output_dir, options) {
        Some(e) => r is Err && r->Err_0@ == e,
        None => exists|run: Result<ExtractResult, PboError>| #[trigger]
            extractor.extracted(pbo.path@, output_dir.path@, options, run) && accepted(run, r),
    }
}

// ---------------------------------------------------------------------------
// Laws
// ---------------------------------------------------------------------------

/// Two listings that the engine accepted and whose runs wrote the same
/// standard output list the same files, in the same order.
pub proof fn lemma_equal_output_lists_the_same_files(
    run1: Result<ExtractResult, PboError>,
    run2: Result<ExtractResult, PboError>,
    r1: Result<ExtractResult, PboError>,
    r2: Result<ExtractResult, PboError>,
)
    requires
        accepted(run1, r1),
        accepted(run2, r2),
        r1 is Ok,
        r2 is Ok,
        run1 is Ok && run2 is Ok ==> run1->Ok_0.stdout@ == run2->Ok_0.stdout@,
    ensures
        run1 is Ok,
        run2 is Ok,
        r1 == run1,
        r2 == run2,
        crate::result::file_list_of(r1->Ok_0.stdout@) == crate::result::file_list_of(
            r2->Ok_0.stdout@,
        ),
{
}

/// The engine refuses a request whose file filter holds a double quote or
/// a pipe before anything is run, whatever the paths are and whoever runs
/// the tool.
pub proof fn lemma_quote_or_pipe_is_refused_by_the_engine(
    pbo: PathProbe,
    output_dir: PathProbe,
    options: ExtractOptionsView,
)
    requires
        options.file_filter is Some,
        options.file_filter.unwrap().contains('"') || options.file_filter.unwrap().contains('|'),
    ensures
        extraction_error(pbo, output_dir, options) is Some,
        listing_error(pbo, options) is Some,
{
    crate::options::lemma_quote_or_pipe_is_refused(
        options.brief_listing,
        options.file_filter.unwrap(),
    );
}

// ---------------------------------------------------------------------------
// Checks
// ---------------------------------------------------------------------------

/// Checks that the archive exists.
pub fn validate_source(pbo: &PathProbe) -> (r: Result<(), PboError>)
    ensures
        unit_result_view(r) == source_error(*pbo),
{
    if !pbo.exists {
        return Err(PboError::InvalidPath(pbo.path.clone()));
    }
    Ok(())
}

/// Checks that the output directory exists or can be created.
pub fn validate_output(output_dir: &PathProbe) -> (r: Result<(), PboError>)
    ensures
        unit_result_view(r) == output_dir_error(*output_dir),
{
    if !output_dir.exists && !output_dir.parent_exists {
        return Err(PboError::InvalidPath(output_dir.path.clone()));
    }
    Ok(())
}

/// Checks everything that can be checked of a listing before the tool is
/// run: see [`listing_error`].
pub fn validate_listing(pbo: &PathProbe, options: &ExtractOptions) -> (r: Result<(), PboError>)
    ensures
        unit_result_view(r) == listing_error(*pbo, options@),
{
    match validate_source(pbo) {
        Err(e) => {
            return Err(e);
        },
        Ok(_) => {},
    }
    options.validate()
}

/// Checks everything that can be checked of an extraction before the tool
/// is run: see [`extraction_error`].
pub fn validate_extraction(pbo: &PathProbe, output_dir: &PathProbe, options: &ExtractOptions) -> (r:
    Result<(), PboError>)
    ensures
        unit_result_view(r) == extraction_error(*pbo, *output_dir, options@),
{
    match validate_source(pbo) {
        Err(e) => {
            return Err(e);
        },
        Ok(_) => {},
    }
    match validate_output(output_dir) {
        Err(e) => {
            return Err(e);
        },
        Ok(_) => {},
    }
    match &options.file_filter {
        Some(f) => {
            match validate_filter(f.as_str()) {
                Err(e) => {
                    return Err(e);
                },
                Ok(_) => {},
            }
        },
        None => {},
    }
    options.validate()
}

/// The path that is to be cleared before an extraction with `file_filter`
/// into `output_dir`, so that no stale file is taken for an extracted one.
pub fn stale_target(output_dir: &str, file_filter: Option<&str>) -> (r: Option<String>)
    ensures
        option_view(r) == stale_target_of(output_dir@, crate::config::option_str_view(file_filter)),
{
    match file_filter {
        Some(f) => Some(crate::temp::join_paths(output_dir, f)),
        None => None,
    }
}

/// Accepts a run where it succeeded: see [`accepted`].
pub fn accept(run: Result<ExtractResult, PboError>) -> (r: Result<ExtractResult, PboError>)
    ensures
        accepted(run, r),
        r matches Ok(result) ==> result.success(),
{
    match run {
        Ok(result) => {
            if result.is_success() {
                Ok(result)
            } else {
                Err(command_failed(&result))
            }
        },
        Err(e) => Err(e),
    }
}

// ---------------------------------------------------------------------------
// PboApiOps
// ---------------------------------------------------------------------------

/// The operations on an archive. Each takes the capability that runs the
/// tool and what was found out about the paths on disk. None runs the tool
/// for an archive that does not exist. What else an engine refuses before
/// the tool is run, and what it makes of a run, is the engine's own; it
/// says so in the four spec functions, and every operation returns the
/// engine's refusal or what the engine makes of the one run that the tool
/// came to for the operation's arguments.
pub trait PboApiOps {
    /// Why this engine refuses a listing before the tool is run.
    spec fn listing_refusal(&self, pbo: PathProbe, options: ExtractOptionsView) -> Option<
        PboErrorView,
    >;

    /// Why this engine refuses an extraction before the tool is run.
    spec fn extraction_refusal(
        &self,
        pbo: PathProbe,
        output_dir: PathProbe,
        options: ExtractOptionsView,
    ) -> Option<PboErrorView>;

    /// Why this engine refuses an extraction with the usual options before
    /// the tool is run.
    spec fn files_refusal(
        &self,
        pbo: PathProbe,
        output_dir: PathProbe,
        file_filter: Option<Seq<char>>,
    ) -> Option<PboErrorView>;

    /// `r` is what this engine returns for the run `run`.
    spec fn made_of(
        &self,
        run: Result<ExtractResult, PboError>,
        r: Result<ExtractResult, PboError>,
    ) -> bool;

    /// Lists the archive in detail with the usual options.
    fn list_contents<E: ExtractorClone>(&self, extractor: &E, pbo: &PathProbe) -> (r: Result<
        ExtractResult,
        PboError,
    >)
        ensures
            source_error(*pbo) matches Some(e) ==> r is Err && r->Err_0@ == e,
            match self.listing_refusal(*pbo, usual_listing(false)) {
                Some(e) => r is Err && r->Err_0@ == e,
                None => exists|run: Result<ExtractResult, PboError>| #[trigger]
                    extractor.listed(pbo.path@, usual_listing(false), run) && self.made_of(
                        run,
                        r,
                    ),
            },
    ;

    /// Lists the archive briefly with the usual options.
    fn list_contents_brief<E: ExtractorClone>(&self, extractor: &E, pbo: &PathProbe) -> (r: Result<
        ExtractResult,
        PboError,
    >)
        ensures
            source_error(*pbo) matches Some(e) ==> r is Err && r->Err_0@ == e,
            match self.listing_refusal(*pbo, usual_listing(true)) {
                Some(e) => r is Err && r->Err_0@ == e,
                None => exists|run: Result<ExtractResult, PboError>| #[trigger]
                    extractor.listed(pbo.path@, usual_listing(true), run) && self.made_of(
                        run,
                        r,
                    ),
            },
    ;

    /// Extracts the archive with the usual options and an optional filter.
    fn extract_files<E: ExtractorClone>(
        &self,
        extractor: &E,
        pbo: &PathProbe,
        output_dir: &PathProbe,
        file_filter: Option<&str>,
    ) -> (r: Result<ExtractResult, PboError>)
        ensures
            source_error(*pbo) matches Some(e) ==> r is Err && r->Err_0@ == e,
            match self.files_refusal(
                *pbo,
                *output_dir,
                crate::config::option_str_view(file_filter),
            ) {
                Some(e) => r is Err && r->Err_0@ == e,
                None => exists|run: Result<ExtractResult, PboError>| #[trigger]
                    extractor.extracted(
                        pbo.path@,
                        output_dir.path@,
                        usual_extraction(crate::config::option_str_view(file_filter)),
                        run,
                    ) && self.made_of(run, r),
            },
    ;

    /// Lists the archive with `options`.
    fn list_with_options<E: ExtractorClone>(
        &self,
        extractor: &E,
        pbo: &PathProbe,
        options: ExtractOptions,
    ) -> (r: Result<ExtractResult, PboError>)
        ensures
            source_error(*pbo) matches Some(e) ==> r is Err && r->Err_0@ == e,
            match self.listing_refusal(*pbo, options@) {
                Some(e) => r is Err && r->Err_0@ == e,
                None => exists|run: Result<ExtractResult, PboError>| #[trigger]
                    extractor.listed(pbo.path@, options@, run) && self.made_of(run, r),
            },
    ;

    /// Extracts the archive with `options`.
    fn extract_with_options<E: ExtractorClone>(
        &self,
        extractor: &E,
        pbo: &PathProbe,
        output_dir: &PathProbe,
        options: ExtractOptions,
    ) -> (r: Result<ExtractResult, PboError>)
        ensures
            source_error(*pbo) matches Some(e) ==> r is Err && r->Err_0@ == e,
            match self.extraction_refusal(*pbo, *output_dir, options@) {
                Some(e) => r is Err && r->Err_0@ == e,
                None => exists|run: Result<ExtractResult, PboError>| #[trigger]
                    extractor.extracted(pbo.path@, output_dir.path@, options@, run)
                    && self.made_of(run, r),
            },
    ;
}

// ---------------------------------------------------------------------------
// PboCore
// ---------------------------------------------------------------------------

/// The engine without a deadline: it checks that the archive exists and
/// hands on what the tool returns, failed runs included.
#[derive(Debug, Clone)]
pub struct PboCore {
    config: PboConfig,
}

/// What follows a finished extraction, given the files found in the output
/// directory: after exit code zero the renames that are due, or `NoFiles`
/// where nothing was extracted; after another exit code no renames, or
/// `InvalidPbo` where standard error carries an indicator of a corrupt
/// archive.
pub open spec fn extraction_follow_up(
    c: PboConfigView,
    code: int,
    stderr: Seq<char>,
    files: Seq<Seq<char>>,
) -> Result<Seq<(Seq<char>, Seq<char>)>, PboErrorView> {
    if code == 0 {
        if files.len() == 0 {
            Err(PboErrorView::Extraction(crate::error::ExtractErrorView::NoFiles))
        } else {
            Ok(planned_renames(c, files))
        }
    } else if contains_any(stderr, c.indicators) {
        Err(PboErrorView::InvalidPbo("Bad PBO format detected: "@ + stderr))
    } else {
        Ok(Seq::empty())
    }
}

impl PboCore {
    /// The configuration of the engine.
    pub closed spec fn config_view(&self) -> PboConfigView {
        self.config@
    }

    /// An engine with `config`, or with the default configuration.
    pub fn new(config: Option<PboConfig>) -> (core: PboCore)
        ensures
            core.config_view() == (match config {
                Some(c) => c@,
                None => default_config(),
            }),
    {
        match config {
            Some(c) => PboCore { config: c },
            None => PboCore { config: PboConfig::default() },
        }
    }

    /// The configuration of the engine.
    pub fn config(&self) -> (c: &PboConfig)
        ensures
            c@ == self.config_view(),
    {
        &self.config
    }

    /// Checks that the archive exists and is large enough to be one.
    pub fn validate_pbo(&self, pbo: &PathProbe) -> (r: Result<(), PboError>)
        ensures
            unit_result_view(r) == archive_error(*pbo),
    {
        if !pbo.exists {
            return Err(PboError::InvalidPath(pbo.path.clone()));
        }
        if pbo.size < MIN_ARCHIVE_BYTES {
            return Err(PboError::InvalidPbo(String::from_str("File too small to be a valid PBO")));
        }
        Ok(())
    }

    /// The archive prefix announced in `output`.
    pub fn extract_prefix(&self, output: &str) -> (r: Option<String>)
        ensures
            option_view(r) == prefix_of(output@),
    {
        extract_prefix(output)
    }

    /// The new file name of the extracted file at `path`, if it is to be
    /// renamed.
    pub fn detect_bin_type(&self, path: &str) -> (r: Option<String>)
        ensures
            option_view(r) == renamed(self.config_view(), file_name(path@)),
    {
        crate::mapper::detect_bin_type(&self.config, path)
    }

    /// What follows a finished extraction that left `files` in the output
    /// directory: see [`extraction_follow_up`].
    pub fn finish_extraction(&self, result: &ExtractResult, files: &Vec<String>) -> (r: Result<
        Vec<Rename>,
        PboError,
    >)
        ensures
            (match r {
                Ok(plan) => Ok::<Seq<(Seq<char>, Seq<char>)>, PboErrorView>(rename_views(plan@)),
                Err(e) => Err(e@),
            }) == extraction_follow_up(
                self.config_view(),
                result.return_code as int,
                result.stderr@,
                views(files@),
            ),
    {
        if result.return_code == 0 {
            if files.len() == 0 {
                return Err(PboError::Extraction(crate::error::ExtractError::NoFiles));
            }
            Ok(plan_renames(&self.config, files))
        } else if self.config.is_bad_pbo(result.stderr.as_str()) {
            let mut msg = String::from_str("Bad PBO format detected: ");
            msg.append(result.stderr.as_str());
            Err(PboError::InvalidPbo(msg))
        } else {
            let plan: Vec<Rename> = Vec::new();
            assert(rename_views(plan@) =~= Seq::<(Seq<char>, Seq<char>)>::empty());
            Ok(plan)
        }
    }
}

impl PboApiOps for PboCore {
    /// This engine refuses a listing of an archive that does not exist.
    open spec fn listing_refusal(&self, pbo: PathProbe, options: ExtractOptionsView) -> Option<
        PboErrorView,
    > {
        source_error(pbo)
    }

    /// This engine refuses an extraction of an archive that does not
    /// exist.
    open spec fn extraction_refusal(
        &self,
        pbo: PathProbe,
        output_dir: PathProbe,
        options: ExtractOptionsView,
    ) -> Option<PboErrorView> {
        source_error(pbo)
    }

    /// With the usual options this engine also refuses an archive that is
    /// shorter than [`MIN_ARCHIVE_BYTES`] and so cannot be one.
    open spec fn files_refusal(
        &self,
        pbo: PathProbe,
        output_dir: PathProbe,
        file_filter: Option<Seq<char>>,
    ) -> Option<PboErrorView> {
        archive_error(pbo)
    }

    /// This engine hands a run on unchanged, a failed one too.
    open spec fn made_of(
        &self,
        run: Result<ExtractResult, PboError>,
        r: Result<ExtractResult, PboError>,
    ) -> bool {
        r == run
    }

    fn list_contents<E: ExtractorClone>(&self, extractor: &E, pbo: &PathProbe) -> (r: Result<
        ExtractResult,
        PboError,
    >)
        ensures
            listing_handed_on(extractor, *pbo, usual_listing(false), r),
    {
        let options = ExtractOptions::for_listing();
        assert(options@ == usual_listing(false));
        let r = self.list_with_options(extractor, pbo, options);
        assert(source_error(*pbo) is None ==> extractor.listed(pbo.path@, usual_listing(false), r)
            && self.made_of(r, r));
        r
    }

    fn list_contents_brief<E: ExtractorClone>(&self, extractor: &E, pbo: &PathProbe) -> (r: Result<
        ExtractResult,
        PboError,
    >)
        ensures
            listing_handed_on(extractor, *pbo, usual_listing(true), r),
    {
        let options = ExtractOptions::for_brief_listing();
        assert(options@ == usual_listing(true));
        let r = self.list_with_options(extractor, pbo, options);
        assert(source_error(*pbo) is None ==> extractor.listed(pbo.path@, usual_listing(true), r)
            && self.made_of(r, r));
        r
    }

    fn extract_files<E: ExtractorClone>(
        &self,
        extractor: &E,
        pbo: &PathProbe,
        output_dir: &PathProbe,
        file_filter: Option<&str>,
    ) -> (r: Result<ExtractResult, PboError>)
        ensures
            archive_error(*pbo) matches Some(e) ==> r is Err && r->Err_0@ == e,
            extraction_handed_on(
                extractor,
                archive_error(*pbo),
                *pbo,
                *output_dir,
                usual_extraction(crate::config::option_str_view(file_filter)),
                r,
            ),
    {
        match self.validate_pbo(pbo) {
            Err(e) => {
                return Err(e);
            },
            Ok(_) => {},
        }
        let options = ExtractOptions::for_filtered_extraction(owned_filter(file_filter));
        assert(options@ == usual_extraction(crate::config::option_str_view(file_filter)));
        let r = extractor.extract_with_options(
            pbo.path.as_str(),
            output_dir.path.as_str(),
            options,
        );
        assert(extractor.extracted(
            pbo.path@,
            output_dir.path@,
            usual_extraction(crate::config::option_str_view(file_filter)),
            r,
        ) && self.made_of(r, r));
        r
    }

    fn list_with_options<E: ExtractorClone>(
        &self,
        extractor: &E,
        pbo: &PathProbe,
        options: ExtractOptions,
    ) -> (r: Result<ExtractResult, PboError>)
        ensures
            listing_handed_on(extractor, *pbo, options@, r),
    {
        match validate_source(pbo) {
            Err(e) => {
                return Err(e);
            },
            Ok(_) => {},
        }
        let ghost handed = options@;
        let r = extractor.list_with_options(pbo.path.as_str(), options);
        assert(extractor.listed(pbo.path@, handed, r) && self.made_of(r, r));
        r
    }

    fn extract_with_options<E: ExtractorClone>(
        &self,
        extractor: &E,
        pbo: &PathProbe,
        output_dir: &PathProbe,
        options: ExtractOptions,
    ) -> (r: Result<ExtractResult, PboError>)
        ensures
            extraction_handed_on(extractor, source_error(*pbo), *pbo, *output_dir, options@, r),
    {
        match validate_source(pbo) {
            Err(e) => {
                return Err(e);
            },
            Ok(_) => {},
        }
        let ghost handed = options@;
        let r = extractor.extract_with_options(
            pbo.path.as_str(),
            output_dir.path.as_str(),
            options,
        );
        assert(extractor.extracted(pbo.path@, output_dir.path@, handed, r) && self.made_of(r, r));
        r
    }
}

// ---------------------------------------------------------------------------
// PboApi
// ---------------------------------------------------------------------------

/// The engine with a deadline. A handle is cheap to clone and read-only,
/// so any number of calls may share one.
#[derive(Debug, Clone)]
pub struct PboApi {
    config: PboConfig,
    timeout: u32,
}

/// Collects the settings of a [`PboApi`].
#[derive(Debug, Clone)]
pub struct PboApiBuilder {
    config: Option<PboConfig>,
    timeout: Option<u32>,
}

impl PboApiBuilder {
    /// The configuration that was set, if any.
    pub closed spec fn config_view(&self) -> Option<PboConfigView> {
        match self.config {
            Some(c) => Some(c@),
            None => None,
        }
    }

    /// The timeout in seconds that was set, if any.
    pub closed spec fn timeout(&self) -> Option<u32> {
        self.timeout
    }

    /// A builder with nothing set.
    pub fn new() -> (b: PboApiBuilder)
        ensures
            b.config_view() is None,
            b.timeout() is None,
    {
        PboApiBuilder { config: None, timeout: None }
    }

    /// Sets the configuration.
    pub fn with_config(self, config: PboConfig) -> (b: PboApiBuilder)
        ensures
            b.config_view() == Some(config@),
            b.timeout() == self.timeout(),
    {
        PboApiBuilder { config: Some(config), timeout: self.timeout }
    }

    /// Sets the timeout to `seconds`, and to one second where `seconds` is
    /// zero.
    pub fn with_timeout(self, seconds: u32) -> (b: PboApiBuilder)
        ensures
            b.config_view() == self.config_view(),
            b.timeout() == Some(crate::executor::configured_timeout(seconds)),
    {
        PboApiBuilder { config: self.config, timeout: Some(clamp_timeout(seconds)) }
    }

    /// The engine with what was set, and with the default configuration
    /// and the default timeout for what was not.
    pub fn build(self) -> (api: PboApi)
        ensures
            api.config_view() == (match self.config_view() {
                Some(c) => c,
                None => default_config(),
            }),
            api.timeout() == (match self.timeout() {
                Some(t) => t,
                None => DEFAULT_TIMEOUT,
            }),
    {
        let config = match self.config {
            Some(c) => c,
            None => PboConfig::default(),
        };
        let timeout = match self.timeout {
            Some(t) => t,
            None => DEFAULT_TIMEOUT,
        };
        PboApi { config, timeout }
    }
}

impl PboApi {
    /// The configuration of the engine.
    pub closed spec fn config_view(&self) -> PboConfigView {
        self.config@
    }

    /// The timeout of the engine in seconds.
    pub closed spec fn timeout(&self) -> u32 {
        self.timeout
    }

    /// A builder with nothing set.
    pub fn builder() -> (b: PboApiBuilder)
        ensures
            b.config_view() is None,
            b.timeout() is None,
    {
        PboApiBuilder::new()
    }

    /// An engine with the default configuration and a timeout of
    /// `timeout_seconds`, at least one second.
    pub fn new(timeout_seconds: u32) -> (api: PboApi)
        ensures
            api.config_view() == default_config(),
            api.timeout() == timeout_in_force(Some(timeout_seconds)),
    {
        PboApiBuilder::new().with_timeout(timeout_seconds).build()
    }

    /// The configuration of the engine.
    pub fn config(&self) -> (c: &PboConfig)
        ensures
            c@ == self.config_view(),
    {
        &self.config
    }

    /// The timeout of the engine in seconds.
    pub fn timeout_seconds(&self) -> (t: u32)
        ensures
            t == self.timeout(),
    {
        self.timeout
    }

    /// The archive prefix announced in `output`.
    pub fn extract_prefix(&self, output: &str) -> (r: Option<String>)
        ensures
            option_view(r) == prefix_of(output@),
    {
        extract_prefix(output)
    }

    /// Checks that the archive exists.
    pub fn validate_pbo_exists(&self, pbo: &PathProbe) -> (r: Result<(), PboError>)
        ensures
            unit_result_view(r) == source_error(*pbo),
    {
        validate_source(pbo)
    }

    /// Checks that the output directory exists or can be created.
    pub fn validate_output_dir(&self, output_dir: &PathProbe) -> (r: Result<(), PboError>)
        ensures
            unit_result_view(r) == output_dir_error(*output_dir),
    {
        validate_output(output_dir)
    }

    /// What a call returns after the wait for its worker ended with
    /// `outcome`, and what is left to do: a deadline yields `Timeout` with
    /// the timeout of this engine.
    pub fn conclude<T>(&self, outcome: WaitOutcome<Result<T, PboError>>) -> (r: (
        Result<T, PboError>,
        FollowUp,
    ))
        ensures
            r.1 == follow_up_of(outcome),
            outcome matches WaitOutcome::Completed(result) ==> r.0 == result,
            match failure_of(outcome, self.timeout()) {
                Some(e) => r.0 is Err && r.0->Err_0@ == e,
                None => true,
            },
    {
        resolve(outcome, self.timeout)
    }

    /// Lists the archive in detail with the usual options. A run that
    /// failed is an error.
    pub fn list_contents<E: ExtractorClone>(&self, extractor: &E, pbo: &PathProbe) -> (r: Result<
        ExtractResult,
        PboError,
    >)
        ensures
            listing_accepted(extractor, *pbo, usual_listing(false), r),
            r matches Ok(result) ==> result.success(),
    {
        let options = ExtractOptions::for_listing();
        assert(options@ == usual_listing(false));
        self.list_with_options(extractor, pbo, options)
    }

    /// Lists the archive briefly with the usual options. A run that failed
    /// is an error.
    pub fn list_contents_brief<E: ExtractorClone>(&self, extractor: &E, pbo: &PathProbe) -> (r:
        Result<ExtractResult, PboError>)
        ensures
            listing_accepted(extractor, *pbo, usual_listing(true), r),
            r matches Ok(result) ==> result.success(),
    {
        let options = ExtractOptions::for_brief_listing();
        assert(options@ == usual_listing(true));
        self.list_with_options(extractor, pbo, options)
    }

    /// Extracts the archive with the usual options and an optional filter.
    /// A run that failed is an error.
    pub fn extract_files<E: ExtractorClone>(
        &self,
        extractor: &E,
        pbo: &PathProbe,
        output_dir: &PathProbe,
        file_filter: Option<&str>,
    ) -> (r: Result<ExtractResult, PboError>)
        ensures
            extraction_accepted(
                extractor,
                *pbo,
                *output_dir,
                usual_extraction(crate::config::option_str_view(file_filter)),
                r,
            ),
            r matches Ok(result) ==> result.success(),
    {
        let options = ExtractOptions::for_filtered_extraction(owned_filter(file_filter));
        assert(options@ == usual_extraction(crate::config::option_str_view(file_filter)));
        self.extract_with_options(extractor, pbo, output_dir, options)
    }

    /// Lists the archive with `options`, once everything that can be
    /// checked beforehand is checked. The tool is run once, for this
    /// archive and with these options; a run that failed is an error.
    pub fn list_with_options<E: ExtractorClone>(
        &self,
        extractor: &E,
        pbo: &PathProbe,
        options: ExtractOptions,
    ) -> (r: Result<ExtractResult, PboError>)
        ensures
            listing_accepted(extractor, *pbo, options@, r),
            r matches Ok(result) ==> result.success(),
    {
        match validate_listing(pbo, &options) {
            Err(e) => {
                return Err(e);
            },
            Ok(_) => {},
        }
        let ghost handed = options@;
        let run = extractor.list_with_options(pbo.path.as_str(), options);
        let ghost witness = run;
        let r = accept(run);
        assert(extractor.listed(pbo.path@, handed, witness) && accepted(witness, r));
        r
    }

    /// Extracts the archive with `options`, once everything that can be
    /// checked beforehand is checked. The tool is run once, for this
    /// archive, this directory and these options; a run that failed is an
    /// error.
    pub fn extract_with_options<E: ExtractorClone>(
        &self,
        extractor: &E,
        pbo: &PathProbe,
        output_dir: &PathProbe,
        options: ExtractOptions,
    ) -> (r: Result<ExtractResult, PboError>)
        ensures
            extraction_accepted(extractor, *pbo, *output_dir, options@, r),
            r matches Ok(result) ==> result.success(),
    {
        match validate_extraction(pbo, output_dir, &options) {
            Err(e) => {
                return Err(e);
            },
            Ok(_) => {},
        }
        let ghost handed = options@;
        let run = extractor.extract_with_options(
            pbo.path.as_str(),
            output_dir.path.as_str(),
            options,
        );
        let ghost witness = run;
        let r = accept(run);
        assert(extractor.extracted(pbo.path@, output_dir.path@, handed, witness) && accepted(
            witness,
            r,
        ));
        r
    }

    /// Extracts the archive with the usual options and says that the tool
    /// ended with exit code zero. A run that failed is an error.
    pub fn extract<E: ExtractorClone>(
        &self,
        extractor: &E,
        pbo: &PathProbe,
        output_dir: &PathProbe,
        file_filter: Option<&str>,
    ) -> (r: Result<bool, PboError>)
        ensures
            match extraction_error(
                *pbo,
                *output_dir,
                usual_extraction(crate::config::option_str_view(file_filter)),
            ) {
                Some(e) => r is Err && r->Err_0@ == e,
                None => exists|run: Result<ExtractResult, PboError>| #[trigger]
                    extractor.extracted(
                        pbo.path@,
                        output_dir.path@,
                        usual_extraction(crate::config::option_str_view(file_filter)),
                        run,
                    ) && extraction_done(run, r),
            },
            r matches Ok(done) ==> done,
    {
        let ghost usual = usual_extraction(crate::config::option_str_view(file_filter));
        let extracted = self.extract_files(extractor, pbo, output_dir, file_filter);
        let ghost made = extracted;
        let r = match extracted {
            Ok(result) => Ok(result.return_code == 0),
            Err(e) => Err(e),
        };
        proof {
            if extraction_error(*pbo, *output_dir, usual) is None {
                let run = choose|run: Result<ExtractResult, PboError>| #[trigger]
                    extractor.extracted(pbo.path@, output_dir.path@, usual, run) && accepted(
                        run,
                        made,
                    );
                assert(extractor.extracted(pbo.path@, output_dir.path@, usual, run)
                    && extraction_done(run, r));
            }
        }
        r
    }

    /// The prefix of the archive, read from a detailed listing with the
    /// usual options. A run that failed is an error.
    pub fn get_prefix<E: ExtractorClone>(&self, extractor: &E, pbo: &PathProbe) -> (r: Result<
        Option<String>,
        PboError,
    >)
        ensures
            match listing_error(*pbo, usual_listing(false)) {
                Some(e) => r is Err && r->Err_0@ == e,
                None => exists|run: Result<ExtractResult, PboError>| #[trigger]
                    extractor.listed(pbo.path@, usual_listing(false), run) && prefix_read(run, r),
            },
    {
        let listed = self.list_contents(extractor, pbo);
        let ghost made = listed;
        let r = match listed {
            Ok(result) => Ok(result.get_prefix()),
            Err(e) => Err(e),
        };
        proof {
            if listing_error(*pbo, usual_listing(false)) is None {
                let run = choose|run: Result<ExtractResult, PboError>| #[trigger]
                    extractor.listed(pbo.path@, usual_listing(false), run) && accepted(run, made);
                assert(extractor.listed(pbo.path@, usual_listing(false), run) && prefix_read(
                    run,
                    r,
                ));
            }
        }
        r
    }
}

impl PboApiOps for PboApi {
    /// This engine refuses what [`listing_error`] finds.
    open spec fn listing_refusal(&self, pbo: PathProbe, options: ExtractOptionsView) -> Option<
        PboErrorView,
    > {
        listing_error(pbo, options)
    }

    /// This engine refuses what [`extraction_error`] finds.
    open spec fn extraction_refusal(
        &self,
        pbo: PathProbe,
        output_dir: PathProbe,
        options: ExtractOptionsView,
    ) -> Option<PboErrorView> {
        extraction_error(pbo, output_dir, options)
    }

    /// This engine treats an extraction with the usual options as any
    /// other.
    open spec fn files_refusal(
        &self,
        pbo: PathProbe,
        output_dir: PathProbe,
        file_filter: Option<Seq<char>>,
    ) -> Option<PboErrorView> {
        extraction_error(pbo, output_dir, usual_extraction(file_filter))
    }

    /// This engine accepts a run where it succeeded: see [`accepted`].
    open spec fn made_of(
        &self,
        run: Result<ExtractResult, PboError>,
        r: Result<ExtractResult, PboError>,
    ) -> bool {
        accepted(run, r)
    }

    fn list_contents<E: ExtractorClone>(&self, extractor: &E, pbo: &PathProbe) -> (r: Result<
        ExtractResult,
        PboError,
    >) {
        PboApi::list_contents(self, extractor, pbo)
    }

    fn list_contents_brief<E: ExtractorClone>(&self, extractor: &E, pbo: &PathProbe) -> (r: Result<
        ExtractResult,
        PboError,
    >) {
        PboApi::list_contents_brief(self, extractor, pbo)
    }

    fn extract_files<E: ExtractorClone>(
        &self,
        extractor: &E,
        pbo: &PathProbe,
        output_dir: &PathProbe,
        file_filter: Option<&str>,
    ) -> (r: Result<ExtractResult, PboError>) {
        PboApi::extract_files(self, extractor, pbo, output_dir, file_filter)
    }

    fn list_with_options<E: ExtractorClone>(
        &self,
        extractor: &E,
        pbo: &PathProbe,
        options: ExtractOptions,
    ) -> (r: Result<ExtractResult, PboError>) {
        PboApi::list_with_options(self, extractor, pbo, options)
    }

    fn extract_with_options<E: ExtractorClone>(
        &self,
        extractor: &E,
        pbo: &PathProbe,
        output_dir: &PathProbe,
        options: ExtractOptions,
    ) -> (r: Result<ExtractResult, PboError>) {
        PboApi::extract_with_options(self, extractor, pbo, output_dir, options)
    }
}

} // verus!
