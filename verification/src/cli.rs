//! What the command-line front end decides: the options that a command
//! stands for and the lines that report its outcome. Parsing arguments and
//! printing are the caller's part.

use vstd::prelude::*;
use vstd::string::StringExecFns;
use crate::api::PboApi;
use crate::config::default_config;
use crate::error::{PboError, PboErrorView};
use crate::executor::timeout_in_force;
use crate::result::{
    command_failed,
    failure_view,
    file_list_of,
    prefix_of,
    ExtractResult,
};
use crate::options::ExtractOptions;
use crate::text::views;

verus! {

/// One command of the front end.
#[derive(Debug, Clone, PartialEq, Eq)]
pub enum Commands {
    /// List the contents of an archive.
    List {
        /// The path of the archive.
        pbo_path: String,
        /// Use the brief, directory-style listing.
        brief: bool,
        /// Ask the tool for noisy output.
        verbose: bool,
    },
    /// Extract the contents of an archive.
    Extract {
        /// The path of the archive.
        pbo_path: String,
        /// The directory to extract into.
        output_dir: String,
        /// Extract only the files that match.
        filter: Option<String>,
        /// Keep the archive's name in the output path.
        keep_pbo_name: bool,
        /// Ask the tool for noisy output.
        verbose: bool,
        /// Do not treat warnings as errors.
        ignore_warnings: bool,
    },
}

/// The command line of the front end.
#[derive(Debug, Clone, PartialEq, Eq)]
pub struct Cli {
    /// The command to run.
    pub command: Commands,
    /// The timeout for the command, in seconds.
    pub timeout: u32,
}

/// The line that heads the files of a listing.
pub open spec fn listing_header() -> Seq<char> {
    "Files in PBO:"@
}

/// The line that heads the files of an extraction.
pub open spec fn extraction_header() -> Seq<char> {
    "Extracted files:"@
}

/// Every file on a line of its own, indented by two spaces.
pub open spec fn file_lines(files: Seq<Seq<char>>) -> Seq<Seq<char>> {
    Seq::new(files.len(), |i: int| "  "@ + files[i])
}

/// The lines that close an extraction report: the prefix where the run
/// announced one, set off by an empty line.
pub open spec fn prefix_lines(prefix: Option<Seq<char>>) -> Seq<Seq<char>> {
    match prefix {
        Some(p) => seq!["\nPBO Prefix: "@ + p],
        None => Seq::empty(),
    }
}

/// The report on a run: for a successful run the header, the files and,
/// for an extraction, the prefix; for a failed one the error
/// `CommandFailed` with the run's message.
pub open spec fn report_of(extraction: bool, result: ExtractResult) -> Result<
    Seq<Seq<char>>,
    PboErrorView,
> {
    if !result.success() {
        Err(failure_view(result))
    } else if extraction {
        Ok(
            seq![extraction_header()] + file_lines(file_list_of(result.stdout@)) + prefix_lines(
                prefix_of(result.stdout@),
            ),
        )
    } else {
        Ok(seq![listing_header()] + file_lines(file_list_of(result.stdout@)))
    }
}

/// Runs the commands of the front end against an engine.
#[derive(Debug, Clone)]
pub struct CliProcessor {
    api: PboApi,
}

impl CliProcessor {
    /// The engine that the commands are run against.
    pub closed spec fn api_view(&self) -> PboApi {
        self.api
    }

    /// A processor whose engine has the default configuration and a
    /// timeout of `timeout` seconds, at least one.
    pub fn new(timeout: u32) -> (p: CliProcessor)
        ensures
            p.api_view().config_view() == default_config(),
            p.api_view().timeout() == timeout_in_force(Some(timeout)),
    {
        CliProcessor { api: PboApi::builder().with_timeout(timeout).build() }
    }

    /// The engine that the commands are run against.
    pub fn api(&self) -> (api: &PboApi)
        ensures
            *api == self.api_view(),
    {
        &self.api
    }

    /// The options that `command` stands for: never a pause; warnings are
    /// errors unless an extraction says otherwise; a listing has no filter
    /// and an extraction is never brief.
    pub fn options_for(&self, command: &Commands) -> (o: ExtractOptions)
        ensures
            o.no_pause,
            match *command {
                Commands::List { pbo_path, brief, verbose } => {
                    &&& o.warnings_as_errors
                    &&& o.file_filter is None
                    &&& o.verbose == verbose
                    &&& o.brief_listing == brief
                },
                Commands::Extract {
                    pbo_path,
                    output_dir,
                    filter,
                    keep_pbo_name,
                    verbose,
                    ignore_warnings,
                } => {
                    &&& o.warnings_as_errors == !ignore_warnings
                    &&& crate::result::option_view(o.file_filter) == crate::result::option_view(
                        filter,
                    )
                    &&& o.verbose == verbose
                    &&& !o.brief_listing
                },
            },
    {
        match command {
            Commands::List { pbo_path, brief, verbose } => ExtractOptions {
                no_pause: true,
                warnings_as_errors: true,
                file_filter: None,
                verbose: *verbose,
                brief_listing: *brief,
            },
            Commands::Extract {
                pbo_path,
                output_dir,
                filter,
                keep_pbo_name,
                verbose,
                ignore_warnings,
            } => {
                let file_filter = match filter {
                    Some(f) => Some(f.clone()),
                    None => None,
                };
                ExtractOptions {
                    no_pause: true,
                    warnings_as_errors: !*ignore_warnings,
                    file_filter,
                    verbose: *verbose,
                    brief_listing: false,
                }
            },
        }
    }

    /// The lines to print for the run `result` of `command`, or the error
    /// to report: see [`report_of`].
    pub fn report(&self, command: &Commands, result: &ExtractResult) -> (r: Result<
        Vec<String>,
        PboError,
    >)
        ensures
            crate::result::output_view(r) == report_of(command is Extract, *result),
    {
        if !result.is_success() {
            return Err(command_failed(result));
        }
        let extraction = match command {
            Commands::List { .. } => false,
            Commands::Extract { .. } => true,
        };
        let mut lines: Vec<String> = Vec::new();
        if extraction {
            lines.push(String::from_str("Extracted files:"));
        } else {
            lines.push(String::from_str("Files in PBO:"));
        }
        let files = result.get_file_list();
        let ghost fs = views(files@);
        let ghost header = views(lines@);
        assert(header =~= seq![
            if extraction {
                extraction_header()
            } else {
                listing_header()
            },
        ]);
        let mut i: usize = 0;
        assert(header + file_lines(fs).take(0) =~= header);
        while i < files.len()
            invariant
                i <= files.len(),
                fs == views(files@),
                views(lines@) == header + file_lines(fs).take(i as int),
            decreases files.len() - i,
        {
            let ghost before = views(lines@);
            let mut line = String::from_str("  ");
            line.append(files[i].as_str());
            lines.push(line);
            assert(views(lines@) =~= before.push("  "@ + fs[i as int]));
            assert(file_lines(fs).take(i + 1) =~= file_lines(fs).take(i as int).push(
                "  "@ + fs[i as int],
            ));
            i += 1;
        }
        assert(file_lines(fs).take(files.len() as int) =~= file_lines(fs));
        if extraction {
            match result.get_prefix() {
                Some(prefix) => {
                    let ghost before = views(lines@);
                    let mut line = String::from_str("\nPBO Prefix: ");
                    line.append(prefix.as_str());
                    lines.push(line);
                    assert(views(lines@) =~= before.push("\nPBO Prefix: "@ + prefix@));
                },
                None => {},
            }
        }
        assert(views(lines@) =~= report_of(extraction, *result)->Ok_0);
        Ok(lines)
    }
}

} // verus!
