//! The options of one call of the extraction tool and the checks on them
//! that come before any process is started.

use vstd::prelude::*;
use vstd::string::StringExecFns;
use crate::error::{PboError, PboErrorView};
use crate::paths::{has_shell_character, shell_characters, unit_result_view};
use crate::text::{chars_of, has_char_of, trim, trim_range};

verus! {

// ---------------------------------------------------------------------------
// Model
// ---------------------------------------------------------------------------

/// Whether the regular-expression engine accepts `pattern`.
pub uninterp spec fn regex_accepts(pattern: Seq<char>) -> bool;

/// A filter is a glob where it holds a `*` or a `?`.
pub open spec fn is_glob(filter: Seq<char>) -> bool {
    filter.contains('*') || filter.contains('?')
}

/// Why a set of options is refused, if it is: a brief listing cannot be
/// combined with a file filter, and a file filter holds none of
/// `< > | " '`.
pub open spec fn options_error(brief_listing: bool, file_filter: Option<Seq<char>>) -> Option<
    PboErrorView,
> {
    match file_filter {
        Some(filter) => {
            if brief_listing {
                Some(
                    PboErrorView::ValidationFailed(
                        "Brief listing option cannot be used with extraction options"@,
                    ),
                )
            } else if has_char_of(filter, shell_characters()) {
                Some(PboErrorView::ValidationFailed("File filter contains invalid characters"@))
            } else {
                None
            }
        },
        None => None,
    }
}

/// Why a file filter is refused as a pattern, if it is: it is blank, or it
/// is no glob and `compiles`, the engine's answer on it, is negative.
pub open spec fn filter_error(filter: Seq<char>, compiles: bool) -> Option<PboErrorView> {
    if trim(filter).len() == 0 {
        Some(PboErrorView::ValidationFailed("File filter cannot be empty"@))
    } else if !is_glob(filter) && !compiles {
        Some(PboErrorView::ValidationFailed("Invalid file filter pattern: "@ + filter))
    } else {
        None
    }
}

// ---------------------------------------------------------------------------
// Laws
// ---------------------------------------------------------------------------

/// A file filter that holds a double quote or a pipe is refused, whatever
/// the other options are.
pub proof fn lemma_quote_or_pipe_is_refused(brief_listing: bool, filter: Seq<char>)
    requires
        filter.contains('"') || filter.contains('|'),
    ensures
        options_error(brief_listing, Some(filter)) matches Some(e) && e is ValidationFailed,
{
    let set = shell_characters();
    assert(set[2] == '|' && set[3] == '"');
    let i = choose|i: int| 0 <= i < filter.len() && (filter[i] == '"' || filter[i] == '|');
    assert(set.contains(filter[i]));
}

// ---------------------------------------------------------------------------
// ExtractOptions
// ---------------------------------------------------------------------------

/// How the tool is to be run.
#[derive(Debug, Clone, PartialEq, Eq)]
pub struct ExtractOptions {
    /// Do not pause at the end (`-P`).
    pub no_pause: bool,
    /// Treat warnings as errors (`-W`).
    pub warnings_as_errors: bool,
    /// Extract only the files that match (`-F=<pattern>`).
    pub file_filter: Option<String>,
    /// Noisy output (`-N`).
    pub verbose: bool,
    /// Brief, directory-style listing (`-LB`).
    pub brief_listing: bool,
}

/// The mathematical value of a set of options.
pub struct ExtractOptionsView {
    /// Do not pause at the end.
    pub no_pause: bool,
    /// Treat warnings as errors.
    pub warnings_as_errors: bool,
    /// The file filter, if there is one.
    pub file_filter: Option<Seq<char>>,
    /// Noisy output.
    pub verbose: bool,
    /// Brief listing.
    pub brief_listing: bool,
}

impl View for ExtractOptions {
    type V = ExtractOptionsView;

    open spec fn view(&self) -> ExtractOptionsView {
        ExtractOptionsView {
            no_pause: self.no_pause,
            warnings_as_errors: self.warnings_as_errors,
            file_filter: self.filter_view(),
            verbose: self.verbose,
            brief_listing: self.brief_listing,
        }
    }
}

/// The usual options of an extraction: no pause, warnings as errors, and
/// the file filter where there is one.
pub open spec fn usual_extraction(file_filter: Option<Seq<char>>) -> ExtractOptionsView {
    ExtractOptionsView {
        no_pause: true,
        warnings_as_errors: true,
        file_filter,
        verbose: false,
        brief_listing: false,
    }
}

/// The usual options of a listing, brief or detailed: no pause, warnings
/// as errors.
pub open spec fn usual_listing(brief: bool) -> ExtractOptionsView {
    ExtractOptionsView {
        no_pause: true,
        warnings_as_errors: true,
        file_filter: None,
        verbose: false,
        brief_listing: brief,
    }
}

impl Default for ExtractOptions {
    fn default() -> (o: ExtractOptions)
        ensures
            !o.no_pause,
            !o.warnings_as_errors,
            o.file_filter is None,
            !o.verbose,
            !o.brief_listing,
    {
        ExtractOptions {
            no_pause: false,
            warnings_as_errors: false,
            file_filter: None,
            verbose: false,
            brief_listing: false,
        }
    }
}

impl ExtractOptions {
    /// The file filter as a character sequence, if there is one.
    pub open spec fn filter_view(&self) -> Option<Seq<char>> {
        match self.file_filter {
            Some(f) => Some(f@),
            None => None,
        }
    }

    /// Checks the options against each other: see [`options_error`].
    pub fn validate(&self) -> (r: Result<(), PboError>)
        ensures
            unit_result_view(r) == options_error(self.brief_listing, self.filter_view()),
    {
        match &self.file_filter {
            Some(filter) => {
                if self.brief_listing {
                    return Err(
                        PboError::ValidationFailed(
                            String::from_str(
                                "Brief listing option cannot be used with extraction options",
                            ),
                        ),
                    );
                }
                if has_shell_character(filter.as_str()) {
                    return Err(
                        PboError::ValidationFailed(
                            String::from_str("File filter contains invalid characters"),
                        ),
                    );
                }
                Ok(())
            },
            None => Ok(()),
        }
    }

    /// The options of a detailed listing: no pause, warnings as errors.
    pub fn for_listing() -> (o: ExtractOptions)
        ensures
            o.no_pause,
            o.warnings_as_errors,
            o.file_filter is None,
            !o.verbose,
            !o.brief_listing,
    {
        ExtractOptions {
            no_pause: true,
            warnings_as_errors: true,
            file_filter: None,
            verbose: false,
            brief_listing: false,
        }
    }

    /// The options of a brief listing: no pause, warnings as errors.
    pub fn for_brief_listing() -> (o: ExtractOptions)
        ensures
            o.no_pause,
            o.warnings_as_errors,
            o.file_filter is None,
            !o.verbose,
            o.brief_listing,
    {
        ExtractOptions {
            no_pause: true,
            warnings_as_errors: true,
            file_filter: None,
            verbose: false,
            brief_listing: true,
        }
    }

    /// The options of an extraction: no pause, warnings as errors.
    pub fn for_extraction() -> (o: ExtractOptions)
        ensures
            o.no_pause,
            o.warnings_as_errors,
            o.file_filter is None,
            !o.verbose,
            !o.brief_listing,
    {
        ExtractOptions {
            no_pause: true,
            warnings_as_errors: true,
            file_filter: None,
            verbose: false,
            brief_listing: false,
        }
    }

    /// The options of an extraction restricted to `file_filter`.
    pub fn for_filtered_extraction(file_filter: Option<String>) -> (o: ExtractOptions)
        ensures
            o.no_pause,
            o.warnings_as_errors,
            o.file_filter == file_filter,
            !o.verbose,
            !o.brief_listing,
    {
        ExtractOptions {
            no_pause: true,
            warnings_as_errors: true,
            file_filter,
            verbose: false,
            brief_listing: false,
        }
    }
}

// ---------------------------------------------------------------------------
// File filter as a pattern
// ---------------------------------------------------------------------------

/// Asks `regex::Regex::new` whether it compiles `pattern`. The answer
/// depends on the pattern alone; nothing more is claimed of it.
#[verifier::external_body]
fn regex_compiles(pattern: &str) -> (ok: bool)
    ensures
        ok == regex_accepts(pattern@),
{
    regex::Regex::new(pattern).is_ok()
}

/// Whether `filter` holds a `*` or a `?`.
pub fn filter_is_glob(filter: &str) -> (r: bool)
    ensures
        r == is_glob(filter@),
{
    let t = chars_of(filter);
    let mut i: usize = 0;
    while i < t.len()
        invariant
            i <= t.len(),
            t@ == filter@,
            forall|j: int| 0 <= j < i ==> t[j] != '*' && t[j] != '?',
        decreases t.len() - i,
    {
        if t[i] == '*' || t[i] == '?' {
            assert(filter@[i as int] == t[i as int]);
            return true;
        }
        i += 1;
    }
    false
}

/// Decides on a file filter, given in `compiles` whether the
/// regular-expression engine accepts it: see [`filter_error`].
pub fn check_filter(filter: &str, compiles: bool) -> (r: Result<(), PboError>)
    ensures
        unit_result_view(r) == filter_error(filter@, compiles),
{
    let t = chars_of(filter);
    assert(t@.subrange(0, t.len() as int) =~= t@);
    let (a, b) = trim_range(&t, 0, t.len());
    if a == b {
        return Err(PboError::ValidationFailed(String::from_str("File filter cannot be empty")));
    }
    if !filter_is_glob(filter) && !compiles {
        let mut msg = String::from_str("Invalid file filter pattern: ");
        msg.append(filter);
        return Err(PboError::ValidationFailed(msg));
    }
    Ok(())
}

/// Checks a file filter as a pattern: it must not be blank, and where it is
/// no glob the regular-expression engine must accept it.
pub fn validate_filter(filter: &str) -> (r: Result<(), PboError>)
    ensures
        unit_result_view(r) == filter_error(filter@, regex_accepts(filter@)),
{
    let compiles = if filter_is_glob(filter) {
        true
    } else {
        regex_compiles(filter)
    };
    check_filter(filter, compiles)
}

} // verus!
