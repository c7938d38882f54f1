//! The argument protocol of `extractpbo`.
//!
//! The tool reads its command line by position: options first, then the
//! archive, then the destination. This module turns a request into that
//! vector, refusing what the tool must never see, and turns what the process
//! left behind into an [`ExtractResult`]. Starting the process is the
//! caller's part.

use vstd::prelude::*;
use vstd::string::StringExecFns;
use crate::constants::{common_pbo_extension_list, common_pbo_extensions, EXTRACT_COMMAND};
use crate::error::{
    ExtractError,
    ExtractErrorView,
    FileSystemError,
    FileSystemErrorView,
    PboError,
    PboErrorView,
};
use crate::options::{
    filter_error,
    options_error,
    regex_accepts,
    validate_filter,
    ExtractOptions,
    ExtractOptionsView,
};
use crate::paths::{extension, extension_of, shell_characters, PathProbe};
use crate::result::{has_bad_indicator, ExtractResult};
use crate::text::{
    chars_of,
    has_char_of,
    lemma_filter_push,
    push_without,
    range_starts_with,
    remove_all,
    starts_with,
    str_views,
    views,
};

verus! {

// ---------------------------------------------------------------------------
// Model
// ---------------------------------------------------------------------------

/// A token is a flag where it begins with a hyphen.
pub open spec fn is_flag(token: Seq<char>) -> bool {
    token.len() > 0 && token[0] == '-'
}

/// One of the letters of the core flags: no pause, warnings as errors,
/// noisy.
pub open spec fn is_core_letter(c: char) -> bool {
    c == 'P' || c == 'W' || c == 'N'
}

/// A core flag is a hyphen followed by core letters only, at least one.
pub open spec fn is_core_flag(token: Seq<char>) -> bool {
    &&& token.len() >= 2
    &&& token[0] == '-'
    &&& forall|i: int| 1 <= i < token.len() ==> is_core_letter(#[trigger] token[i])
}

/// A flag that belongs to one operation: any flag that is no core flag.
pub open spec fn is_operation_flag(token: Seq<char>) -> bool {
    is_flag(token) && !is_core_flag(token)
}

/// The flag that carries a file filter.
pub open spec fn is_filter_flag(token: Seq<char>) -> bool {
    starts_with(token, "-F="@)
}

/// An ASCII letter or digit.
pub open spec fn is_ascii_alphanumeric(c: char) -> bool {
    ('0' <= c <= '9') || ('a' <= c <= 'z') || ('A' <= c <= 'Z')
}

/// A flag is well formed where it is a filter flag or holds nothing but
/// ASCII letters and digits after its hyphen.
pub open spec fn flag_well_formed(token: Seq<char>) -> bool {
    is_filter_flag(token) || forall|i: int|
        1 <= i < token.len() ==> is_ascii_alphanumeric(#[trigger] token[i])
}

/// The first flag among `args` that is not well formed.
pub open spec fn first_malformed_flag(args: Seq<Seq<char>>) -> Option<Seq<char>>
    decreases args.len(),
{
    if args.len() == 0 {
        None
    } else if is_flag(args[0]) && !flag_well_formed(args[0]) {
        Some(args[0])
    } else {
        first_malformed_flag(args.drop_first())
    }
}

/// The destination among `args`: the first token that is no flag.
pub open spec fn destination_of(args: Seq<Seq<char>>) -> Option<Seq<char>>
    decreases args.len(),
{
    if args.len() == 0 {
        None
    } else if !is_flag(args[0]) {
        Some(args[0])
    } else {
        destination_of(args.drop_first())
    }
}

/// The test that picks the core flags.
pub open spec fn core_flags() -> spec_fn(Seq<char>) -> bool {
    |t: Seq<char>| is_core_flag(t)
}

/// The test that picks the operation flags.
pub open spec fn operation_flags() -> spec_fn(Seq<char>) -> bool {
    |t: Seq<char>| is_operation_flag(t)
}

/// The prefix that marks a verbatim Windows path; the tool does not take it.
pub open spec fn verbatim_prefix() -> Seq<char> {
    "\\\\?\\"@
}

/// The archive path as the tool is given it.
pub open spec fn source_token(path: Seq<char>) -> Seq<char> {
    remove_all(path, verbatim_prefix())
}

/// An optional token as a sequence of tokens.
pub open spec fn optional_token(t: Option<Seq<char>>) -> Seq<Seq<char>> {
    match t {
        Some(token) => seq![token],
        None => Seq::empty(),
    }
}

/// The command line in its canonical order, whatever the order of `args`:
/// the core flags, the operation flags, the archive, and the destination
/// where there is one. Within each group the order of `args` is kept.
pub open spec fn command_line_of(args: Seq<Seq<char>>, source: Seq<char>) -> Seq<Seq<char>> {
    args.filter(core_flags()) + args.filter(operation_flags()) + seq![source_token(source)]
        + optional_token(destination_of(args))
}

/// Whether `path` ends in one of the extensions of an archive.
pub open spec fn has_archive_extension(path: Seq<char>) -> bool {
    extension(path) matches Some(e) && common_pbo_extensions().contains(e)
}

/// Why a command line is refused, if it is. In this order: the archive does
/// not exist; it has no archive extension; a flag is malformed; the
/// destination holds one of `< > | " '`.
pub open spec fn command_line_error(
    args: Seq<Seq<char>>,
    source: Seq<char>,
    source_exists: bool,
) -> Option<PboErrorView> {
    if !source_exists {
        Some(PboErrorView::InvalidPath(source))
    } else if !has_archive_extension(source) {
        Some(
            PboErrorView::InvalidFormat(
                "File "@ + source + " does not have a valid PBO extension"@,
            ),
        )
    } else if first_malformed_flag(args) is Some {
        Some(
            PboErrorView::ValidationFailed(
                "Invalid option format: "@ + first_malformed_flag(args)->0,
            ),
        )
    } else if destination_of(args) is Some && has_char_of(
        destination_of(args)->0,
        shell_characters(),
    ) {
        Some(
            PboErrorView::ValidationFailed(
                "Invalid destination path: "@ + destination_of(args)->0,
            ),
        )
    } else {
        None
    }
}

/// The command line for `args`, or why there is none.
pub open spec fn command_line_result(
    args: Seq<Seq<char>>,
    source: Seq<char>,
    source_exists: bool,
) -> Result<Seq<Seq<char>>, PboErrorView> {
    match command_line_error(args, source, source_exists) {
        Some(e) => Err(e),
        None => Ok(command_line_of(args, source)),
    }
}

/// The letters of the core flags that are switched on, in the order P, W, N.
pub open spec fn core_letters(no_pause: bool, warnings_as_errors: bool, verbose: bool) -> Seq<
    char,
> {
    (if no_pause {
        seq!['P']
    } else {
        Seq::empty()
    }) + (if warnings_as_errors {
        seq!['W']
    } else {
        Seq::empty()
    }) + (if verbose {
        seq!['N']
    } else {
        Seq::empty()
    })
}

/// The core flags as one token, where any is switched on.
pub open spec fn core_token(no_pause: bool, warnings_as_errors: bool, verbose: bool) -> Option<
    Seq<char>,
> {
    let letters = core_letters(no_pause, warnings_as_errors, verbose);
    if letters.len() == 0 {
        None
    } else {
        Some(seq!['-'] + letters)
    }
}

/// The token that asks for a listing, brief or detailed.
pub open spec fn listing_token(brief: bool) -> Seq<char> {
    if brief {
        "-LB"@
    } else {
        "-L"@
    }
}

/// The token that carries the file filter.
pub open spec fn filter_token(filter: Seq<char>) -> Seq<char> {
    "-F="@ + filter
}

/// The flags of a listing: the core token, then the listing token.
pub open spec fn listing_flags_of(
    no_pause: bool,
    warnings_as_errors: bool,
    verbose: bool,
    brief: bool,
) -> Seq<Seq<char>> {
    optional_token(core_token(no_pause, warnings_as_errors, verbose)) + seq![listing_token(brief)]
}

/// The flags of an extraction: the core token, then the filter token.
pub open spec fn extraction_flags_of(
    no_pause: bool,
    warnings_as_errors: bool,
    verbose: bool,
    filter: Option<Seq<char>>,
) -> Seq<Seq<char>> {
    optional_token(core_token(no_pause, warnings_as_errors, verbose)) + (match filter {
        Some(f) => seq![filter_token(f)],
        None => Seq::empty(),
    })
}

/// The flags of a listing with the given options, or why they are refused.
pub open spec fn listing_flags_result(options: ExtractOptions) -> Result<
    Seq<Seq<char>>,
    PboErrorView,
> {
    match options_error(options.brief_listing, options.filter_view()) {
        Some(e) => Err(e),
        None => Ok(
            listing_flags_of(
                options.no_pause,
                options.warnings_as_errors,
                options.verbose,
                options.brief_listing,
            ),
        ),
    }
}

/// The flags of an extraction with the given options, or why they are
/// refused.
pub open spec fn extraction_flags_result(options: ExtractOptions) -> Result<
    Seq<Seq<char>>,
    PboErrorView,
> {
    match options_error(options.brief_listing, options.filter_view()) {
        Some(e) => Err(e),
        None => Ok(
            extraction_flags_of(
                options.no_pause,
                options.warnings_as_errors,
                options.verbose,
                options.filter_view(),
            ),
        ),
    }
}

/// What the tool is asked to do.
#[derive(Debug, Clone, Copy, PartialEq, Eq, Structural)]
pub enum Operation {
    /// List the archive in detail.
    List,
    /// List the archive briefly.
    ListBrief,
    /// Extract the archive.
    Extract,
}

/// One call of the tool. A request is built per call and not changed
/// afterwards.
#[derive(Debug, Clone, PartialEq, Eq)]
pub struct InvocationRequest {
    /// What the tool is asked to do.
    pub operation: Operation,
    /// The archive, with what was found of it on disk.
    pub source: PathProbe,
    /// The directory to extract into.
    pub destination: Option<String>,
    /// Extract only the files that match.
    pub file_filter: Option<String>,
    /// Do not pause at the end.
    pub no_pause: bool,
    /// Treat warnings as errors.
    pub warnings_as_errors: bool,
    /// Noisy output.
    pub verbose: bool,
}

/// The flags of `operation` with `options` in canonical order: the core
/// token, then the filter of an extraction or the token of a listing.
pub open spec fn operation_flags_of(operation: Operation, options: ExtractOptionsView) -> Seq<
    Seq<char>,
> {
    if operation == Operation::Extract {
        extraction_flags_of(
            options.no_pause,
            options.warnings_as_errors,
            options.verbose,
            options.file_filter,
        )
    } else {
        listing_flags_of(
            options.no_pause,
            options.warnings_as_errors,
            options.verbose,
            operation == Operation::ListBrief,
        )
    }
}

/// Why a request is refused before any path is looked at, if it is. In
/// this order: the options contradict each other or the file filter holds
/// one of `< > | " '`; the file filter is blank or no pattern; the
/// destination begins with a hyphen, so that the tool would read it as an
/// option.
pub open spec fn invocation_refusal(
    options: ExtractOptionsView,
    destination: Option<Seq<char>>,
) -> Option<PboErrorView> {
    if options_error(options.brief_listing, options.file_filter) is Some {
        options_error(options.brief_listing, options.file_filter)
    } else if options.file_filter is Some && filter_error(
        options.file_filter.unwrap(),
        regex_accepts(options.file_filter.unwrap()),
    ) is Some {
        filter_error(options.file_filter.unwrap(), regex_accepts(options.file_filter.unwrap()))
    } else if destination is Some && is_flag(destination.unwrap()) {
        Some(
            PboErrorView::ValidationFailed("Invalid destination path: "@ + destination.unwrap()),
        )
    } else {
        None
    }
}

/// The command line in the shape that the tool reads: the flags in
/// canonical order, the archive, and the destination where there is one.
pub open spec fn canonical_line_of(
    operation: Operation,
    options: ExtractOptionsView,
    source_path: Seq<char>,
    destination: Option<Seq<char>>,
) -> Seq<Seq<char>> {
    operation_flags_of(operation, options) + seq![source_token(source_path)] + optional_token(
        destination,
    )
}

/// The command line for one call of the tool, or why the tool must not be
/// started: first what [`invocation_refusal`] finds in the options and the
/// destination, whatever the paths are, and then what
/// [`command_line_error`] finds in the archive and the tokens.
pub open spec fn invocation_of(
    operation: Operation,
    options: ExtractOptionsView,
    source: PathProbe,
    destination: Option<Seq<char>>,
) -> Result<Seq<Seq<char>>, PboErrorView> {
    match invocation_refusal(options, destination) {
        Some(e) => Err(e),
        None => command_line_result(
            operation_flags_of(operation, options) + optional_token(destination),
            source.path@,
            source.exists,
        ),
    }
}

/// The operation of a listing with `options`.
pub open spec fn listing_operation(options: ExtractOptionsView) -> Operation {
    if options.brief_listing {
        Operation::ListBrief
    } else {
        Operation::List
    }
}

impl InvocationRequest {
    /// The file filter as a character sequence, if there is one.
    pub open spec fn filter_view(&self) -> Option<Seq<char>> {
        match self.file_filter {
            Some(f) => Some(f@),
            None => None,
        }
    }

    /// The destination as a character sequence, if there is one.
    pub open spec fn destination_view(&self) -> Option<Seq<char>> {
        match self.destination {
            Some(d) => Some(d@),
            None => None,
        }
    }

    /// The options that the request stands for; a listing is brief where
    /// the operation says so.
    pub open spec fn options_view(&self) -> ExtractOptionsView {
        ExtractOptionsView {
            no_pause: self.no_pause,
            warnings_as_errors: self.warnings_as_errors,
            file_filter: self.filter_view(),
            verbose: self.verbose,
            brief_listing: self.operation == Operation::ListBrief,
        }
    }

    /// The command line in the shape that the tool reads.
    pub open spec fn canonical_line(&self) -> Seq<Seq<char>> {
        canonical_line_of(
            self.operation,
            self.options_view(),
            self.source.path@,
            self.destination_view(),
        )
    }

    /// The command line for the request, or why the tool must not be
    /// started: see [`invocation_of`].
    pub open spec fn invocation(&self) -> Result<Seq<Seq<char>>, PboErrorView> {
        invocation_of(self.operation, self.options_view(), self.source, self.destination_view())
    }
}

/// The view of a list of tokens or an error.
pub open spec fn tokens_view(r: Result<Vec<String>, PboError>) -> Result<
    Seq<Seq<char>>,
    PboErrorView,
> {
    match r {
        Ok(tokens) => Ok(views(tokens@)),
        Err(e) => Err(e@),
    }
}

/// Both streams of a process as one text, each as it was written:
/// standard output, then standard error on a line of its own; a stream
/// that is empty is left out.
pub open spec fn both_streams(stdout: Seq<char>, stderr: Seq<char>) -> Seq<char> {
    if stdout.len() == 0 {
        stderr
    } else if stderr.len() == 0 {
        stdout
    } else {
        stdout + "\n"@ + stderr
    }
}

/// What is made of a finished process: a fatal indicator in either stream
/// is the extraction error `BadFormat`, which keeps both streams as they
/// were written; otherwise the result holds the streams and the exit code,
/// or -1 where the process had none.
pub open spec fn interpreted_output(
    code: Option<i32>,
    stdout: Seq<char>,
    stderr: Seq<char>,
) -> Result<(int, Seq<char>, Seq<char>), PboErrorView> {
    if has_bad_indicator(stderr) || has_bad_indicator(stdout) {
        Err(
            PboErrorView::Extraction(
                ExtractErrorView::BadFormat { reason: both_streams(stdout, stderr) },
            ),
        )
    } else {
        Ok(
            (
                match code {
                    Some(c) => c as int,
                    None => -1,
                },
                stdout,
                stderr,
            ),
        )
    }
}

/// The view of a result or an error.
pub open spec fn result_view(r: Result<ExtractResult, PboError>) -> Result<
    (int, Seq<char>, Seq<char>),
    PboErrorView,
> {
    match r {
        Ok(res) => Ok((res.return_code as int, res.stdout@, res.stderr@)),
        Err(e) => Err(e@),
    }
}

// ---------------------------------------------------------------------------
// Lemmas
// ---------------------------------------------------------------------------

/// No malformed flag among the first `k` tokens leaves the first malformed
/// flag to the rest.
proof fn lemma_first_malformed_skip(args: Seq<Seq<char>>, k: int)
    requires
        0 <= k <= args.len(),
        forall|j: int| 0 <= j < k ==> !(is_flag(#[trigger] args[j]) && !flag_well_formed(args[j])),
    ensures
        first_malformed_flag(args) == first_malformed_flag(args.skip(k)),
    decreases k,
{
    if k > 0 {
        assert(args.drop_first().skip(k - 1) =~= args.skip(k));
        assert forall|j: int| 0 <= j < k - 1 implies !(is_flag(#[trigger] args.drop_first()[j])
            && !flag_well_formed(args.drop_first()[j])) by {
            assert(args.drop_first()[j] == args[j + 1]);
        }
        lemma_first_malformed_skip(args.drop_first(), k - 1);
    } else {
        assert(args.skip(0) =~= args);
    }
}

/// Flags only among the first `k` tokens leave the destination to the rest.
proof fn lemma_destination_skip(args: Seq<Seq<char>>, k: int)
    requires
        0 <= k <= args.len(),
        forall|j: int| 0 <= j < k ==> is_flag(#[trigger] args[j]),
    ensures
        destination_of(args) == destination_of(args.skip(k)),
    decreases k,
{
    if k > 0 {
        assert(args.drop_first().skip(k - 1) =~= args.skip(k));
        assert forall|j: int| 0 <= j < k - 1 implies is_flag(#[trigger] args.drop_first()[j]) by {
            assert(args.drop_first()[j] == args[j + 1]);
        }
        lemma_destination_skip(args.drop_first(), k - 1);
    } else {
        assert(args.skip(0) =~= args);
    }
}

// ---------------------------------------------------------------------------
// Laws
// ---------------------------------------------------------------------------

/// No flags are produced for options whose file filter holds a double quote
/// or a pipe: such a request is refused before the tool is started.
pub proof fn lemma_quote_or_pipe_yields_no_flags(options: ExtractOptions)
    requires
        options.file_filter is Some,
        options.filter_view().unwrap().contains('"') || options.filter_view().unwrap().contains(
            '|',
        ),
    ensures
        extraction_flags_result(options) is Err,
        listing_flags_result(options) is Err,
        extraction_flags_result(options)->Err_0 is ValidationFailed,
{
    crate::options::lemma_quote_or_pipe_is_refused(
        options.brief_listing,
        options.filter_view().unwrap(),
    );
}

/// The core token is a core flag.
proof fn lemma_core_token_is_core(no_pause: bool, warnings_as_errors: bool, verbose: bool)
    requires
        core_token(no_pause, warnings_as_errors, verbose) is Some,
    ensures
        is_core_flag(core_token(no_pause, warnings_as_errors, verbose).unwrap()),
{
    let letters = core_letters(no_pause, warnings_as_errors, verbose);
    let token = seq!['-'] + letters;
    assert forall|i: int| 1 <= i < token.len() implies is_core_letter(#[trigger] token[i]) by {
        assert(token[i] == letters[i - 1]);
    }
}

/// A single token filtered is itself or nothing.
proof fn lemma_filter_one(token: Seq<char>, pred: spec_fn(Seq<char>) -> bool)
    ensures
        seq![token].filter(pred) == if pred(token) {
            seq![token]
        } else {
            Seq::<Seq<char>>::empty()
        },
        Seq::<Seq<char>>::empty().filter(pred) == Seq::<Seq<char>>::empty(),
{
    reveal(Seq::filter);
    lemma_filter_push(Seq::<Seq<char>>::empty(), token, pred);
    assert(Seq::<Seq<char>>::empty().push(token) =~= seq![token]);
}

/// Tokens that come in three groups, core flags, flags of the operation
/// and a destination that is no flag, make the command line that holds
/// them in this order with the archive before the destination.
proof fn lemma_command_line_of_groups(
    core: Seq<Seq<char>>,
    operation: Seq<Seq<char>>,
    destination: Option<Seq<char>>,
    source: Seq<char>,
)
    requires
        core.len() <= 1,
        operation.len() <= 1,
        forall|i: int| 0 <= i < core.len() ==> is_core_flag(#[trigger] core[i]),
        forall|i: int| 0 <= i < operation.len() ==> is_operation_flag(#[trigger] operation[i]),
        destination is Some ==> !is_flag(destination.unwrap()),
    ensures
        command_line_of(core + operation + optional_token(destination), source) == core
            + operation + seq![source_token(source)] + optional_token(destination),
{
    broadcast use Seq::filter_distributes_over_add;

    let dest = optional_token(destination);
    let flags = core + operation;
    let args = flags + dest;
    if core.len() > 0 {
        lemma_filter_one(core[0], core_flags());
        lemma_filter_one(core[0], operation_flags());
        assert(core =~= seq![core[0]]);
    } else {
        lemma_filter_one(Seq::empty(), core_flags());
        lemma_filter_one(Seq::empty(), operation_flags());
        assert(core =~= Seq::<Seq<char>>::empty());
    }
    if operation.len() > 0 {
        lemma_filter_one(operation[0], core_flags());
        lemma_filter_one(operation[0], operation_flags());
        assert(operation =~= seq![operation[0]]);
    } else {
        lemma_filter_one(Seq::empty(), core_flags());
        lemma_filter_one(Seq::empty(), operation_flags());
        assert(operation =~= Seq::<Seq<char>>::empty());
    }
    if dest.len() > 0 {
        assert(dest[0] == destination.unwrap());
        lemma_filter_one(dest[0], core_flags());
        lemma_filter_one(dest[0], operation_flags());
        assert(dest =~= seq![dest[0]]);
    } else {
        lemma_filter_one(Seq::empty(), core_flags());
        lemma_filter_one(Seq::empty(), operation_flags());
        assert(dest =~= Seq::<Seq<char>>::empty());
    }
    assert(flags.filter(core_flags()) == core.filter(core_flags()) + operation.filter(
        core_flags(),
    ));
    assert(args.filter(core_flags()) == flags.filter(core_flags()) + dest.filter(core_flags()));
    assert(flags.filter(operation_flags()) == core.filter(operation_flags()) + operation.filter(
        operation_flags(),
    ));
    assert(args.filter(operation_flags()) == flags.filter(operation_flags()) + dest.filter(
        operation_flags(),
    ));
    assert(args.filter(core_flags()) =~= core);
    assert(args.filter(operation_flags()) =~= operation);
    assert forall|j: int| 0 <= j < flags.len() implies is_flag(#[trigger] args[j]) by {
        if j < core.len() {
            assert(args[j] == core[0]);
        } else {
            assert(args[j] == operation[0]);
        }
    }
    lemma_destination_skip(args, flags.len() as int);
    assert(args.skip(flags.len() as int) =~= dest);
    if dest.len() > 0 {
        assert(destination_of(dest) == Some(dest[0]));
    } else {
        assert(destination_of(dest) is None);
    }
    assert(command_line_of(args, source) =~= core + operation + seq![source_token(source)]
        + dest);
}

/// The tokens that stand for an operation: at most one, and a flag that is
/// no core flag.
proof fn lemma_operation_tokens(operation: Operation, filter: Option<Seq<char>>) -> (tokens: Seq<
    Seq<char>,
>)
    ensures
        tokens == (if operation == Operation::Extract {
            match filter {
                Some(f) => seq![filter_token(f)],
                None => Seq::empty(),
            }
        } else {
            seq![listing_token(operation == Operation::ListBrief)]
        }),
        tokens.len() <= 1,
        forall|i: int| 0 <= i < tokens.len() ==> is_operation_flag(#[trigger] tokens[i]),
{
    reveal_strlit("-L");
    reveal_strlit("-LB");
    reveal_strlit("-F=");
    let tokens: Seq<Seq<char>> = if operation == Operation::Extract {
        match filter {
            Some(f) => seq![filter_token(f)],
            None => Seq::empty(),
        }
    } else {
        seq![listing_token(operation == Operation::ListBrief)]
    };
    if tokens.len() > 0 {
        let token = tokens[0];
        if operation == Operation::Extract {
            assert(token == "-F="@ + filter.unwrap());
            assert(token[0] == "-F="@[0] && token[1] == "-F="@[1]);
        }
        assert(token.len() >= 2 && token[0] == '-' && !is_core_letter(token[1]));
        assert(is_flag(token) && !is_core_flag(token));
    }
    tokens
}

/// The command line of a call that is accepted has the shape that the tool
/// reads: the core flags in one token, the flags of the operation, the
/// archive, and last the destination, where there is one.
pub proof fn lemma_invocation_shape(
    operation: Operation,
    options: ExtractOptionsView,
    source: PathProbe,
    destination: Option<Seq<char>>,
)
    requires
        invocation_of(operation, options, source, destination) is Ok,
    ensures
        invocation_of(operation, options, source, destination) == Ok::<
            Seq<Seq<char>>,
            PboErrorView,
        >(canonical_line_of(operation, options, source.path@, destination)),
{
    let core = optional_token(
        core_token(options.no_pause, options.warnings_as_errors, options.verbose),
    );
    let tokens = lemma_operation_tokens(operation, options.file_filter);
    let flags = operation_flags_of(operation, options);
    assert(flags == core + tokens);
    if core.len() > 0 {
        lemma_core_token_is_core(options.no_pause, options.warnings_as_errors, options.verbose);
        assert(core[0] == core_token(
            options.no_pause,
            options.warnings_as_errors,
            options.verbose,
        ).unwrap());
    }
    assert(invocation_refusal(options, destination) is None);
    assert(destination is Some ==> !is_flag(destination.unwrap()));
    lemma_command_line_of_groups(core, tokens, destination, source.path@);
}

/// A call whose file filter holds a double quote or a pipe is refused as a
/// validation failure, whatever the operation, the archive and the
/// destination are: no path is looked at and no command line is produced.
pub proof fn lemma_quote_or_pipe_is_never_invoked(
    operation: Operation,
    options: ExtractOptionsView,
    source: PathProbe,
    destination: Option<Seq<char>>,
)
    requires
        options.file_filter is Some,
        options.file_filter.unwrap().contains('"') || options.file_filter.unwrap().contains('|'),
    ensures
        invocation_of(operation, options, source, destination) is Err,
        invocation_of(operation, options, source, destination)->Err_0 is ValidationFailed,
        invocation_of(operation, options, source, destination)->Err_0 == options_error(
            options.brief_listing,
            options.file_filter,
        ).unwrap(),
{
    crate::options::lemma_quote_or_pipe_is_refused(
        options.brief_listing,
        options.file_filter.unwrap(),
    );
}

/// A destination that begins with a hyphen is never handed to the tool.
pub proof fn lemma_flag_like_destination_is_refused(
    operation: Operation,
    options: ExtractOptionsView,
    source: PathProbe,
    destination: Seq<char>,
)
    requires
        is_flag(destination),
    ensures
        invocation_of(operation, options, source, Some(destination)) is Err,
        invocation_of(operation, options, source, Some(destination))->Err_0 is ValidationFailed,
{
}

/// A command line is never produced for an archive that does not exist.
pub proof fn lemma_missing_source_is_refused(args: Seq<Seq<char>>, source: Seq<char>)
    ensures
        command_line_result(args, source, false) == Err::<Seq<Seq<char>>, PboErrorView>(
            PboErrorView::InvalidPath(source),
        ),
{
}

/// In every command line the archive follows all flags and the destination,
/// where there is one, comes last.
pub proof fn lemma_command_line_shape(args: Seq<Seq<char>>, source: Seq<char>)
    ensures
        ({
            let line = command_line_of(args, source);
            let flags = args.filter(core_flags()).len() + args.filter(operation_flags()).len();
            &&& line.len() == flags + 1 + optional_token(destination_of(args)).len()
            &&& line[flags as int] == source_token(source)
            &&& destination_of(args) matches Some(dest) ==> line.last() == dest
        }),
{
}

// ---------------------------------------------------------------------------
// Tokens
// ---------------------------------------------------------------------------

fn token_is_flag(t: &Vec<char>) -> (r: bool)
    ensures
        r == is_flag(t@),
{
    t.len() > 0 && t[0] == '-'
}

fn token_is_core_flag(t: &Vec<char>) -> (r: bool)
    ensures
        r == is_core_flag(t@),
{
    if t.len() < 2 || t[0] != '-' {
        return false;
    }
    let mut i: usize = 1;
    while i < t.len()
        invariant
            1 <= i <= t.len(),
            forall|j: int| 1 <= j < i ==> is_core_letter(#[trigger] t[j]),
        decreases t.len() - i,
    {
        let c = t[i];
        if !(c == 'P' || c == 'W' || c == 'N') {
            return false;
        }
        i += 1;
    }
    true
}

fn char_is_ascii_alphanumeric(c: char) -> (r: bool)
    ensures
        r == is_ascii_alphanumeric(c),
{
    ('0' <= c && c <= '9') || ('a' <= c && c <= 'z') || ('A' <= c && c <= 'Z')
}

#[verifier::loop_isolation(false)]
fn token_well_formed(t: &Vec<char>) -> (r: bool)
    ensures
        r == flag_well_formed(t@),
{
    let marker = chars_of("-F=");
    assert(t@.subrange(0, t.len() as int) =~= t@);
    if range_starts_with(t, 0, t.len(), &marker) {
        return true;
    }
    let mut i: usize = 1;
    while i < t.len()
        invariant
            1 <= i,
            forall|j: int| 1 <= j < i && j < t.len() ==> is_ascii_alphanumeric(#[trigger] t[j]),
        decreases t.len() - i,
    {
        if !char_is_ascii_alphanumeric(t[i]) {
            return false;
        }
        i += 1;
    }
    true
}

/// Whether `path` ends in one of the extensions of an archive.
#[verifier::loop_isolation(false)]
pub fn path_has_archive_extension(path: &str) -> (r: bool)
    ensures
        r == has_archive_extension(path@),
{
    match extension_of(path) {
        Some(ext) => {
            let known = common_pbo_extension_list();
            let ghost ks = str_views(known@);
            let mut i: usize = 0;
            while i < known.len()
                invariant
                    i <= known.len(),
                    ks == str_views(known@),
                    ks == common_pbo_extensions(),
                    forall|j: int| 0 <= j < i ==> ks[j] != ext@,
                decreases known.len() - i,
            {
                let candidate = String::from_str(known[i]);
                if candidate == ext {
                    assert(ks[i as int] == ext@);
                    return true;
                }
                i += 1;
            }
            false
        },
        None => false,
    }
}

/// `path` without the prefix that marks a verbatim Windows path, as the
/// tool is given it.
pub fn clean_path(path: &str) -> (out: String)
    ensures
        out@ == source_token(path@),
{
    let text = chars_of(path);
    let verbatim = chars_of("\\\\?\\");
    let mut out = String::new();
    assert(text@.subrange(0, text.len() as int) =~= text@);
    push_without(&mut out, &text, 0, text.len(), &verbatim);
    out
}

/// The core flags as one token, where any is switched on.
pub fn make_core_token(no_pause: bool, warnings_as_errors: bool, verbose: bool) -> (r: Option<
    String,
>)
    ensures
        crate::result::option_view(r) == core_token(no_pause, warnings_as_errors, verbose),
{
    if !no_pause && !warnings_as_errors && !verbose {
        return None;
    }
    let mut token = String::new();
    token.push('-');
    if no_pause {
        token.push('P');
    }
    if warnings_as_errors {
        token.push('W');
    }
    if verbose {
        token.push('N');
    }
    assert(token@ =~= seq!['-'] + core_letters(no_pause, warnings_as_errors, verbose));
    Some(token)
}

// ---------------------------------------------------------------------------
// DefaultExtractor
// ---------------------------------------------------------------------------

/// How starting the process failed.
#[derive(Debug, Clone, Copy, PartialEq, Eq)]
pub enum SpawnFailure {
    /// The executable was not found.
    NotFound,
    /// The executable may not be run.
    PermissionDenied,
    /// Any other failure.
    Other,
}

/// The protocol of the real `extractpbo` executable.
#[derive(Debug, Clone, Copy, PartialEq, Eq)]
pub struct DefaultExtractor;

impl InvocationRequest {
    /// The request for a listing of `source` with `options`.
    pub fn listing(source: PathProbe, options: &ExtractOptions) -> (r: InvocationRequest)
        ensures
            r.operation == listing_operation(options@),
            r.source == source,
            r.destination is None,
            r.options_view() == options@,
    {
        InvocationRequest {
            operation: if options.brief_listing {
                Operation::ListBrief
            } else {
                Operation::List
            },
            source,
            destination: None,
            file_filter: copy_of(&options.file_filter),
            no_pause: options.no_pause,
            warnings_as_errors: options.warnings_as_errors,
            verbose: options.verbose,
        }
    }

    /// The request for an extraction of `source` into `destination` with
    /// `options`. An extraction is never brief.
    pub fn extraction(source: PathProbe, destination: String, options: &ExtractOptions) -> (r:
        InvocationRequest)
        ensures
            r.operation == Operation::Extract,
            r.source == source,
            r.destination_view() == Some(destination@),
            r.options_view() == (ExtractOptionsView { brief_listing: false, ..options@ }),
    {
        InvocationRequest {
            operation: Operation::Extract,
            source,
            destination: Some(destination),
            file_filter: copy_of(&options.file_filter),
            no_pause: options.no_pause,
            warnings_as_errors: options.warnings_as_errors,
            verbose: options.verbose,
        }
    }

    /// The options that the request stands for.
    pub fn options(&self) -> (o: ExtractOptions)
        ensures
            o@ == self.options_view(),
    {
        ExtractOptions {
            no_pause: self.no_pause,
            warnings_as_errors: self.warnings_as_errors,
            file_filter: copy_of(&self.file_filter),
            verbose: self.verbose,
            brief_listing: match self.operation {
                Operation::ListBrief => true,
                _ => false,
            },
        }
    }
}

/// A copy of an optional string.
fn copy_of(text: &Option<String>) -> (r: Option<String>)
    ensures
        crate::result::option_view(r) == crate::result::option_view(*text),
{
    match text {
        Some(t) => Some(t.clone()),
        None => None,
    }
}

impl DefaultExtractor {
    /// The protocol of the tool.
    pub fn new() -> (e: DefaultExtractor) {
        DefaultExtractor
    }

    /// The command line for one call of the tool, or the reason why the
    /// tool must not be started: see [`invocation_of`].
    fn invoke(
        &self,
        operation: Operation,
        options: &ExtractOptions,
        source: &PathProbe,
        destination: Option<&str>,
    ) -> (r: Result<Vec<String>, PboError>)
        ensures
            tokens_view(r) == invocation_of(
                operation,
                options@,
                *source,
                crate::config::option_str_view(destination),
            ),
    {
        match options.validate() {
            Err(e) => {
                return Err(e);
            },
            Ok(_) => {},
        }
        match &options.file_filter {
            Some(f) => {
                match validate_filter(f.as_str()) {
                    Err(e) => {
                        return Err(e);
                    },
                    Ok(_) => {},
                }
            },
            None => {},
        }
        match destination {
            Some(d) => {
                let token = chars_of(d);
                if token_is_flag(&token) {
                    let mut msg = String::from_str("Invalid destination path: ");
                    msg.append(d);
                    return Err(PboError::ValidationFailed(msg));
                }
            },
            None => {},
        }
        let mut args: Vec<String> = Vec::new();
        match make_core_token(options.no_pause, options.warnings_as_errors, options.verbose) {
            Some(token) => {
                args.push(token);
            },
            None => {},
        }
        match operation {
            Operation::Extract => {
                match &options.file_filter {
                    Some(filter) => {
                        let mut token = String::from_str("-F=");
                        token.append(filter.as_str());
                        args.push(token);
                    },
                    None => {},
                }
            },
            Operation::ListBrief => {
                args.push(String::from_str("-LB"));
            },
            Operation::List => {
                args.push(String::from_str("-L"));
            },
        }
        assert(views(args@) =~= operation_flags_of(operation, options@));
        match destination {
            Some(d) => {
                let ghost before = views(args@);
                args.push(String::from_str(d));
                assert(views(args@) =~= before + seq![d@]);
            },
            None => {
                assert(views(args@) =~= views(args@) + Seq::<Seq<char>>::empty());
            },
        }
        self.command_line(&args, source)
    }

    /// The command line for `request`, or the reason why the tool must not
    /// be started: see [`InvocationRequest::invocation`].
    pub fn invocation(&self, request: &InvocationRequest) -> (r: Result<Vec<String>, PboError>)
        ensures
            tokens_view(r) == request.invocation(),
    {
        let options = request.options();
        match &request.destination {
            Some(d) => self.invoke(request.operation, &options, &request.source, Some(d.as_str())),
            None => self.invoke(request.operation, &options, &request.source, None),
        }
    }

    /// The command line that extracts the archive `pbo` into `output_dir`
    /// with `options`, or the reason why the tool must not be started. The
    /// options are checked before any path is looked at, so a file filter
    /// that holds a double quote or a pipe is a validation failure
    /// whatever the paths are.
    pub fn extract_with_options(
        &self,
        pbo: &PathProbe,
        output_dir: &str,
        options: &ExtractOptions,
    ) -> (r: Result<Vec<String>, PboError>)
        ensures
            tokens_view(r) == invocation_of(
                Operation::Extract,
                options@,
                *pbo,
                Some(output_dir@),
            ),
            options@.file_filter matches Some(f) && (f.contains('"') || f.contains('|')) ==> r
                is Err && r->Err_0@ is ValidationFailed,
    {
        proof {
            if options@.file_filter is Some && (options@.file_filter.unwrap().contains('"')
                || options@.file_filter.unwrap().contains('|')) {
                lemma_quote_or_pipe_is_never_invoked(
                    Operation::Extract,
                    options@,
                    *pbo,
                    Some(output_dir@),
                );
            }
        }
        self.invoke(Operation::Extract, options, pbo, Some(output_dir))
    }

    /// The command line that lists the archive `pbo` with `options`,
    /// briefly where these say so, or the reason why the tool must not be
    /// started.
    pub fn list_with_options(&self, pbo: &PathProbe, options: &ExtractOptions) -> (r: Result<
        Vec<String>,
        PboError,
    >)
        ensures
            tokens_view(r) == invocation_of(listing_operation(options@), options@, *pbo, None),
            options@.file_filter matches Some(f) && (f.contains('"') || f.contains('|')) ==> r
                is Err && r->Err_0@ is ValidationFailed,
    {
        proof {
            if options@.file_filter is Some && (options@.file_filter.unwrap().contains('"')
                || options@.file_filter.unwrap().contains('|')) {
                lemma_quote_or_pipe_is_never_invoked(
                    listing_operation(options@),
                    options@,
                    *pbo,
                    None,
                );
            }
        }
        let operation = if options.brief_listing {
            Operation::ListBrief
        } else {
            Operation::List
        };
        self.invoke(operation, options, pbo, None)
    }

    /// The flags of a listing with `options`, once these are checked.
    pub fn listing_flags(&self, options: &ExtractOptions) -> (r: Result<Vec<String>, PboError>)
        ensures
            tokens_view(r) == listing_flags_result(*options),
    {
        match options.validate() {
            Err(e) => {
                return Err(e);
            },
            Ok(_) => {},
        }
        let mut flags: Vec<String> = Vec::new();
        match make_core_token(options.no_pause, options.warnings_as_errors, options.verbose) {
            Some(token) => {
                flags.push(token);
            },
            None => {},
        }
        if options.brief_listing {
            flags.push(String::from_str("-LB"));
        } else {
            flags.push(String::from_str("-L"));
        }
        assert(views(flags@) =~= listing_flags_of(
            options.no_pause,
            options.warnings_as_errors,
            options.verbose,
            options.brief_listing,
        ));
        Ok(flags)
    }

    /// The flags of an extraction with `options`, once these are checked.
    pub fn extraction_flags(&self, options: &ExtractOptions) -> (r: Result<Vec<String>, PboError>)
        ensures
            tokens_view(r) == extraction_flags_result(*options),
    {
        match options.validate() {
            Err(e) => {
                return Err(e);
            },
            Ok(_) => {},
        }
        let mut flags: Vec<String> = Vec::new();
        match make_core_token(options.no_pause, options.warnings_as_errors, options.verbose) {
            Some(token) => {
                flags.push(token);
            },
            None => {},
        }
        match &options.file_filter {
            Some(filter) => {
                let mut token = String::from_str("-F=");
                token.append(filter.as_str());
                flags.push(token);
            },
            None => {},
        }
        assert(views(flags@) =~= extraction_flags_of(
            options.no_pause,
            options.warnings_as_errors,
            options.verbose,
            options.filter_view(),
        ));
        Ok(flags)
    }

    /// The command line for the tokens `args` and the archive `source`, in
    /// canonical order, or the reason why the tool must not be started: see
    /// [`command_line_of`] and [`command_line_error`].
    #[verifier::loop_isolation(false)]
    pub fn command_line(&self, args: &Vec<String>, source: &PathProbe) -> (r: Result<
        Vec<String>,
        PboError,
    >)
        ensures
            tokens_view(r) == command_line_result(views(args@), source.path@, source.exists),
    {
        let ghost a = views(args@);
        if !source.exists {
            return Err(PboError::InvalidPath(source.path.clone()));
        }
        if !path_has_archive_extension(source.path.as_str()) {
            let mut msg = String::from_str("File ");
            msg.append(source.path.as_str());
            msg.append(" does not have a valid PBO extension");
            return Err(PboError::InvalidFormat(msg));
        }
        let n = args.len();
        // Every flag must be well formed.
        let mut i: usize = 0;
        while i < n
            invariant
                i <= n,
                n == args.len(),
                a == views(args@),
                forall|j: int|
                    0 <= j < i ==> !(is_flag(#[trigger] a[j]) && !flag_well_formed(a[j])),
            decreases n - i,
        {
            let token = chars_of(args[i].as_str());
            if token_is_flag(&token) && !token_well_formed(&token) {
                proof {
                    lemma_first_malformed_skip(a, i as int);
                    assert(a.skip(i as int)[0] == a[i as int]);
                }
                let mut msg = String::from_str("Invalid option format: ");
                msg.append(args[i].as_str());
                return Err(PboError::ValidationFailed(msg));
            }
            i += 1;
        }
        proof {
            lemma_first_malformed_skip(a, n as int);
            assert(a.skip(n as int) =~= Seq::<Seq<char>>::empty());
        }
        // The destination is the first token that is no flag.
        let mut dest: Option<usize> = None;
        let mut k: usize = 0;
        while k < n && dest.is_none()
            invariant
                k <= n,
                n == args.len(),
                a == views(args@),
                forall|j: int| 0 <= j < k && dest is None ==> is_flag(#[trigger] a[j]),
                dest matches Some(d) ==> d < n && !is_flag(a[d as int]) && forall|j: int|
                    0 <= j < d ==> is_flag(#[trigger] a[j]),
            decreases n - k + (if dest is None { 1int } else { 0int }),
        {
            let token = chars_of(args[k].as_str());
            if !token_is_flag(&token) {
                dest = Some(k);
            } else {
                k += 1;
            }
        }
        proof {
            match dest {
                Some(d) => {
                    lemma_destination_skip(a, d as int);
                    assert(a.skip(d as int)[0] == a[d as int]);
                },
                None => {
                    lemma_destination_skip(a, n as int);
                    assert(a.skip(n as int) =~= Seq::<Seq<char>>::empty());
                },
            }
        }
        match dest {
            Some(d) => {
                if crate::paths::has_shell_character(args[d].as_str()) {
                    let mut msg = String::from_str("Invalid destination path: ");
                    msg.append(args[d].as_str());
                    return Err(PboError::ValidationFailed(msg));
                }
            },
            None => {},
        }
        assert(command_line_error(a, source.path@, source.exists) is None);
        // Core flags first, then the flags of the operation.
        let mut line: Vec<String> = Vec::new();
        let mut i: usize = 0;
        assert(a.take(0) =~= Seq::<Seq<char>>::empty());
        assert(views(line@) =~= Seq::<Seq<char>>::empty());
        proof {
            reveal(Seq::filter);
        }
        while i < n
            invariant
                i <= n,
                n == args.len(),
                a == views(args@),
                views(line@) == a.take(i as int).filter(core_flags()),
            decreases n - i,
        {
            let token = chars_of(args[i].as_str());
            let ghost before = views(line@);
            proof {
                lemma_filter_push(a.take(i as int), a[i as int], core_flags());
                assert(a.take(i + 1) =~= a.take(i as int).push(a[i as int]));
            }
            if token_is_core_flag(&token) {
                line.push(args[i].clone());
                assert(views(line@) =~= before.push(a[i as int]));
            }
            i += 1;
        }
        assert(a.take(n as int) =~= a);
        let ghost core = views(line@);
        let mut i: usize = 0;
        assert(core + a.take(0).filter(operation_flags()) =~= core) by {
            reveal(Seq::filter);
        }
        while i < n
            invariant
                i <= n,
                n == args.len(),
                a == views(args@),
                views(line@) == core + a.take(i as int).filter(operation_flags()),
            decreases n - i,
        {
            let token = chars_of(args[i].as_str());
            let ghost before = views(line@);
            proof {
                lemma_filter_push(a.take(i as int), a[i as int], operation_flags());
                assert(a.take(i + 1) =~= a.take(i as int).push(a[i as int]));
            }
            if token_is_flag(&token) && !token_is_core_flag(&token) {
                line.push(args[i].clone());
                assert(views(line@) =~= before.push(a[i as int]));
            }
            i += 1;
        }
        let ghost flags = views(line@);
        // Then the archive, without the verbatim prefix.
        let cleaned = clean_path(source.path.as_str());
        line.push(cleaned);
        assert(views(line@) =~= flags.push(source_token(source.path@)));
        // Then the destination.
        match dest {
            Some(d) => {
                let ghost before = views(line@);
                line.push(args[d].clone());
                assert(views(line@) =~= before.push(a[d as int]));
            },
            None => {},
        }
        assert(views(line@) =~= command_line_of(a, source.path@));
        Ok(line)
    }

    /// What is made of a finished process: see [`interpreted_output`].
    pub fn interpret_output(&self, code: Option<i32>, stdout: String, stderr: String) -> (r:
        Result<ExtractResult, PboError>)
        ensures
            result_view(r) == interpreted_output(code, stdout@, stderr@),
            r matches Ok(res) ==> (res.success() <==> code == Some(0i32)),
    {
        let return_code = match code {
            Some(c) => c,
            None => -1,
        };
        let result = ExtractResult { return_code, stdout, stderr };
        if result.has_error_indicators() {
            let has_stdout = result.stdout.as_str().unicode_len() > 0;
            let has_stderr = result.stderr.as_str().unicode_len() > 0;
            let mut reason = String::new();
            reason.append(result.stdout.as_str());
            if has_stdout && has_stderr {
                reason.append("\n");
            }
            reason.append(result.stderr.as_str());
            assert(reason@ =~= both_streams(result.stdout@, result.stderr@));
            return Err(PboError::Extraction(ExtractError::BadFormat { reason }));
        }
        Ok(result)
    }

    /// The error for a process that could not be started.
    pub fn spawn_error(&self, failure: SpawnFailure, reason: String) -> (e: PboError)
        ensures
            e@ == (match failure {
                SpawnFailure::NotFound => PboErrorView::CommandNotFound(EXTRACT_COMMAND@),
                SpawnFailure::PermissionDenied => PboErrorView::FileSystem(
                    FileSystemErrorView::PathValidation("Permission denied"@),
                ),
                SpawnFailure::Other => PboErrorView::Extraction(
                    ExtractErrorView::CommandFailed { cmd: EXTRACT_COMMAND@, reason: reason@ },
                ),
            }),
    {
        match failure {
            SpawnFailure::NotFound => PboError::CommandNotFound(String::from_str(EXTRACT_COMMAND)),
            SpawnFailure::PermissionDenied => PboError::FileSystem(
                FileSystemError::PathValidation(String::from_str("Permission denied")),
            ),
            SpawnFailure::Other => PboError::Extraction(
                ExtractError::CommandFailed { cmd: String::from_str(EXTRACT_COMMAND), reason },
            ),
        }
    }
}

} // verus!
