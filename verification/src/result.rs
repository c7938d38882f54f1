//! The outcome of one run of the extraction tool and what can be read off it:
//! the verdict, the error message, the files it lists and the archive's
//! prefix.
//!
//! Every query is a function of the exit code and the two output streams
//! alone, so asking twice gives the same answer.

use vstd::prelude::*;
use vstd::string::StringExecFns;
use crate::constants::{
    bad_pbo_indicator_list,
    bad_pbo_indicators,
    known_warning_list,
    known_warnings,
    metadata_marker_list,
    metadata_markers,
    EXTRACT_COMMAND,
};
use crate::error::{ExtractError, ExtractErrorView, PboError, PboErrorView};
use crate::text::{
    after_first_line,
    chars_of,
    contains,
    contains_any,
    decimal,
    find_char,
    first_line,
    lines,
    next_line,
    push_decimal_i64,
    push_range,
    push_replaced,
    range_contains,
    range_contains_any,
    range_find_char,
    range_starts_with,
    range_starts_with_any,
    replace_char,
    starts_with,
    starts_with_any,
    strip_trailing,
    strip_trailing_range,
    trim,
    trim_range,
    views,
};

verus! {

// ---------------------------------------------------------------------------
// Model
// ---------------------------------------------------------------------------

/// A stream carries one of the fatal indicators.
pub open spec fn has_bad_indicator(stream: Seq<char>) -> bool {
    contains_any(stream, bad_pbo_indicators())
}

/// A stream carries one of the known harmless warnings.
pub open spec fn has_known_warning(stream: Seq<char>) -> bool {
    contains_any(stream, known_warnings())
}

/// The first of `patterns`, in their order, that occurs in either stream;
/// standard error and standard output count alike.
pub open spec fn first_match(
    stdout: Seq<char>,
    stderr: Seq<char>,
    patterns: Seq<Seq<char>>,
) -> Option<Seq<char>>
    decreases patterns.len(),
{
    if patterns.len() == 0 {
        None
    } else if contains(stderr, patterns[0]) || contains(stdout, patterns[0]) {
        Some(patterns[0])
    } else {
        first_match(stdout, stderr, patterns.drop_first())
    }
}

/// The verdict on a run: the exit code is zero and neither stream carries a
/// fatal indicator. Known warnings play no part in it.
pub open spec fn succeeded(code: int, stdout: Seq<char>, stderr: Seq<char>) -> bool {
    code == 0 && !has_bad_indicator(stdout) && !has_bad_indicator(stderr)
}

/// The message for a failed run: standard error where there is any, then the
/// exit code where it is not zero, and a generic sentence where both are
/// missing. A successful run has no message.
pub open spec fn error_message_of(code: int, stdout: Seq<char>, stderr: Seq<char>) -> Option<
    Seq<char>,
> {
    let code_part = "Command failed with return code "@ + decimal(code);
    if succeeded(code, stdout, stderr) {
        None
    } else if code != 0 && stderr.len() > 0 {
        Some(stderr + "\n"@ + code_part)
    } else if code != 0 {
        Some(code_part)
    } else if stderr.len() > 0 {
        Some(stderr)
    } else {
        Some("Unknown error occurred"@)
    }
}

/// The marker that opens the line announcing one extracted file.
pub open spec fn extracting_marker() -> Seq<char> {
    "Extracting "@
}

/// The marker that opens the line carrying the archive's prefix.
pub open spec fn prefix_marker() -> Seq<char> {
    "prefix="@
}

/// A path with every backslash written as a forward slash.
pub open spec fn normalize_separators(path: Seq<char>) -> Seq<char> {
    replace_char(path, '\\', '/')
}

/// The file name that a trimmed output line carries: what follows
/// `Extracting ` without its trailing dots, or what precedes the first colon
/// of a detailed listing line, or else the whole line; trimmed, with its
/// separators normalised.
pub open spec fn entry_name(t: Seq<char>) -> Seq<char> {
    if starts_with(t, extracting_marker()) {
        normalize_separators(trim(strip_trailing(t.skip(extracting_marker().len() as int), "..."@)))
    } else if find_char(t, ':') < t.len() {
        normalize_separators(trim(t.take(find_char(t, ':'))))
    } else {
        normalize_separators(t)
    }
}

/// The file entry that one output line contributes, if any: none for a blank
/// line, for a line that begins with a metadata marker and for one whose
/// name comes out empty.
pub open spec fn file_entry(line: Seq<char>) -> Option<Seq<char>> {
    let t = trim(line);
    if t.len() == 0 || starts_with_any(t, metadata_markers()) || entry_name(t).len() == 0 {
        None
    } else {
        Some(entry_name(t))
    }
}

/// The entries of a sequence of lines, in the order of the lines.
pub open spec fn entries_of(ls: Seq<Seq<char>>) -> Seq<Seq<char>>
    decreases ls.len(),
{
    if ls.len() == 0 {
        Seq::empty()
    } else {
        match file_entry(ls[0]) {
            Some(name) => seq![name] + entries_of(ls.drop_first()),
            None => entries_of(ls.drop_first()),
        }
    }
}

/// The files that the tool's standard output lists.
pub open spec fn file_list_of(stdout: Seq<char>) -> Seq<Seq<char>> {
    entries_of(lines(stdout))
}

/// The value of a prefix line: what stands between the marker and the first
/// semicolon (or the end of the line), trimmed.
pub open spec fn prefix_value(line: Seq<char>) -> Seq<char> {
    let rest = line.skip(prefix_marker().len() as int);
    trim(rest.take(find_char(rest, ';')))
}

/// The prefix that the first prefix line among `ls` carries, unless it is
/// empty.
pub open spec fn prefix_in(ls: Seq<Seq<char>>) -> Option<Seq<char>>
    decreases ls.len(),
{
    if ls.len() == 0 {
        None
    } else if starts_with(ls[0], prefix_marker()) {
        if prefix_value(ls[0]).len() == 0 {
            None
        } else {
            Some(prefix_value(ls[0]))
        }
    } else {
        prefix_in(ls.drop_first())
    }
}

/// The archive prefix that the tool's standard output announces.
pub open spec fn prefix_of(stdout: Seq<char>) -> Option<Seq<char>> {
    prefix_in(lines(stdout))
}

/// Two trimmed streams as one text: both, on separate lines, where both have
/// content, else the one that has.
pub open spec fn joined_streams(stdout: Seq<char>, stderr: Seq<char>) -> Seq<char> {
    let o = trim(stdout);
    let e = trim(stderr);
    if o.len() > 0 && e.len() > 0 {
        o + "\n"@ + e
    } else if o.len() > 0 {
        o
    } else {
        e
    }
}

/// How a run is shown to the user: the joined streams of a successful run;
/// for a failed one the exit code and the joined streams, or a generic
/// sentence where both are blank.
pub open spec fn display_of(code: int, stdout: Seq<char>, stderr: Seq<char>) -> Seq<char> {
    let body = joined_streams(stdout, stderr);
    if succeeded(code, stdout, stderr) {
        body
    } else if body.len() == 0 {
        "Error ("@ + decimal(code) + "): Unknown error"@
    } else {
        "Error ("@ + decimal(code) + "): "@ + body
    }
}

/// The view of an optional string.
pub open spec fn option_view(o: Option<String>) -> Option<Seq<char>> {
    match o {
        Some(s) => Some(s@),
        None => None,
    }
}

// ---------------------------------------------------------------------------
// Laws
// ---------------------------------------------------------------------------

/// A run that ended with a non-zero exit code has failed, whatever its
/// streams hold.
pub proof fn lemma_nonzero_exit_is_failure(code: int, stdout: Seq<char>, stderr: Seq<char>)
    requires
        code != 0,
    ensures
        !succeeded(code, stdout, stderr),
        error_message_of(code, stdout, stderr) is Some,
{
}

/// A run that ended with exit code zero and whose streams carry no fatal
/// indicator has succeeded, whether or not a known warning is present.
pub proof fn lemma_clean_zero_exit_is_success(stdout: Seq<char>, stderr: Seq<char>)
    requires
        !has_bad_indicator(stdout),
        !has_bad_indicator(stderr),
    ensures
        succeeded(0, stdout, stderr),
        has_known_warning(stdout) || has_known_warning(stderr) ==> succeeded(0, stdout, stderr),
        error_message_of(0, stdout, stderr) is None,
{
}

/// No pattern is the first to occur exactly where none occurs in either
/// stream.
pub proof fn lemma_first_match_is_none(
    stdout: Seq<char>,
    stderr: Seq<char>,
    patterns: Seq<Seq<char>>,
)
    ensures
        first_match(stdout, stderr, patterns) is None <==> !contains_any(stdout, patterns)
            && !contains_any(stderr, patterns),
    decreases patterns.len(),
{
    if patterns.len() == 0 {
    } else {
        let rest = patterns.drop_first();
        lemma_first_match_is_none(stdout, stderr, rest);
        if contains(stderr, patterns[0]) || contains(stdout, patterns[0]) {
        } else {
            assert forall|text: Seq<char>|
                text == stdout || text == stderr implies (contains_any(text, patterns)
                <==> contains_any(text, rest)) by {
                if contains_any(text, patterns) {
                    let i = choose|i: int|
                        0 <= i < patterns.len() && contains(text, #[trigger] patterns[i]);
                    assert(rest[i - 1] == patterns[i]);
                }
                if contains_any(text, rest) {
                    let i = choose|i: int| 0 <= i < rest.len() && contains(text, #[trigger] rest[i]);
                    assert(patterns[i + 1] == rest[i]);
                }
            }
        }
    }
}

/// A fatal indicator in either stream fails a run even with exit code zero.
pub proof fn lemma_indicator_is_failure(code: int, stdout: Seq<char>, stderr: Seq<char>)
    requires
        has_bad_indicator(stdout) || has_bad_indicator(stderr),
    ensures
        !succeeded(code, stdout, stderr),
{
}

/// Asking a result for its files twice gives the same files: two lists that
/// both are what [`ExtractResult::get_file_list`] promises of one result
/// agree in length and entry by entry.
pub proof fn lemma_file_list_is_idempotent(
    stdout: Seq<char>,
    first: Seq<String>,
    second: Seq<String>,
)
    requires
        views(first) == file_list_of(stdout),
        views(second) == file_list_of(stdout),
    ensures
        first.len() == second.len(),
        forall|i: int| 0 <= i < first.len() ==> first[i]@ == second[i]@,
{
    assert(views(first).len() == first.len());
    assert(views(second).len() == second.len());
    assert forall|i: int| 0 <= i < first.len() implies first[i]@ == second[i]@ by {
        assert(views(first)[i] == first[i]@);
        assert(views(second)[i] == second[i]@);
    }
}

/// Where the first line carries the prefix marker, later lines play no part
/// in the prefix: the first occurrence wins.
pub proof fn lemma_first_prefix_line_wins(first: Seq<char>, rest: Seq<Seq<char>>)
    requires
        starts_with(first, prefix_marker()),
    ensures
        prefix_in(seq![first] + rest) == prefix_in(seq![first]),
{
    assert((seq![first] + rest)[0] == first);
    assert(seq![first][0] == first);
}

// ---------------------------------------------------------------------------
// ExtractResult
// ---------------------------------------------------------------------------

/// What one run of the extraction tool left behind.
#[derive(Debug, Clone, PartialEq, Eq)]
pub struct ExtractResult {
    /// The exit code of the process.
    pub return_code: i32,
    /// Everything the process wrote to standard output.
    pub stdout: String,
    /// Everything the process wrote to standard error.
    pub stderr: String,
}

/// The name of the file that the trimmed line `text[a..b]` carries.
fn entry_name_of(text: &Vec<char>, a: usize, b: usize) -> (name: String)
    requires
        a <= b <= text.len(),
    ensures
        name@ == entry_name(text@.subrange(a as int, b as int)),
{
    let ghost t = text@.subrange(a as int, b as int);
    let marker = chars_of("Extracting ");
    let mut name = String::new();
    if range_starts_with(text, a, b, &marker) {
        let from = a + marker.len();
        assert(t.skip(marker.len() as int) =~= text@.subrange(from as int, b as int));
        let dots = chars_of("...");
        let end = strip_trailing_range(text, from, b, &dots);
        let (x, y) = trim_range(text, from, end);
        push_replaced(&mut name, text, x, y, '\\', '/');
    } else {
        let colon = range_find_char(text, a, b, ':');
        if colon < b {
            assert(t.take(colon - a) =~= text@.subrange(a as int, colon as int));
            let (x, y) = trim_range(text, a, colon);
            push_replaced(&mut name, text, x, y, '\\', '/');
        } else {
            push_replaced(&mut name, text, a, b, '\\', '/');
        }
    }
    assert(name@ =~= entry_name(t));
    name
}

/// The file entry of the line `text[from..to]`.
fn file_entry_of(text: &Vec<char>, from: usize, to: usize, markers: &Vec<&'static str>) -> (r:
    Option<String>)
    requires
        from <= to <= text.len(),
        crate::text::str_views(markers@) == metadata_markers(),
    ensures
        option_view(r) == file_entry(text@.subrange(from as int, to as int)),
{
    let (a, b) = trim_range(text, from, to);
    if a == b {
        return None;
    }
    if range_starts_with_any(text, a, b, markers) {
        return None;
    }
    let name = entry_name_of(text, a, b);
    if name.as_str().unicode_len() == 0 {
        None
    } else {
        Some(name)
    }
}

/// The archive prefix announced in `output`, the tool's standard output.
///
/// The first line that begins with `prefix=` decides: its value runs up to
/// the first semicolon and is trimmed. There is no prefix where no line
/// carries the marker or where that value is empty.
pub fn extract_prefix(output: &str) -> (r: Option<String>)
    ensures
        option_view(r) == prefix_of(output@),
{
    let text = chars_of(output);
    let n = text.len();
    let marker = chars_of("prefix=");
    let mut pos: usize = 0;
    assert(text@.subrange(0, n as int) =~= text@);
    while pos < n
        invariant
            pos <= n,
            n == text.len(),
            marker@ == prefix_marker(),
            text@ == output@,
            prefix_of(text@) == prefix_in(lines(text@.subrange(pos as int, n as int))),
        decreases n - pos,
    {
        let ghost w = text@.subrange(pos as int, n as int);
        let (end, next) = next_line(&text, pos);
        proof {
            let ls = lines(w);
            assert(ls == seq![first_line(w)] + lines(after_first_line(w)));
            assert(ls[0] == first_line(w));
            assert(ls.drop_first() =~= lines(after_first_line(w)));
        }
        if range_starts_with(&text, pos, end, &marker) {
            let from = pos + marker.len();
            let ghost line = text@.subrange(pos as int, end as int);
            assert(line.skip(marker.len() as int) =~= text@.subrange(from as int, end as int));
            let semi = range_find_char(&text, from, end, ';');
            assert(text@.subrange(from as int, end as int).take(semi - from) =~= text@.subrange(
                from as int,
                semi as int,
            ));
            let (a, b) = trim_range(&text, from, semi);
            if a == b {
                return None;
            }
            let mut value = String::new();
            push_range(&mut value, &text, a, b);
            assert(value@ =~= prefix_value(line));
            return Some(value);
        }
        pos = next;
    }
    assert(lines(text@.subrange(pos as int, n as int)) =~= Seq::<Seq<char>>::empty());
    None
}

impl ExtractResult {
    /// The verdict of this result, as [`succeeded`] defines it.
    pub open spec fn success(&self) -> bool {
        succeeded(self.return_code as int, self.stdout@, self.stderr@)
    }

    /// Whether either stream carries a fatal indicator.
    pub fn has_error_indicators(&self) -> (r: bool)
        ensures
            r == (has_bad_indicator(self.stdout@) || has_bad_indicator(self.stderr@)),
    {
        let indicators = bad_pbo_indicator_list();
        let err = chars_of(self.stderr.as_str());
        assert(err@.subrange(0, err.len() as int) =~= err@);
        if range_contains_any(&err, 0, err.len(), &indicators) {
            return true;
        }
        let out = chars_of(self.stdout.as_str());
        assert(out@.subrange(0, out.len() as int) =~= out@);
        range_contains_any(&out, 0, out.len(), &indicators)
    }

    /// The fatal indicator that decides against this result: the first of
    /// the list that occurs in either stream. There is none exactly where
    /// neither stream carries an indicator.
    pub fn first_error_indicator(&self) -> (r: Option<&'static str>)
        ensures
            crate::config::option_str_view(r) == first_match(
                self.stdout@,
                self.stderr@,
                bad_pbo_indicators(),
            ),
            r is None <==> !has_bad_indicator(self.stdout@) && !has_bad_indicator(self.stderr@),
    {
        let indicators = bad_pbo_indicator_list();
        let ghost all = bad_pbo_indicators();
        let err = chars_of(self.stderr.as_str());
        let out = chars_of(self.stdout.as_str());
        assert(err@.subrange(0, err.len() as int) =~= err@);
        assert(out@.subrange(0, out.len() as int) =~= out@);
        proof {
            lemma_first_match_is_none(self.stdout@, self.stderr@, all);
            assert(all.skip(0) =~= all);
        }
        let mut i: usize = 0;
        while i < indicators.len()
            invariant
                i <= indicators.len(),
                all == bad_pbo_indicators(),
                crate::text::str_views(indicators@) == all,
                err@ == self.stderr@,
                out@ == self.stdout@,
                err@.subrange(0, err.len() as int) == err@,
                out@.subrange(0, out.len() as int) == out@,
                first_match(self.stdout@, self.stderr@, all) == first_match(
                    self.stdout@,
                    self.stderr@,
                    all.skip(i as int),
                ),
            decreases indicators.len() - i,
        {
            let needle = chars_of(indicators[i]);
            let ghost rest = all.skip(i as int);
            assert(rest[0] == all[i as int]);
            assert(rest.drop_first() =~= all.skip(i + 1));
            if range_contains(&err, 0, err.len(), &needle) || range_contains(
                &out,
                0,
                out.len(),
                &needle,
            ) {
                return Some(indicators[i]);
            }
            i += 1;
        }
        assert(all.skip(i as int) =~= Seq::<Seq<char>>::empty());
        None
    }

    /// Whether the tool ended with exit code zero, and the stream that
    /// matters then: standard output after exit code zero, standard error
    /// otherwise.
    pub fn summary(&self) -> (r: (bool, String))
        ensures
            r.0 == (self.return_code == 0),
            r.1@ == (if self.return_code == 0 {
                self.stdout@
            } else {
                self.stderr@
            }),
    {
        if self.return_code == 0 {
            (true, self.stdout.clone())
        } else {
            (false, self.stderr.clone())
        }
    }

    /// Whether either stream carries a known harmless warning. This is for
    /// diagnostics only and never changes the verdict.
    pub fn has_known_warnings(&self) -> (r: bool)
        ensures
            r == (has_known_warning(self.stdout@) || has_known_warning(self.stderr@)),
    {
        let warnings = known_warning_list();
        let err = chars_of(self.stderr.as_str());
        assert(err@.subrange(0, err.len() as int) =~= err@);
        if range_contains_any(&err, 0, err.len(), &warnings) {
            return true;
        }
        let out = chars_of(self.stdout.as_str());
        assert(out@.subrange(0, out.len() as int) =~= out@);
        range_contains_any(&out, 0, out.len(), &warnings)
    }

    /// Whether the run succeeded: exit code zero and no fatal indicator in
    /// either stream.
    pub fn is_success(&self) -> (r: bool)
        ensures
            r == self.success(),
            self.return_code != 0 ==> !r,
    {
        self.return_code == 0 && !self.has_error_indicators()
    }

    /// The files listed on standard output, in the order of their lines.
    pub fn get_file_list(&self) -> (files: Vec<String>)
        ensures
            views(files@) == file_list_of(self.stdout@),
    {
        let text = chars_of(self.stdout.as_str());
        let n = text.len();
        let markers = metadata_marker_list();
        let mut files: Vec<String> = Vec::new();
        let mut pos: usize = 0;
        assert(text@.subrange(0, n as int) =~= text@);
        assert(views(files@) =~= Seq::<Seq<char>>::empty());
        while pos < n
            invariant
                pos <= n,
                n == text.len(),
                crate::text::str_views(markers@) == metadata_markers(),
                file_list_of(text@) == views(files@) + entries_of(
                    lines(text@.subrange(pos as int, n as int)),
                ),
            decreases n - pos,
        {
            let ghost w = text@.subrange(pos as int, n as int);
            let ghost before = views(files@);
            let (end, next) = next_line(&text, pos);
            proof {
                let ls = lines(w);
                assert(ls == seq![first_line(w)] + lines(after_first_line(w)));
                assert(ls[0] == first_line(w));
                assert(ls.drop_first() =~= lines(after_first_line(w)));
            }
            match file_entry_of(&text, pos, end, &markers) {
                Some(name) => {
                    files.push(name);
                    assert(views(files@) =~= before.push(name@));
                    assert(before.push(name@) + entries_of(lines(after_first_line(w))) =~= before
                        + (seq![name@] + entries_of(lines(after_first_line(w)))));
                },
                None => {},
            }
            pos = next;
        }
        assert(lines(text@.subrange(pos as int, n as int)) =~= Seq::<Seq<char>>::empty());
        assert(views(files@) + Seq::<Seq<char>>::empty() =~= views(files@));
        files
    }

    /// The archive prefix announced on standard output.
    pub fn get_prefix(&self) -> (r: Option<String>)
        ensures
            option_view(r) == prefix_of(self.stdout@),
    {
        extract_prefix(self.stdout.as_str())
    }

    /// The message that describes a failed run; none for a successful one.
    pub fn get_error_message(&self) -> (r: Option<String>)
        ensures
            option_view(r) == error_message_of(
                self.return_code as int,
                self.stdout@,
                self.stderr@,
            ),
            r is None <==> self.success(),
    {
        if self.is_success() {
            return None;
        }
        let mut msg = String::new();
        let has_stderr = self.stderr.as_str().unicode_len() > 0;
        if has_stderr {
            msg.append(self.stderr.as_str());
        }
        if self.return_code != 0 {
            if has_stderr {
                msg.append("\n");
            }
            msg.append("Command failed with return code ");
            push_decimal_i64(&mut msg, self.return_code as i64);
        }
        if !has_stderr && self.return_code == 0 {
            msg = String::from_str("Unknown error occurred");
        }
        assert(Some(msg@) =~= error_message_of(
            self.return_code as int,
            self.stdout@,
            self.stderr@,
        ));
        Some(msg)
    }

    /// The text shown to the user for this result.
    pub fn to_string(&self) -> (s: String)
        ensures
            s@ == display_of(self.return_code as int, self.stdout@, self.stderr@),
    {
        let out = chars_of(self.stdout.as_str());
        let err = chars_of(self.stderr.as_str());
        assert(out@.subrange(0, out.len() as int) =~= out@);
        assert(err@.subrange(0, err.len() as int) =~= err@);
        let (oa, ob) = trim_range(&out, 0, out.len());
        let (ea, eb) = trim_range(&err, 0, err.len());
        let mut body = String::new();
        push_range(&mut body, &out, oa, ob);
        if oa < ob && ea < eb {
            body.append("\n");
        }
        push_range(&mut body, &err, ea, eb);
        assert(body@ =~= joined_streams(self.stdout@, self.stderr@));
        if self.is_success() {
            return body;
        }
        let mut s = String::from_str("Error (");
        push_decimal_i64(&mut s, self.return_code as i64);
        if oa == ob && ea == eb {
            s.append("): Unknown error");
        } else {
            s.append("): ");
            s.append(body.as_str());
        }
        s
    }
}

/// Checks on a finished run that a caller applies before using its output.
pub trait ResultProcessor {
    /// The listed files of a successful run.
    fn process_output(&self) -> Result<Vec<String>, PboError>;

    /// The archive prefix, if the run announced one.
    fn process_prefix(&self) -> Option<String>;
}

/// What [`ResultProcessor::process_output`] gives for a run: a failed run is
/// a `CommandFailed` with its error message, a successful one without any
/// file entry is `NoFiles`, and any other yields its file list.
pub open spec fn processed_output_of(code: int, stdout: Seq<char>, stderr: Seq<char>) -> Result<
    Seq<Seq<char>>,
    PboErrorView,
> {
    if !succeeded(code, stdout, stderr) {
        Err(
            PboErrorView::Extraction(
                ExtractErrorView::CommandFailed {
                    cmd: EXTRACT_COMMAND@,
                    reason: error_message_of(code, stdout, stderr).unwrap(),
                },
            ),
        )
    } else if file_list_of(stdout).len() == 0 {
        Err(PboErrorView::Extraction(ExtractErrorView::NoFiles))
    } else {
        Ok(file_list_of(stdout))
    }
}

/// The view of a list of files or an error.
pub open spec fn output_view(r: Result<Vec<String>, PboError>) -> Result<
    Seq<Seq<char>>,
    PboErrorView,
> {
    match r {
        Ok(files) => Ok(views(files@)),
        Err(e) => Err(e@),
    }
}

/// The error that reports the run `result` as failed: `CommandFailed` with
/// the name of the tool and the run's error message, or a generic reason
/// for a run that has none.
pub open spec fn failure_view(result: ExtractResult) -> PboErrorView {
    PboErrorView::Extraction(
        ExtractErrorView::CommandFailed {
            cmd: EXTRACT_COMMAND@,
            reason: match error_message_of(
                result.return_code as int,
                result.stdout@,
                result.stderr@,
            ) {
                Some(message) => message,
                None => "Unknown error"@,
            },
        },
    )
}

/// The error that reports a run of the tool as failed.
pub fn command_failed(result: &ExtractResult) -> (e: PboError)
    ensures
        e@ == failure_view(*result),
{
    let reason = match result.get_error_message() {
        Some(m) => m,
        None => String::from_str("Unknown error"),
    };
    PboError::Extraction(
        ExtractError::CommandFailed { cmd: String::from_str(EXTRACT_COMMAND), reason },
    )
}

impl ResultProcessor for ExtractResult {
    fn process_output(&self) -> (r: Result<Vec<String>, PboError>)
        ensures
            output_view(r) == processed_output_of(
                self.return_code as int,
                self.stdout@,
                self.stderr@,
            ),
    {
        if !self.is_success() {
            return Err(command_failed(self));
        }
        let files = self.get_file_list();
        if files.len() == 0 {
            return Err(PboError::Extraction(ExtractError::NoFiles));
        }
        Ok(files)
    }

    fn process_prefix(&self) -> (r: Option<String>)
        ensures
            option_view(r) == prefix_of(self.stdout@),
    {
        self.get_prefix()
    }
}

} // verus!
