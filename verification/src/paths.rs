//! Rules on paths, read as text.
//!
//! The library never touches the file system. A path is a string; what the
//! caller found out about it on disk travels beside it in a [`PathProbe`].
//! Both `/` and `\` separate components, and a colon is accepted only as the
//! mark of a drive letter, since the tool this library drives takes Windows
//! paths.

use vstd::prelude::*;
use vstd::string::StringExecFns;
use vstd::utf8::encode_utf8;
use crate::error::{FileSystemError, FileSystemErrorView, PboError, PboErrorView};
use crate::text::{
    chars_of,
    contains,
    find_last_char,
    has_char_of,
    range_contains,
    range_find_last_char,
    range_has_char_of,
    range_starts_with,
    starts_with,
    string_of_range,
};

verus! {

// ---------------------------------------------------------------------------
// Model
// ---------------------------------------------------------------------------

/// A character that separates the components of a path.
pub open spec fn is_separator(c: char) -> bool {
    c == '/' || c == '\\'
}

/// Where the last component of `path` begins: after its last separator.
pub open spec fn file_name_start(path: Seq<char>) -> int
    decreases path.len(),
{
    if path.len() == 0 || is_separator(path.last()) {
        path.len() as int
    } else {
        file_name_start(path.drop_last())
    }
}

/// The last component of `path`; empty where the path ends in a separator.
pub open spec fn file_name(path: Seq<char>) -> Seq<char> {
    path.skip(file_name_start(path))
}

/// The extension of `path`: what follows the last dot of its file name,
/// where that dot is not the first character of the name.
pub open spec fn extension(path: Seq<char>) -> Option<Seq<char>> {
    let name = file_name(path);
    let dot = find_last_char(name, '.');
    if dot > 0 {
        Some(name.skip(dot + 1))
    } else {
        None
    }
}

/// The file name of `path` without its extension and the dot before it.
pub open spec fn file_stem(path: Seq<char>) -> Seq<char> {
    let name = file_name(path);
    let dot = find_last_char(name, '.');
    if dot > 0 {
        name.take(dot)
    } else {
        name
    }
}

/// The directory part of `path`: everything up to and including its last
/// separator.
pub open spec fn parent_prefix(path: Seq<char>) -> Seq<char> {
    path.take(file_name_start(path))
}

/// Characters that no filter and no destination path may hold.
pub open spec fn shell_characters() -> Seq<char> {
    seq!['<', '>', '|', '"', '\'']
}

/// Characters that no path handed to the file system may hold.
pub open spec fn invalid_path_characters() -> Seq<char> {
    seq!['<', '>', '|', '"', '*', '?']
}

/// Characters that make a path suspicious.
pub open spec fn suspicious_characters() -> Seq<char> {
    seq!['<', '>', '|', '*', '?', '"', '`', '$', '&', '{', '}', ';', '#', '=']
}

/// A control character: U+0000 to U+001F and U+007F to U+009F.
pub open spec fn is_control(c: char) -> bool {
    let u = c as u32;
    u <= 0x1F || 0x7F <= u <= 0x9F
}

/// `s` holds a control character.
pub open spec fn has_control(s: Seq<char>) -> bool {
    exists|i: int| 0 <= i < s.len() && is_control(#[trigger] s[i])
}

/// Every colon of `s` stands at position 1, where it marks a drive letter.
pub open spec fn colons_mark_drive(s: Seq<char>) -> bool {
    forall|i: int| 0 <= i < s.len() && #[trigger] s[i] == ':' ==> i == 1
}

/// A path is safe where it has no `..` and no `//`, no suspicious and no
/// control character, no colon but that of a drive letter, and does not
/// start with two backslashes.
pub open spec fn safe_path(path: Seq<char>) -> bool {
    &&& !contains(path, ".."@)
    &&& !contains(path, "//"@)
    &&& !has_char_of(path, suspicious_characters())
    &&& colons_mark_drive(path)
    &&& !starts_with(path, "\\\\"@)
    &&& !has_control(path)
}

/// The longest path, in bytes of UTF-8, that is accepted.
pub const MAX_PATH_BYTES: usize = 260;

/// Why a path fails validation, if it does: an invalid character, then its
/// length, then a `..`, in this order.
pub open spec fn path_safety_error(path: Seq<char>) -> Option<PboErrorView> {
    if has_char_of(path, invalid_path_characters()) {
        Some(
            PboErrorView::FileSystem(
                FileSystemErrorView::PathValidation(
                    "Path contains invalid characters: "@ + path,
                ),
            ),
        )
    } else if encode_utf8(path).len() > MAX_PATH_BYTES {
        Some(
            PboErrorView::FileSystem(
                FileSystemErrorView::PathValidation(
                    "Path exceeds maximum length (260): "@ + path,
                ),
            ),
        )
    } else if contains(path, ".."@) {
        Some(
            PboErrorView::FileSystem(
                FileSystemErrorView::PathValidation(
                    "Path contains parent directory traversal: "@ + path,
                ),
            ),
        )
    } else {
        None
    }
}

/// The code of `c`, and of its capital where `c` is a small ASCII letter.
pub open spec fn ascii_upper_code(c: char) -> u32 {
    if 'a' <= c <= 'z' {
        (c as u32 - 32) as u32
    } else {
        c as u32
    }
}

/// `a` and `b` are equal but for the case of their ASCII letters.
pub open spec fn eq_ignore_ascii_case(a: Seq<char>, b: Seq<char>) -> bool {
    a.len() == b.len() && forall|i: int|
        0 <= i < a.len() ==> ascii_upper_code(#[trigger] a[i]) == ascii_upper_code(b[i])
}

/// The file names that Windows reserves for devices.
pub open spec fn reserved_names() -> Seq<Seq<char>> {
    seq![
        "CON"@,
        "PRN"@,
        "AUX"@,
        "NUL"@,
        "COM1"@,
        "COM2"@,
        "COM3"@,
        "COM4"@,
        "COM5"@,
        "COM6"@,
        "COM7"@,
        "COM8"@,
        "COM9"@,
        "LPT1"@,
        "LPT2"@,
        "LPT3"@,
        "LPT4"@,
        "LPT5"@,
        "LPT6"@,
        "LPT7"@,
        "LPT8"@,
        "LPT9"@,
    ]
}

/// `name` is a reserved device name, in any case.
pub open spec fn is_reserved_name(name: Seq<char>) -> bool {
    exists|i: int|
        0 <= i < reserved_names().len() && eq_ignore_ascii_case(name, #[trigger] reserved_names()[i])
}

/// A file name is acceptable where it is no reserved device name and
/// neither begins nor ends with a dot or a space. A path without a file
/// name has nothing to object to.
pub open spec fn acceptable_file_name(name: Seq<char>) -> bool {
    name.len() == 0 || !(is_reserved_name(name) || name[0] == '.' || name.last() == '.' || name[0]
        == ' ' || name.last() == ' ')
}

/// Why the file name of a path is refused, if it is.
pub open spec fn filename_error(path: Seq<char>) -> Option<PboErrorView> {
    if acceptable_file_name(file_name(path)) {
        None
    } else {
        Some(PboErrorView::FileSystem(FileSystemErrorView::InvalidFileName(path)))
    }
}

/// What is to be done so that a directory exists at a path.
#[derive(Debug, Clone, Copy, PartialEq, Eq, Structural)]
pub enum DirectoryStep {
    /// The directory is there.
    Keep,
    /// The directory and its missing parents are to be created.
    Create,
}

/// What is to be done so that nothing exists at a path.
#[derive(Debug, Clone, Copy, PartialEq, Eq, Structural)]
pub enum RemovalStep {
    /// Nothing is there.
    Nothing,
    /// The file is to be removed.
    RemoveFile,
    /// The directory is to be removed with all it holds.
    RemoveDir,
}

/// The view of a unit result.
pub open spec fn unit_result_view(r: Result<(), PboError>) -> Option<PboErrorView> {
    match r {
        Ok(_) => None,
        Err(e) => Some(e@),
    }
}

// ---------------------------------------------------------------------------
// PathProbe
// ---------------------------------------------------------------------------

/// A path together with what was found on disk when it was looked at.
#[derive(Debug, Clone, PartialEq, Eq)]
pub struct PathProbe {
    /// The path, as text.
    pub path: String,
    /// Whether anything exists at the path.
    pub exists: bool,
    /// Whether a directory exists at the path.
    pub is_dir: bool,
    /// Whether the path's parent directory exists; `true` where the path has
    /// no parent.
    pub parent_exists: bool,
    /// The size in bytes of the file at the path; zero where there is none.
    pub size: u64,
}

impl PathProbe {
    /// What is to be done so that a directory exists at the path; an error
    /// where something else is in its place.
    pub fn ensure_directory(&self) -> (r: Result<DirectoryStep, PboError>)
        ensures
            match r {
                Ok(step) => (self.is_dir || !self.exists) && step == (if self.exists {
                    DirectoryStep::Keep
                } else {
                    DirectoryStep::Create
                }),
                Err(e) => self.exists && !self.is_dir && e@ == PboErrorView::FileSystem(
                    FileSystemErrorView::CreateDir {
                        path: self.path@,
                        reason: "Path exists but is not a directory"@,
                    },
                ),
            },
    {
        if !self.exists {
            Ok(DirectoryStep::Create)
        } else if !self.is_dir {
            Err(
                PboError::FileSystem(
                    FileSystemError::CreateDir {
                        path: self.path.clone(),
                        reason: String::from_str("Path exists but is not a directory"),
                    },
                ),
            )
        } else {
            Ok(DirectoryStep::Keep)
        }
    }

    /// What is to be done so that nothing exists at the path.
    pub fn remove_if_exists(&self) -> (step: RemovalStep)
        ensures
            step == (if !self.exists {
                RemovalStep::Nothing
            } else if self.is_dir {
                RemovalStep::RemoveDir
            } else {
                RemovalStep::RemoveFile
            }),
    {
        if !self.exists {
            RemovalStep::Nothing
        } else if self.is_dir {
            RemovalStep::RemoveDir
        } else {
            RemovalStep::RemoveFile
        }
    }

    /// Whether the parent directory is to be created, once the path itself
    /// has passed [`validate_path_safety`].
    pub fn ensure_parent_exists(&self) -> (r: Result<bool, PboError>)
        ensures
            match r {
                Ok(create) => path_safety_error(self.path@) is None && create
                    == !self.parent_exists,
                Err(e) => path_safety_error(self.path@) == Some(e@),
            },
    {
        match validate_path_safety(self.path.as_str()) {
            Err(e) => Err(e),
            Ok(_) => Ok(!self.parent_exists),
        }
    }

    /// A probe of a path at which nothing was found, in a directory that
    /// exists.
    pub fn missing(path: String) -> (p: PathProbe)
        ensures
            p.path == path,
            !p.exists,
            !p.is_dir,
            p.parent_exists,
            p.size == 0,
    {
        PathProbe { path, exists: false, is_dir: false, parent_exists: true, size: 0 }
    }

    /// A probe of a path at which a file of `size` bytes was found.
    pub fn file(path: String, size: u64) -> (p: PathProbe)
        ensures
            p.path == path,
            p.exists,
            !p.is_dir,
            p.parent_exists,
            p.size == size,
    {
        PathProbe { path, exists: true, is_dir: false, parent_exists: true, size }
    }

    /// A probe of a path at which a directory was found.
    pub fn directory(path: String) -> (p: PathProbe)
        ensures
            p.path == path,
            p.exists,
            p.is_dir,
            p.parent_exists,
            p.size == 0,
    {
        PathProbe { path, exists: true, is_dir: true, parent_exists: true, size: 0 }
    }
}

// ---------------------------------------------------------------------------
// Executable functions
// ---------------------------------------------------------------------------

fn shell_character_list() -> (v: Vec<char>)
    ensures
        v@ == shell_characters(),
{
    let mut v: Vec<char> = Vec::new();
    v.push('<');
    v.push('>');
    v.push('|');
    v.push('"');
    v.push('\'');
    assert(v@ =~= shell_characters());
    v
}

fn invalid_path_character_list() -> (v: Vec<char>)
    ensures
        v@ == invalid_path_characters(),
{
    let mut v: Vec<char> = Vec::new();
    v.push('<');
    v.push('>');
    v.push('|');
    v.push('"');
    v.push('*');
    v.push('?');
    assert(v@ =~= invalid_path_characters());
    v
}

fn suspicious_character_list() -> (v: Vec<char>)
    ensures
        v@ == suspicious_characters(),
{
    let mut v: Vec<char> = Vec::new();
    v.push('<');
    v.push('>');
    v.push('|');
    v.push('*');
    v.push('?');
    v.push('"');
    v.push('`');
    v.push('$');
    v.push('&');
    v.push('{');
    v.push('}');
    v.push(';');
    v.push('#');
    v.push('=');
    assert(v@ =~= suspicious_characters());
    v
}

/// Whether `text` holds one of the characters `< > | " '`.
pub fn has_shell_character(text: &str) -> (r: bool)
    ensures
        r == has_char_of(text@, shell_characters()),
{
    let t = chars_of(text);
    let set = shell_character_list();
    assert(t@.subrange(0, t.len() as int) =~= t@);
    range_has_char_of(&t, 0, t.len(), &set)
}

/// Where the file name begins in `text`.
pub fn file_name_start_of(text: &Vec<char>) -> (r: usize)
    ensures
        r <= text.len(),
        r == file_name_start(text@),
{
    let mut b: usize = text.len();
    assert(text@.subrange(0, b as int) =~= text@);
    while b > 0 && text[b - 1] != '/' && text[b - 1] != '\\'
        invariant
            b <= text.len(),
            file_name_start(text@) == file_name_start(text@.subrange(0, b as int)),
        decreases b,
    {
        assert(text@.subrange(0, b as int).drop_last() =~= text@.subrange(0, b - 1));
        b -= 1;
    }
    b
}

/// The last component of `path`.
pub fn file_name_of(path: &str) -> (name: String)
    ensures
        name@ == file_name(path@),
{
    let t = chars_of(path);
    let start = file_name_start_of(&t);
    string_of_range(&t, start, t.len())
}

/// The extension of `path`, if it has one.
pub fn extension_of(path: &str) -> (ext: Option<String>)
    ensures
        crate::result::option_view(ext) == extension(path@),
{
    let t = chars_of(path);
    let start = file_name_start_of(&t);
    match range_find_last_char(&t, start, t.len(), '.') {
        Some(dot) => {
            if dot > start {
                let ghost name = t@.subrange(start as int, t.len() as int);
                let ext = string_of_range(&t, dot + 1, t.len());
                assert(name.skip(dot - start + 1) =~= t@.subrange(dot + 1, t.len() as int));
                Some(ext)
            } else {
                None
            }
        },
        None => None,
    }
}

/// The file name of `path` without its extension.
pub fn file_stem_of(path: &str) -> (stem: String)
    ensures
        stem@ == file_stem(path@),
{
    let t = chars_of(path);
    let start = file_name_start_of(&t);
    let ghost name = t@.subrange(start as int, t.len() as int);
    match range_find_last_char(&t, start, t.len(), '.') {
        Some(dot) => {
            if dot > start {
                assert(name.take(dot - start) =~= t@.subrange(start as int, dot as int));
                string_of_range(&t, start, dot)
            } else {
                string_of_range(&t, start, t.len())
            }
        },
        None => string_of_range(&t, start, t.len()),
    }
}

fn char_is_control(c: char) -> (r: bool)
    ensures
        r == is_control(c),
{
    let u: u32 = c as u32;
    u <= 0x1F || (0x7F <= u && u <= 0x9F)
}

/// Whether `path` is safe to hand on: see [`safe_path`].
#[verifier::loop_isolation(false)]
pub fn is_safe_path(path: &str) -> (r: bool)
    ensures
        r == safe_path(path@),
{
    let t = chars_of(path);
    let n = t.len();
    assert(t@.subrange(0, n as int) =~= t@);
    let dots = chars_of("..");
    if range_contains(&t, 0, n, &dots) {
        return false;
    }
    let slashes = chars_of("//");
    if range_contains(&t, 0, n, &slashes) {
        return false;
    }
    let suspicious = suspicious_character_list();
    if range_has_char_of(&t, 0, n, &suspicious) {
        return false;
    }
    let unc = chars_of("\\\\");
    if range_starts_with(&t, 0, n, &unc) {
        return false;
    }
    let mut i: usize = 0;
    while i < n
        invariant
            i <= n,
            n == t.len(),
            forall|j: int| 0 <= j < i && #[trigger] t[j] == ':' ==> j == 1,
            forall|j: int| 0 <= j < i ==> !is_control(#[trigger] t[j]),
        decreases n - i,
    {
        let c = t[i];
        if c == ':' && i != 1 {
            return false;
        }
        if char_is_control(c) {
            return false;
        }
        i += 1;
    }
    true
}

/// Checks that `path` may be handed to the file system: it holds none of
/// `< > | " * ?`, is at most 260 bytes long and has no `..`.
pub fn validate_path_safety(path: &str) -> (r: Result<(), PboError>)
    ensures
        unit_result_view(r) == path_safety_error(path@),
{
    let t = chars_of(path);
    let n = t.len();
    assert(t@.subrange(0, n as int) =~= t@);
    let invalid = invalid_path_character_list();
    if range_has_char_of(&t, 0, n, &invalid) {
        let mut msg = String::from_str("Path contains invalid characters: ");
        msg.append(path);
        return Err(PboError::FileSystem(FileSystemError::PathValidation(msg)));
    }
    if path.as_bytes().len() > MAX_PATH_BYTES {
        let mut msg = String::from_str("Path exceeds maximum length (260): ");
        msg.append(path);
        return Err(PboError::FileSystem(FileSystemError::PathValidation(msg)));
    }
    let dots = chars_of("..");
    if range_contains(&t, 0, n, &dots) {
        let mut msg = String::from_str("Path contains parent directory traversal: ");
        msg.append(path);
        return Err(PboError::FileSystem(FileSystemError::PathValidation(msg)));
    }
    Ok(())
}

fn upper_code(c: char) -> (r: u32)
    ensures
        r == ascii_upper_code(c),
{
    if 'a' <= c && c <= 'z' {
        c as u32 - 32
    } else {
        c as u32
    }
}

fn range_eq_ignore_ascii_case(text: &Vec<char>, from: usize, name: &Vec<char>) -> (r: bool)
    requires
        from <= text.len(),
    ensures
        r == eq_ignore_ascii_case(text@.subrange(from as int, text.len() as int), name@),
{
    let ghost w = text@.subrange(from as int, text.len() as int);
    if text.len() - from != name.len() {
        return false;
    }
    let mut i: usize = 0;
    while i < name.len()
        invariant
            i <= name.len(),
            from + name.len() == text.len(),
            w == text@.subrange(from as int, text.len() as int),
            forall|j: int| 0 <= j < i ==> ascii_upper_code(#[trigger] w[j]) == ascii_upper_code(
                name[j],
            ),
        decreases name.len() - i,
    {
        if upper_code(text[from + i]) != upper_code(name[i]) {
            assert(w[i as int] == text[from + i]);
            return false;
        }
        i += 1;
    }
    true
}

fn reserved_name_list() -> (v: Vec<&'static str>)
    ensures
        crate::text::str_views(v@) == reserved_names(),
{
    let mut v: Vec<&'static str> = Vec::new();
    v.push("CON");
    v.push("PRN");
    v.push("AUX");
    v.push("NUL");
    v.push("COM1");
    v.push("COM2");
    v.push("COM3");
    v.push("COM4");
    v.push("COM5");
    v.push("COM6");
    v.push("COM7");
    v.push("COM8");
    v.push("COM9");
    v.push("LPT1");
    v.push("LPT2");
    v.push("LPT3");
    v.push("LPT4");
    v.push("LPT5");
    v.push("LPT6");
    v.push("LPT7");
    v.push("LPT8");
    v.push("LPT9");
    assert(crate::text::str_views(v@) =~= reserved_names());
    v
}

/// Checks the file name of `path`: see [`acceptable_file_name`].
#[verifier::loop_isolation(false)]
pub fn validate_filename(path: &str) -> (r: Result<(), PboError>)
    ensures
        unit_result_view(r) == filename_error(path@),
{
    let t = chars_of(path);
    let start = file_name_start_of(&t);
    let n = t.len();
    let ghost name = file_name(path@);
    assert(name =~= t@.subrange(start as int, n as int));
    if start == n {
        return Ok(());
    }
    let first = t[start];
    let last = t[n - 1];
    assert(name[0] == first && name.last() == last);
    if first == '.' || last == '.' || first == ' ' || last == ' ' {
        return Err(PboError::FileSystem(FileSystemError::InvalidFileName(String::from_str(path))));
    }
    let reserved = reserved_name_list();
    let ghost rs = crate::text::str_views(reserved@);
    let mut i: usize = 0;
    while i < reserved.len()
        invariant
            i <= reserved.len(),
            forall|j: int| 0 <= j < i ==> !eq_ignore_ascii_case(name, #[trigger] rs[j]),
        decreases reserved.len() - i,
    {
        let candidate = chars_of(reserved[i]);
        if range_eq_ignore_ascii_case(&t, start, &candidate) {
            assert(eq_ignore_ascii_case(name, rs[i as int]));
            return Err(
                PboError::FileSystem(FileSystemError::InvalidFileName(String::from_str(path))),
            );
        }
        i += 1;
    }
    assert(!is_reserved_name(name));
    Ok(())
}

/// The checks on a path that need no file system.
pub trait FileOperation {
    /// The path as text.
    spec fn path_text(&self) -> Seq<char>;

    /// Checks that the path may be handed to the file system.
    fn validate_path(&self) -> (r: Result<(), PboError>)
        ensures
            unit_result_view(r) == path_safety_error(self.path_text()),
    ;

    /// Whether the path is safe to hand on.
    fn is_safe_path(&self) -> (r: bool)
        ensures
            r == safe_path(self.path_text()),
    ;

    /// Checks the file name of the path.
    fn validate_filename(&self) -> (r: Result<(), PboError>)
        ensures
            unit_result_view(r) == filename_error(self.path_text()),
    ;

    /// Checks that the path holds no invalid character, is not too long
    /// and has no `..`.
    fn validate_path_safety(&self) -> (r: Result<(), PboError>)
        ensures
            unit_result_view(r) == path_safety_error(self.path_text()),
    ;
}

impl FileOperation for String {
    open spec fn path_text(&self) -> Seq<char> {
        self@
    }

    fn validate_path(&self) -> (r: Result<(), PboError>) {
        validate_path_safety(self.as_str())
    }

    fn is_safe_path(&self) -> (r: bool) {
        is_safe_path(self.as_str())
    }

    fn validate_filename(&self) -> (r: Result<(), PboError>) {
        validate_filename(self.as_str())
    }

    fn validate_path_safety(&self) -> (r: Result<(), PboError>) {
        validate_path_safety(self.as_str())
    }
}

impl FileOperation for PathProbe {
    open spec fn path_text(&self) -> Seq<char> {
        self.path@
    }

    fn validate_path(&self) -> (r: Result<(), PboError>) {
        validate_path_safety(self.path.as_str())
    }

    fn is_safe_path(&self) -> (r: bool) {
        is_safe_path(self.path.as_str())
    }

    fn validate_filename(&self) -> (r: Result<(), PboError>) {
        validate_filename(self.path.as_str())
    }

    fn validate_path_safety(&self) -> (r: Result<(), PboError>) {
        validate_path_safety(self.path.as_str())
    }
}

} // verus!
