//! Renaming extracted payload files.
//!
//! After an extraction, files with a binary-payload extension are renamed
//! to a readable extension, as the mapping table of the configuration says.
//! This module decides the new names and the order of the renames; moving
//! the files is the caller's part.

use vstd::prelude::*;
use vstd::string::StringExecFns;
use crate::config::{PboConfig, PboConfigView};
use crate::constants::{binary_extension_list, binary_extensions, DEFAULT_MAPPING_KEY};
use crate::error::{FileSystemError, FileSystemErrorView, PboError, PboErrorView};
use crate::paths::{
    extension,
    extension_of,
    file_name,
    file_name_of,
    file_name_start_of,
    file_stem,
    file_stem_of,
    parent_prefix,
};
use crate::result::option_view;
use crate::text::{
    chars_of,
    find_last_char,
    push_range,
    range_find_last_char,
    str_views,
    string_of_range,
    to_lowercase,
};

verus! {

// ---------------------------------------------------------------------------
// Model
// ---------------------------------------------------------------------------

/// The extension that a mapped value asks for: what follows its last dot,
/// or all of it where it has none. So `config.cpp`, `.cpp` and `cpp` all
/// ask for `cpp`.
pub open spec fn target_extension(value: Seq<char>) -> Seq<char> {
    let dot = find_last_char(value, '.');
    if dot >= 0 {
        value.skip(dot + 1)
    } else {
        value
    }
}

/// A file name is a binary payload where its extension is one of the
/// binary extensions.
pub open spec fn is_binary_payload(name: Seq<char>) -> bool {
    extension(name) is Some && binary_extensions().contains(extension(name)->0)
}

/// The value of the table that applies to a file looked up under `key`:
/// its own entry, or for a `.bin` file without one the fallback entry. Keys
/// that are no binary payload have none.
pub open spec fn mapped_value_for(c: PboConfigView, key: Seq<char>) -> Option<Seq<char>> {
    if !is_binary_payload(key) {
        None
    } else if c.mappings.contains_key(key) {
        Some(c.mappings[key])
    } else if extension(key) == Some("bin"@) && c.mappings.contains_key(DEFAULT_MAPPING_KEY@) {
        Some(c.mappings[DEFAULT_MAPPING_KEY@])
    } else {
        None
    }
}

/// The value of the table that applies to the file name `name`, looked up
/// under the configuration's key for it.
pub open spec fn mapped_value(c: PboConfigView, name: Seq<char>) -> Option<Seq<char>> {
    mapped_value_for(c, c.key_of(name))
}

/// The name that the file name `name`, looked up under `key`, is to be
/// given: its stem, unchanged, with the extension that the table asks for.
pub open spec fn renamed_for(c: PboConfigView, name: Seq<char>, key: Seq<char>) -> Option<
    Seq<char>,
> {
    match mapped_value_for(c, key) {
        Some(value) => Some(file_stem(name) + "."@ + target_extension(value)),
        None => None,
    }
}

/// The name that the file name `name` is to be given.
pub open spec fn renamed(c: PboConfigView, name: Seq<char>) -> Option<Seq<char>> {
    renamed_for(c, name, c.key_of(name))
}

/// The rename that the file at `path` is due, as its old and its new path.
/// The file stays in its directory.
pub open spec fn rename_of(c: PboConfigView, path: Seq<char>) -> Option<(Seq<char>, Seq<char>)> {
    match renamed(c, file_name(path)) {
        Some(name) => Some((path, parent_prefix(path) + name)),
        None => None,
    }
}

/// The renames that the files at `paths` are due, in the order of `paths`.
pub open spec fn planned_renames(c: PboConfigView, paths: Seq<Seq<char>>) -> Seq<
    (Seq<char>, Seq<char>),
>
    decreases paths.len(),
{
    if paths.len() == 0 {
        Seq::empty()
    } else {
        match rename_of(c, paths.last()) {
            Some(r) => planned_renames(c, paths.drop_last()).push(r),
            None => planned_renames(c, paths.drop_last()),
        }
    }
}

/// One file to be moved.
#[derive(Debug, Clone, PartialEq, Eq)]
pub struct Rename {
    /// Where the file is.
    pub from: String,
    /// Where it is to be.
    pub to: String,
}

/// The views of a vector of renames.
pub open spec fn rename_views(v: Seq<Rename>) -> Seq<(Seq<char>, Seq<char>)> {
    Seq::new(v.len(), |i: int| (v[i].from@, v[i].to@))
}

/// Why the file at a path cannot be moved, if it cannot: it is not there.
pub open spec fn move_source_error(source: crate::paths::PathProbe) -> Option<PboErrorView> {
    if !source.exists {
        Some(
            PboErrorView::FileSystem(
                FileSystemErrorView::Read {
                    path: source.path@,
                    reason: "Source file does not exist"@,
                },
            ),
        )
    } else {
        None
    }
}

/// What follows the outcome of the rename at `index` of a plan of `len`
/// renames: the first failure ends the walk with an error that names both
/// paths; after a success the next rename is due, or the walk is done.
pub open spec fn walk_after(
    plan: Seq<(Seq<char>, Seq<char>)>,
    index: int,
    failure: Option<Seq<char>>,
) -> Result<Option<int>, PboErrorView> {
    match failure {
        Some(reason) => Err(
            PboErrorView::FileSystem(
                FileSystemErrorView::Rename {
                    from: plan[index].0,
                    to: plan[index].1,
                    reason,
                },
            ),
        ),
        None => if index + 1 < plan.len() {
            Ok(Some(index + 1))
        } else {
            Ok(None)
        },
    }
}

// ---------------------------------------------------------------------------
// Laws
// ---------------------------------------------------------------------------

/// A file that is no binary payload is never renamed.
pub proof fn lemma_other_files_are_kept(c: PboConfigView, path: Seq<char>)
    requires
        !is_binary_payload(c.key_of(file_name(path))),
    ensures
        rename_of(c, path) is None,
{
}

/// A rename keeps the file in its directory and keeps its stem.
pub proof fn lemma_rename_keeps_directory_and_stem(c: PboConfigView, path: Seq<char>)
    requires
        rename_of(c, path) is Some,
    ensures
        ({
            let planned = rename_of(c, path).unwrap();
            let to = planned.1;
            &&& planned.0 == path
            &&& parent_prefix(path).is_prefix_of(to)
            &&& (parent_prefix(path) + file_stem(file_name(path))).is_prefix_of(to)
        }),
{
    let name = renamed(c, file_name(path)).unwrap();
    let value = mapped_value(c, file_name(path)).unwrap();
    let planned = rename_of(c, path).unwrap();
    let to = planned.1;
    assert(to == parent_prefix(path) + name);
    assert(to.subrange(0, parent_prefix(path).len() as int) =~= parent_prefix(path));
    let head = parent_prefix(path) + file_stem(file_name(path));
    assert(to =~= head + ("."@ + target_extension(value)));
    assert(to.subrange(0, head.len() as int) =~= head);
}

// ---------------------------------------------------------------------------
// Executable functions
// ---------------------------------------------------------------------------

/// Whether the file name `name` has one of the binary extensions.
#[verifier::loop_isolation(false)]
fn name_is_binary_payload(name: &str) -> (r: bool)
    ensures
        r == is_binary_payload(name@),
{
    match extension_of(name) {
        Some(ext) => {
            let known = binary_extension_list();
            let ghost ks = str_views(known@);
            let mut i: usize = 0;
            while i < known.len()
                invariant
                    i <= known.len(),
                    forall|j: int| 0 <= j < i ==> ks[j] != ext@,
                decreases known.len() - i,
            {
                let candidate = String::from_str(known[i]);
                if candidate == ext {
                    assert(ks[i as int] == ext@);
                    return true;
                }
                i += 1;
            }
            false
        },
        None => false,
    }
}

/// The extension that `value` asks for.
fn target_extension_of(value: &str) -> (ext: String)
    ensures
        ext@ == target_extension(value@),
{
    let t = chars_of(value);
    assert(t@.subrange(0, t.len() as int) =~= t@);
    match range_find_last_char(&t, 0, t.len(), '.') {
        Some(dot) => {
            assert(t@.skip(dot + 1) =~= t@.subrange(dot + 1, t.len() as int));
            string_of_range(&t, dot + 1, t.len())
        },
        None => string_of_range(&t, 0, t.len()),
    }
}

/// Decides on the name of one extracted file, given `key`, the key under
/// which `name` is looked up: see [`renamed_for`].
pub fn renamed_with_key(config: &PboConfig, name: &str, key: &str) -> (r: Option<String>)
    ensures
        option_view(r) == renamed_for(config@, name@, key@),
{
    if !name_is_binary_payload(key) {
        return None;
    }
    let value = match config.get_mapping(key) {
        Some(v) => v,
        None => {
            let generic = match extension_of(key) {
                Some(ext) => ext == String::from_str("bin"),
                None => false,
            };
            if !generic {
                return None;
            }
            match config.get_mapping(DEFAULT_MAPPING_KEY) {
                Some(v) => v,
                None => {
                    return None;
                },
            }
        },
    };
    let mut out = file_stem_of(name);
    out.push('.');
    let ext = target_extension_of(value);
    out.append(ext.as_str());
    proof {
        reveal_strlit(".");
        assert("."@ =~= seq!['.']);
        assert(out@ =~= file_stem(name@) + "."@ + target_extension(value@));
    }
    Some(out)
}

/// The name that the file name `name` is to be given, if it is to be
/// renamed.
pub fn new_name_of(config: &PboConfig, name: &str) -> (r: Option<String>)
    ensures
        option_view(r) == renamed(config@, name@),
{
    if config.is_case_sensitive() {
        renamed_with_key(config, name, name)
    } else {
        let key = to_lowercase(name);
        renamed_with_key(config, name, key.as_str())
    }
}

/// The new file name of the file at `path`, if it is to be renamed.
pub fn detect_bin_type(config: &PboConfig, path: &str) -> (r: Option<String>)
    ensures
        option_view(r) == renamed(config@, file_name(path@)),
{
    let name = file_name_of(path);
    new_name_of(config, name.as_str())
}

/// The rename that the file at `path` is due.
pub fn plan_rename(config: &PboConfig, path: &str) -> (r: Option<Rename>)
    ensures
        match r {
            Some(step) => rename_of(config@, path@) == Some((step.from@, step.to@)),
            None => rename_of(config@, path@) is None,
        },
{
    match detect_bin_type(config, path) {
        Some(name) => {
            let t = chars_of(path);
            let start = file_name_start_of(&t);
            let mut to = String::new();
            push_range(&mut to, &t, 0, start);
            to.append(name.as_str());
            assert(t@.subrange(0, start as int) =~= parent_prefix(path@));
            assert(to@ =~= parent_prefix(path@) + name@);
            Some(Rename { from: String::from_str(path), to })
        },
        None => None,
    }
}

/// The renames that the extracted files at `paths` are due, in the order of
/// `paths`.
pub fn plan_renames(config: &PboConfig, paths: &Vec<String>) -> (plan: Vec<Rename>)
    ensures
        rename_views(plan@) == planned_renames(config@, crate::text::views(paths@)),
{
    let ghost ps = crate::text::views(paths@);
    let mut plan: Vec<Rename> = Vec::new();
    let mut i: usize = 0;
    assert(ps.take(0) =~= Seq::<Seq<char>>::empty());
    assert(rename_views(plan@) =~= Seq::<(Seq<char>, Seq<char>)>::empty());
    while i < paths.len()
        invariant
            i <= paths.len(),
            ps == crate::text::views(paths@),
            rename_views(plan@) == planned_renames(config@, ps.take(i as int)),
        decreases paths.len() - i,
    {
        let ghost before = rename_views(plan@);
        assert(ps.take(i + 1).drop_last() =~= ps.take(i as int));
        assert(ps.take(i + 1).last() == paths[i as int]@);
        match plan_rename(config, paths[i].as_str()) {
            Some(step) => {
                plan.push(step);
                assert(rename_views(plan@) =~= before.push((step.from@, step.to@)));
            },
            None => {},
        }
        i += 1;
    }
    assert(ps.take(paths.len() as int) =~= ps);
    plan
}

/// Checks that the file to be moved is there.
pub fn check_move_source(source: &crate::paths::PathProbe) -> (r: Result<(), PboError>)
    ensures
        crate::paths::unit_result_view(r) == move_source_error(*source),
{
    if !source.exists {
        return Err(
            PboError::FileSystem(
                FileSystemError::Read {
                    path: source.path.clone(),
                    reason: String::from_str("Source file does not exist"),
                },
            ),
        );
    }
    Ok(())
}

/// What follows the outcome of the rename at `index` of `plan`, where
/// `failure` holds the reason if the move failed: see [`walk_after`].
pub fn after_rename(plan: &Vec<Rename>, index: usize, failure: Option<String>) -> (r: Result<
    Option<usize>,
    PboError,
>)
    requires
        index < plan.len(),
    ensures
        (match r {
            Ok(Some(next)) => Ok::<Option<int>, PboErrorView>(Some(next as int)),
            Ok(None) => Ok(None),
            Err(e) => Err(e@),
        }) == walk_after(rename_views(plan@), index as int, option_view(failure)),
{
    match failure {
        Some(reason) => Err(
            PboError::FileSystem(
                FileSystemError::Rename {
                    from: plan[index].from.clone(),
                    to: plan[index].to.clone(),
                    reason,
                },
            ),
        ),
        None => if index + 1 < plan.len() {
            Ok(Some(index + 1))
        } else {
            Ok(None)
        },
    }
}

} // verus!
