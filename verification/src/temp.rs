//! Scratch directories and the registry that tracks them.
//!
//! A manager hands out uniquely named directories under one root and keeps
//! a registry of those it has handed out and not yet taken back. Creating
//! and removing directories on disk is the caller's part: a directory is
//! created right after [`TempFileManager::create_temp_dir`] and removed
//! right before [`TempFileManager::release`].

use vstd::prelude::*;
use vstd::string::StringExecFns;
use crate::paths::is_separator;
use crate::text::{
    chars_of,
    lemma_filter_no_duplicates,
    lemma_filter_push,
    views,
};

verus! {

// ---------------------------------------------------------------------------
// Model
// ---------------------------------------------------------------------------

/// The age in seconds after which a scratch directory expires unless the
/// manager is told otherwise.
pub const DEFAULT_MAX_AGE_SECONDS: u64 = 3600;

/// The name of the directory under the system's temporary directory that
/// holds all scratch directories.
pub const TEMP_ROOT_NAME: &'static str = "pbo_tools";

/// A lowercase hexadecimal digit.
pub open spec fn is_lower_hex(c: char) -> bool {
    ('0' <= c <= '9') || ('a' <= c <= 'f')
}

/// A UUID in its simple form: 32 lowercase hexadecimal digits.
pub open spec fn is_simple_uuid(token: Seq<char>) -> bool {
    token.len() == 32 && forall|i: int| 0 <= i < token.len() ==> is_lower_hex(#[trigger] token[i])
}

/// `rel` appended to the path `base`: a separator is put between them
/// where `base` does not end in one, and a `rel` that starts with a
/// separator stands for itself.
pub open spec fn joined(base: Seq<char>, rel: Seq<char>) -> Seq<char> {
    if rel.len() > 0 && is_separator(rel[0]) {
        rel
    } else if base.len() == 0 || is_separator(base.last()) {
        base + rel
    } else {
        base + "/"@ + rel
    }
}

/// The name of the scratch directory made from `token`.
pub open spec fn scratch_name(token: Seq<char>) -> Seq<char> {
    ".tmp"@ + token
}

/// The test that keeps every path but `path`.
pub open spec fn other_than(path: Seq<char>) -> spec_fn(Seq<char>) -> bool {
    |p: Seq<char>| p != path
}

/// The registry after `path` is entered.
pub open spec fn with_path(active: Seq<Seq<char>>, path: Seq<char>) -> Seq<Seq<char>> {
    if active.contains(path) {
        active
    } else {
        active.push(path)
    }
}

/// The registry after `path` is taken out.
pub open spec fn without_path(active: Seq<Seq<char>>, path: Seq<char>) -> Seq<Seq<char>> {
    active.filter(other_than(path))
}

/// The mathematical value of a manager.
pub struct TempFileManagerView {
    /// The directory that holds the scratch directories.
    pub temp_base: Seq<char>,
    /// The scratch directories handed out and not yet taken back, oldest
    /// first.
    pub active: Seq<Seq<char>>,
    /// The age in seconds after which a scratch directory expires.
    pub max_age: u64,
}

// ---------------------------------------------------------------------------
// Laws
// ---------------------------------------------------------------------------

/// Entering a path keeps the registry free of duplicates and makes the path
/// a member.
pub proof fn lemma_with_path(active: Seq<Seq<char>>, path: Seq<char>)
    requires
        active.no_duplicates(),
    ensures
        with_path(active, path).no_duplicates(),
        with_path(active, path).contains(path),
        forall|p: Seq<char>| active.contains(p) ==> with_path(active, path).contains(p),
{
    if !active.contains(path) {
        let next = active.push(path);
        assert(next[active.len() as int] == path);
        assert forall|p: Seq<char>| active.contains(p) implies next.contains(p) by {
            let j = choose|j: int| 0 <= j < active.len() && active[j] == p;
            assert(next[j] == p);
        }
    }
}

/// Taking a path out keeps the registry free of duplicates, makes the path
/// no member and takes out nothing else.
pub proof fn lemma_without_path(active: Seq<Seq<char>>, path: Seq<char>)
    requires
        active.no_duplicates(),
    ensures
        without_path(active, path).no_duplicates(),
        !without_path(active, path).contains(path),
        forall|p: Seq<char>|
            active.contains(p) && p != path ==> without_path(active, path).contains(p),
{
    lemma_filter_no_duplicates(active, other_than(path));
    let kept = without_path(active, path);
    if kept.contains(path) {
        let i = choose|i: int| 0 <= i < kept.len() && kept[i] == path;
        active.lemma_filter_pred(other_than(path), i);
    }
    assert forall|p: Seq<char>| active.contains(p) && p != path implies kept.contains(p) by {
        let j = choose|j: int| 0 <= j < active.len() && active[j] == p;
        active.lemma_filter_contains(other_than(path), j);
    }
}

// ---------------------------------------------------------------------------
// Trusted
// ---------------------------------------------------------------------------

/// `uuid::Uuid::new_v4`, written in its `simple` form: 32 lowercase
/// hexadecimal digits. Which digits is left open, for they are random. The
/// call aborts where the operating system has no randomness to give.
#[verifier::external_body]
fn fresh_token() -> (token: String)
    ensures
        is_simple_uuid(token@),
{
    uuid::Uuid::new_v4().simple().to_string()
}

// ---------------------------------------------------------------------------
// Executable functions
// ---------------------------------------------------------------------------

/// `rel` appended to the path `base`: see [`joined`].
pub fn join_paths(base: &str, rel: &str) -> (out: String)
    ensures
        out@ == joined(base@, rel@),
{
    let r = chars_of(rel);
    if r.len() > 0 && (r[0] == '/' || r[0] == '\\') {
        return String::from_str(rel);
    }
    let b = chars_of(base);
    let mut out = String::from_str(base);
    if b.len() > 0 && !(b[b.len() - 1] == '/' || b[b.len() - 1] == '\\') {
        out.append("/");
    }
    out.append(rel);
    out
}

/// A scratch directory that was handed out.
#[derive(Debug, Clone, PartialEq, Eq)]
pub struct TempDir {
    path: String,
    created_at: u64,
}

impl TempDir {
    /// The path of the directory.
    pub closed spec fn path_view(&self) -> Seq<char> {
        self.path@
    }

    /// When the directory was handed out, in seconds of the caller's clock.
    pub closed spec fn created(&self) -> u64 {
        self.created_at
    }

    /// The path of the directory.
    pub fn path(&self) -> (p: &str)
        ensures
            p@ == self.path_view(),
    {
        self.path.as_str()
    }

    /// The path of `rel` inside the directory.
    pub fn join(&self, rel: &str) -> (p: String)
        ensures
            p@ == joined(self.path_view(), rel@),
    {
        join_paths(self.path.as_str(), rel)
    }

    /// The age of the directory at the time `now`, in seconds; zero where
    /// the clock has gone backwards.
    pub fn age(&self, now: u64) -> (seconds: u64)
        ensures
            seconds == (if now >= self.created() {
                now - self.created()
            } else {
                0
            }),
    {
        if now >= self.created_at {
            now - self.created_at
        } else {
            0
        }
    }
}

/// Hands out scratch directories and keeps track of them.
#[derive(Debug)]
pub struct TempFileManager {
    temp_base: String,
    active_dirs: Vec<String>,
    max_age: u64,
}

impl View for TempFileManager {
    type V = TempFileManagerView;

    closed spec fn view(&self) -> TempFileManagerView {
        TempFileManagerView {
            temp_base: self.temp_base@,
            active: views(self.active_dirs@),
            max_age: self.max_age,
        }
    }
}

impl TempFileManager {
    /// A manager for the root under `system_temp`, the system's temporary
    /// directory, with the default maximum age and an empty registry.
    pub fn new(system_temp: &str) -> (m: TempFileManager)
        ensures
            m@.temp_base == joined(system_temp@, TEMP_ROOT_NAME@),
            m@.active == Seq::<Seq<char>>::empty(),
            m@.max_age == DEFAULT_MAX_AGE_SECONDS,
    {
        TempFileManager::with_max_age(system_temp, DEFAULT_MAX_AGE_SECONDS)
    }

    /// A manager for the root under `system_temp` whose directories expire
    /// after `max_age` seconds.
    pub fn with_max_age(system_temp: &str, max_age: u64) -> (m: TempFileManager)
        ensures
            m@.temp_base == joined(system_temp@, TEMP_ROOT_NAME@),
            m@.active == Seq::<Seq<char>>::empty(),
            m@.max_age == max_age,
    {
        let m = TempFileManager {
            temp_base: join_paths(system_temp, TEMP_ROOT_NAME),
            active_dirs: Vec::new(),
            max_age,
        };
        assert(views(m.active_dirs@) =~= Seq::<Seq<char>>::empty());
        m
    }

    /// A manager with the same root and maximum age and a registry of its
    /// own, which starts empty: a handle never takes back what another
    /// handle has handed out.
    pub fn fork(&self) -> (m: TempFileManager)
        ensures
            m@.temp_base == self@.temp_base,
            m@.max_age == self@.max_age,
            m@.active == Seq::<Seq<char>>::empty(),
    {
        let m = TempFileManager {
            temp_base: self.temp_base.clone(),
            active_dirs: Vec::new(),
            max_age: self.max_age,
        };
        assert(views(m.active_dirs@) =~= Seq::<Seq<char>>::empty());
        m
    }

    /// The directory that holds the scratch directories.
    pub fn temp_base(&self) -> (p: &str)
        ensures
            p@ == self@.temp_base,
    {
        self.temp_base.as_str()
    }

    /// How many scratch directories are handed out.
    pub fn active_dir_count(&self) -> (n: usize)
        ensures
            n == self@.active.len(),
    {
        self.active_dirs.len()
    }

    /// Sets the age after which a scratch directory expires.
    pub fn set_max_age(&mut self, max_age: u64)
        ensures
            final(self)@ == (TempFileManagerView { max_age, ..old(self)@ }),
    {
        self.max_age = max_age;
    }

    /// Whether `path` is in the registry.
    pub fn is_active(&self, path: &str) -> (r: bool)
        ensures
            r == self@.active.contains(path@),
    {
        let wanted = String::from_str(path);
        let ghost a = views(self.active_dirs@);
        let mut i: usize = 0;
        while i < self.active_dirs.len()
            invariant
                i <= self.active_dirs.len(),
                a == views(self.active_dirs@),
                wanted@ == path@,
                forall|j: int| 0 <= j < i ==> a[j] != path@,
            decreases self.active_dirs.len() - i,
        {
            if self.active_dirs[i] == wanted {
                assert(a[i as int] == path@);
                return true;
            }
            i += 1;
        }
        false
    }

    /// The paths in the registry, oldest first.
    pub fn active_dirs(&self) -> (dirs: Vec<String>)
        ensures
            views(dirs@) == self@.active,
    {
        let ghost a = views(self.active_dirs@);
        let mut dirs: Vec<String> = Vec::new();
        let mut i: usize = 0;
        while i < self.active_dirs.len()
            invariant
                i <= self.active_dirs.len(),
                a == views(self.active_dirs@),
                views(dirs@) == a.take(i as int),
            decreases self.active_dirs.len() - i,
        {
            let ghost before = views(dirs@);
            dirs.push(self.active_dirs[i].clone());
            assert(views(dirs@) =~= before.push(a[i as int]));
            assert(a.take(i + 1) =~= a.take(i as int).push(a[i as int]));
            i += 1;
        }
        assert(a.take(self.active_dirs.len() as int) =~= a);
        dirs
    }

    /// Enters `path` into the registry, unless it is there already.
    pub fn register(&mut self, path: &str)
        ensures
            final(self)@ == (TempFileManagerView {
                active: with_path(old(self)@.active, path@),
                ..old(self)@
            }),
            old(self)@.active.no_duplicates() ==> final(self)@.active.no_duplicates(),
    {
        proof {
            if old(self)@.active.no_duplicates() {
                lemma_with_path(old(self)@.active, path@);
            }
        }
        if !self.is_active(path) {
            let ghost before = views(self.active_dirs@);
            self.active_dirs.push(String::from_str(path));
            assert(views(self.active_dirs@) =~= before.push(path@));
        }
    }

    /// Takes `path` out of the registry and says whether it was there. The
    /// directory must be gone from disk by then.
    pub fn release(&mut self, path: &str) -> (was_active: bool)
        ensures
            was_active == old(self)@.active.contains(path@),
            final(self)@ == (TempFileManagerView {
                active: without_path(old(self)@.active, path@),
                ..old(self)@
            }),
            old(self)@.active.no_duplicates() ==> final(self)@.active.no_duplicates(),
    {
        let ghost a = views(self.active_dirs@);
        let ghost pred = other_than(path@);
        proof {
            if a.no_duplicates() {
                lemma_without_path(a, path@);
            }
        }
        let was_active = self.is_active(path);
        let wanted = String::from_str(path);
        let mut kept: Vec<String> = Vec::new();
        let mut i: usize = 0;
        assert(a.take(0) =~= Seq::<Seq<char>>::empty());
        assert(views(kept@) =~= a.take(0).filter(pred)) by {
            reveal(Seq::filter);
        }
        while i < self.active_dirs.len()
            invariant
                i <= self.active_dirs.len(),
                a == views(self.active_dirs@),
                pred == other_than(path@),
                wanted@ == path@,
                views(kept@) == a.take(i as int).filter(pred),
            decreases self.active_dirs.len() - i,
        {
            let ghost before = views(kept@);
            proof {
                lemma_filter_push(a.take(i as int), a[i as int], pred);
                assert(a.take(i + 1) =~= a.take(i as int).push(a[i as int]));
            }
            if self.active_dirs[i] != wanted {
                kept.push(self.active_dirs[i].clone());
                assert(views(kept@) =~= before.push(a[i as int]));
            }
            i += 1;
        }
        assert(a.take(self.active_dirs.len() as int) =~= a);
        self.active_dirs = kept;
        was_active
    }

    /// Whether a scratch directory of the age `age_seconds` has expired.
    pub fn is_expired(&self, age_seconds: u64) -> (r: bool)
        ensures
            r == (age_seconds > self@.max_age),
    {
        age_seconds > self.max_age
    }

    /// Takes `path` out of the registry if it is there and has expired at
    /// the age `age_seconds`, and says whether it did; the caller then
    /// removes the directory.
    pub fn expire(&mut self, path: &str, age_seconds: u64) -> (expired: bool)
        ensures
            expired == (age_seconds > old(self)@.max_age && old(self)@.active.contains(path@)),
            final(self)@ == (if expired {
                TempFileManagerView {
                    active: without_path(old(self)@.active, path@),
                    ..old(self)@
                }
            } else {
                old(self)@
            }),
            old(self)@.active.no_duplicates() ==> final(self)@.active.no_duplicates(),
    {
        if self.is_expired(age_seconds) && self.is_active(path) {
            self.release(path)
        } else {
            false
        }
    }

    /// Hands out the scratch directory named after `token` at the time
    /// `now`, and enters it into the registry.
    pub fn create_temp_dir_named(&mut self, token: &str, now: u64) -> (dir: TempDir)
        ensures
            dir.path_view() == joined(old(self)@.temp_base, scratch_name(token@)),
            dir.created() == now,
            final(self)@ == (TempFileManagerView {
                active: with_path(old(self)@.active, dir.path_view()),
                ..old(self)@
            }),
            old(self)@.active.no_duplicates() ==> final(self)@.active.no_duplicates(),
    {
        let mut name = String::from_str(".tmp");
        name.append(token);
        let path = join_paths(self.temp_base.as_str(), name.as_str());
        self.register(path.as_str());
        TempDir { path, created_at: now }
    }

    /// Hands out a scratch directory under a fresh random name at the time
    /// `now`, and enters it into the registry. The caller creates it on
    /// disk.
    pub fn create_temp_dir(&mut self, now: u64) -> (dir: TempDir)
        ensures
            exists|token: Seq<char>|
                is_simple_uuid(token) && dir.path_view() == joined(
                    old(self)@.temp_base,
                    #[trigger] scratch_name(token),
                ),
            dir.created() == now,
            final(self)@ == (TempFileManagerView {
                active: with_path(old(self)@.active, dir.path_view()),
                ..old(self)@
            }),
            old(self)@.active.no_duplicates() ==> final(self)@.active.no_duplicates(),
    {
        let token = fresh_token();
        let dir = self.create_temp_dir_named(token.as_str(), now);
        assert(dir.path_view() == joined(old(self)@.temp_base, scratch_name(token@)));
        dir
    }
}

} // verus!
