//! The configuration of an engine: the table that remaps payload file
//! names, the indicators of a corrupt archive, and a few switches.
//!
//! A configuration is built once and read-only afterwards, so it may be
//! shared by any number of concurrent calls.

use vstd::prelude::*;
use vstd::string::StringExecFns;
use crate::constants::{
    default_bin_mappings,
    default_config_indicators,
    DEFAULT_MAX_RETRIES,
};
use crate::text::{
    chars_of,
    contains,
    contains_any,
    lowercase_of,
    range_contains,
    to_lowercase,
    views,
};

verus! {

// ---------------------------------------------------------------------------
// Model
// ---------------------------------------------------------------------------

/// The map that a sequence of entries stands for; a later entry replaces an
/// earlier one with the same key.
pub open spec fn mapping_of(entries: Seq<(Seq<char>, Seq<char>)>) -> Map<Seq<char>, Seq<char>>
    decreases entries.len(),
{
    if entries.len() == 0 {
        Map::empty()
    } else {
        mapping_of(entries.drop_last()).insert(entries.last().0, entries.last().1)
    }
}

/// The views of a vector of pairs of strings.
pub open spec fn pair_views(v: Seq<(String, String)>) -> Seq<(Seq<char>, Seq<char>)> {
    Seq::new(v.len(), |i: int| (v[i].0@, v[i].1@))
}

/// The mathematical value of a configuration.
pub struct PboConfigView {
    /// From a payload file name to what it is mapped to.
    pub mappings: Map<Seq<char>, Seq<char>>,
    /// The indicators of a corrupt archive, in the order they were added.
    pub indicators: Seq<Seq<char>>,
    /// Whether file names are looked up as they are written.
    pub case_sensitive: bool,
    /// Whether the caller asked for paths not to be validated.
    pub ignore_path_validation: bool,
    /// How often a calling layer is advised to retry.
    pub max_retries: u32,
}

impl PboConfigView {
    /// The key under which `name` is stored and looked up: `name` itself
    /// where case matters, else its lowercase form.
    pub open spec fn key_of(self, name: Seq<char>) -> Seq<char> {
        if self.case_sensitive {
            name
        } else {
            lowercase_of(name)
        }
    }

    /// What `name` is mapped to, if anything.
    pub open spec fn lookup(self, name: Seq<char>) -> Option<Seq<char>> {
        if self.mappings.contains_key(self.key_of(name)) {
            Some(self.mappings[self.key_of(name)])
        } else {
            None
        }
    }
}

/// The configuration that a builder starts from.
pub open spec fn default_config() -> PboConfigView {
    PboConfigView {
        mappings: mapping_of(default_bin_mappings()),
        indicators: default_config_indicators(),
        case_sensitive: false,
        ignore_path_validation: false,
        max_retries: DEFAULT_MAX_RETRIES,
    }
}

/// The view of an optional string slice.
pub open spec fn option_str_view(o: Option<&str>) -> Option<Seq<char>> {
    match o {
        Some(s) => Some(s@),
        None => None,
    }
}

// ---------------------------------------------------------------------------
// Laws
// ---------------------------------------------------------------------------

/// After a mapping is added under the configuration's own rule for keys,
/// looking the same name up gives what was added, and names with another
/// key are looked up as before.
pub proof fn lemma_lookup_after_insert(
    c: PboConfigView,
    name: Seq<char>,
    target: Seq<char>,
    other: Seq<char>,
)
    ensures
        ({
            let d = PboConfigView { mappings: c.mappings.insert(c.key_of(name), target), ..c };
            &&& d.lookup(name) == Some(target)
            &&& c.key_of(other) != c.key_of(name) ==> d.lookup(other) == c.lookup(other)
        }),
{
}

// ---------------------------------------------------------------------------
// Entries
// ---------------------------------------------------------------------------

/// The value stored under `key` in `entries`, where a later entry replaces
/// an earlier one.
fn find_entry<'a>(entries: &'a Vec<(String, String)>, key: &str) -> (r: Option<&'a str>)
    ensures
        option_str_view(r) == (if mapping_of(pair_views(entries@)).contains_key(key@) {
            Some(mapping_of(pair_views(entries@))[key@])
        } else {
            None
        }),
{
    let ghost all = pair_views(entries@);
    let owned = String::from_str(key);
    let mut i: usize = entries.len();
    assert(all.take(i as int) =~= all);
    while i > 0
        invariant
            i <= entries.len(),
            all == pair_views(entries@),
            owned@ == key@,
            mapping_of(all).contains_key(key@) == mapping_of(all.take(i as int)).contains_key(
                key@,
            ),
            mapping_of(all).contains_key(key@) ==> mapping_of(all)[key@] == mapping_of(
                all.take(i as int),
            )[key@],
        decreases i,
    {
        let ghost part = all.take(i as int);
        assert(part.drop_last() =~= all.take(i - 1));
        assert(part.last() == all[i - 1]);
        if entries[i - 1].0 == owned {
            return Some(entries[i - 1].1.as_str());
        }
        i -= 1;
    }
    assert(all.take(0) =~= Seq::<(Seq<char>, Seq<char>)>::empty());
    None
}

/// Whether `message` contains one of `indicators`.
fn contains_indicator(message: &str, indicators: &Vec<String>) -> (r: bool)
    ensures
        r == contains_any(message@, views(indicators@)),
{
    let text = chars_of(message);
    let ghost ps = views(indicators@);
    assert(text@.subrange(0, text.len() as int) =~= text@);
    let mut i: usize = 0;
    while i < indicators.len()
        invariant
            i <= indicators.len(),
            text@ == message@,
            text@.subrange(0, text.len() as int) == text@,
            ps == views(indicators@),
            forall|j: int| 0 <= j < i ==> !contains(message@, #[trigger] ps[j]),
        decreases indicators.len() - i,
    {
        let needle = chars_of(indicators[i].as_str());
        if range_contains(&text, 0, text.len(), &needle) {
            assert(contains(message@, ps[i as int]));
            return true;
        }
        i += 1;
    }
    false
}

// ---------------------------------------------------------------------------
// PboConfig
// ---------------------------------------------------------------------------

/// The configuration of an engine.
#[derive(Debug, Clone)]
pub struct PboConfig {
    bin_file_types: Vec<(String, String)>,
    bad_pbo_indicators: Vec<String>,
    case_sensitive: bool,
    ignore_path_validation: bool,
    max_retries: u32,
}

/// Collects the settings of a [`PboConfig`].
#[derive(Debug, Clone)]
pub struct PboConfigBuilder {
    bin_file_types: Vec<(String, String)>,
    bad_pbo_indicators: Vec<String>,
    case_sensitive: bool,
    ignore_path_validation: bool,
    max_retries: u32,
}

impl View for PboConfig {
    type V = PboConfigView;

    closed spec fn view(&self) -> PboConfigView {
        PboConfigView {
            mappings: mapping_of(pair_views(self.bin_file_types@)),
            indicators: views(self.bad_pbo_indicators@),
            case_sensitive: self.case_sensitive,
            ignore_path_validation: self.ignore_path_validation,
            max_retries: self.max_retries,
        }
    }
}

impl View for PboConfigBuilder {
    type V = PboConfigView;

    closed spec fn view(&self) -> PboConfigView {
        PboConfigView {
            mappings: mapping_of(pair_views(self.bin_file_types@)),
            indicators: views(self.bad_pbo_indicators@),
            case_sensitive: self.case_sensitive,
            ignore_path_validation: self.ignore_path_validation,
            max_retries: self.max_retries,
        }
    }
}

impl PboConfig {
    /// A builder that holds the default configuration.
    pub fn builder() -> (b: PboConfigBuilder)
        ensures
            b@ == default_config(),
    {
        PboConfigBuilder::new()
    }

    /// What the payload file name `filename` is mapped to, if anything. The
    /// name is looked up in lowercase unless the configuration is case
    /// sensitive.
    pub fn get_bin_extension<'a>(&'a self, filename: &str) -> (r: Option<&'a str>)
        ensures
            option_str_view(r) == self@.lookup(filename@),
    {
        if self.case_sensitive {
            find_entry(&self.bin_file_types, filename)
        } else {
            let key = to_lowercase(filename);
            find_entry(&self.bin_file_types, key.as_str())
        }
    }

    /// What is stored under exactly `key`, if anything.
    pub fn get_mapping<'a>(&'a self, key: &str) -> (r: Option<&'a str>)
        ensures
            option_str_view(r) == (if self@.mappings.contains_key(key@) {
                Some(self@.mappings[key@])
            } else {
                None
            }),
    {
        find_entry(&self.bin_file_types, key)
    }

    /// Whether `message` contains one of the indicators of a corrupt
    /// archive.
    pub fn is_bad_pbo(&self, message: &str) -> (r: bool)
        ensures
            r == contains_any(message@, self@.indicators),
    {
        contains_indicator(message, &self.bad_pbo_indicators)
    }

    /// Whether file names are looked up as they are written.
    pub fn is_case_sensitive(&self) -> (r: bool)
        ensures
            r == self@.case_sensitive,
    {
        self.case_sensitive
    }

    /// Whether the caller asked for paths not to be validated.
    pub fn should_ignore_path_validation(&self) -> (r: bool)
        ensures
            r == self@.ignore_path_validation,
    {
        self.ignore_path_validation
    }

    /// How often a calling layer is advised to retry. The library itself
    /// never retries.
    pub fn max_retries(&self) -> (r: u32)
        ensures
            r == self@.max_retries,
    {
        self.max_retries
    }
}

impl Default for PboConfig {
    fn default() -> (c: PboConfig)
        ensures
            c@ == default_config(),
    {
        PboConfigBuilder::new().build()
    }
}

impl PboConfigBuilder {
    /// A builder that holds the default configuration.
    pub fn new() -> (b: PboConfigBuilder)
        ensures
            b@ == default_config(),
    {
        let mut bin_file_types: Vec<(String, String)> = Vec::new();
        bin_file_types.push((String::from_str("config.bin"), String::from_str("config.cpp")));
        bin_file_types.push((String::from_str("model.bin"), String::from_str("model.cfg")));
        bin_file_types.push(
            (String::from_str("stringtable.bin"), String::from_str("stringtable.xml")),
        );
        bin_file_types.push(
            (String::from_str("texheaders.bin"), String::from_str("texheaders.txt")),
        );
        bin_file_types.push((String::from_str("script.bin"), String::from_str("script.cpp")));
        bin_file_types.push((String::from_str("default"), String::from_str(".txt")));
        let mut bad_pbo_indicators: Vec<String> = Vec::new();
        bad_pbo_indicators.push(String::from_str("DePbo:Pbo unknown header type"));
        bad_pbo_indicators.push(String::from_str("Bad Sha detected"));
        bad_pbo_indicators.push(String::from_str("Bad Sha"));
        bad_pbo_indicators.push(String::from_str("this warning is set as an error"));
        assert(pair_views(bin_file_types@) =~= default_bin_mappings());
        assert(views(bad_pbo_indicators@) =~= default_config_indicators());
        PboConfigBuilder {
            bin_file_types,
            bad_pbo_indicators,
            case_sensitive: false,
            ignore_path_validation: false,
            max_retries: 3,
        }
    }

    /// Maps the payload file name `bin_file` to `target_ext`. The name is
    /// stored in lowercase unless the builder is case sensitive at this
    /// moment.
    pub fn add_bin_mapping(self, bin_file: &str, target_ext: &str) -> (b: PboConfigBuilder)
        ensures
            b@ == (PboConfigView {
                mappings: self@.mappings.insert(self@.key_of(bin_file@), target_ext@),
                ..self@
            }),
    {
        let key = if !self.case_sensitive {
            to_lowercase(bin_file)
        } else {
            String::from_str(bin_file)
        };
        let mut b = self;
        let ghost before = pair_views(b.bin_file_types@);
        b.bin_file_types.push((key, String::from_str(target_ext)));
        proof {
            let after = pair_views(b.bin_file_types@);
            assert(after.drop_last() =~= before);
        }
        b
    }

    /// Adds `indicator` to the indicators of a corrupt archive.
    pub fn add_bad_indicator(self, indicator: &str) -> (b: PboConfigBuilder)
        ensures
            b@ == (PboConfigView { indicators: self@.indicators.push(indicator@), ..self@ }),
    {
        let mut b = self;
        let ghost before = views(b.bad_pbo_indicators@);
        b.bad_pbo_indicators.push(String::from_str(indicator));
        assert(views(b.bad_pbo_indicators@) =~= before.push(indicator@));
        b
    }

    /// Sets whether file names are looked up as they are written.
    pub fn case_sensitive(self, sensitive: bool) -> (b: PboConfigBuilder)
        ensures
            b@ == (PboConfigView { case_sensitive: sensitive, ..self@ }),
    {
        let mut b = self;
        b.case_sensitive = sensitive;
        b
    }

    /// Sets whether paths are to be left unvalidated.
    pub fn ignore_path_validation(self, ignore: bool) -> (b: PboConfigBuilder)
        ensures
            b@ == (PboConfigView { ignore_path_validation: ignore, ..self@ }),
    {
        let mut b = self;
        b.ignore_path_validation = ignore;
        b
    }

    /// Sets the advised number of retries.
    pub fn max_retries(self, retries: u32) -> (b: PboConfigBuilder)
        ensures
            b@ == (PboConfigView { max_retries: retries, ..self@ }),
    {
        let mut b = self;
        b.max_retries = retries;
        b
    }

    /// The configuration that was collected.
    pub fn build(self) -> (c: PboConfig)
        ensures
            c@ == self@,
    {
        PboConfig {
            bin_file_types: self.bin_file_types,
            bad_pbo_indicators: self.bad_pbo_indicators,
            case_sensitive: self.case_sensitive,
            ignore_path_validation: self.ignore_path_validation,
            max_retries: self.max_retries,
        }
    }
}

} // verus!
