//! The fixed tables of the protocol spoken with `extractpbo`.
//!
//! The tool is opaque, so these lists are part of the contract rather than
//! derived from it: what counts as a fatal message, what is harmless noise,
//! which output lines are metadata, and which file names are remapped.

use vstd::prelude::*;
use crate::text::str_views;

verus! {

/// Seconds an operation may take unless the caller says otherwise.
pub const DEFAULT_TIMEOUT: u32 = 30;

/// The shortest timeout that can be configured, in seconds.
pub const MIN_TIMEOUT: u32 = 1;

/// How often a calling layer is advised to retry a failed operation.
pub const DEFAULT_MAX_RETRIES: u32 = 3;

/// The name of the external tool.
pub const EXTRACT_COMMAND: &'static str = "extractpbo";

/// The key of the mapping that applies to any `.bin` file without an entry
/// of its own.
pub const DEFAULT_MAPPING_KEY: &'static str = "default";

/// Substrings that mark the tool's output as a failure, whatever the exit
/// code. `Error` and `Failed` are fatal as bare substrings; the list is
/// checked in this order.
pub open spec fn bad_pbo_indicators() -> Seq<Seq<char>> {
    seq![
        "Error"@,
        "Failed"@,
        "Cannot open"@,
        "Bad Sha"@,
        "unknown header type"@,
        "this warning is set as an error"@,
        "residual bytes in file"@,
    ]
}

/// Substrings that are recognised as harmless warnings.
pub open spec fn known_warnings() -> Seq<Seq<char>> {
    seq![
        "1st/last entry has non-zero real_size"@,
        "reserved field non zero"@,
        "no shakey on arma"@,
        "arma pbo is missing a prefix"@,
    ]
}

/// Prefixes of output lines that carry metadata rather than a file entry.
pub open spec fn metadata_markers() -> Seq<Seq<char>> {
    seq![
        "Active code page:"@,
        "ExtractPbo Version"@,
        "Opening pbo archive"@,
        "prefix="@,
        "Mikero="@,
        "version="@,
        "PboType="@,
        "==="@,
        "//"@,
        "Created by"@,
        "Author:"@,
        "BinPatches="@,
        "ReportInvalidFiles="@,
        "SearchForBinFiles="@,
    ]
}

/// Extensions by which a source file is recognised as an archive.
pub open spec fn common_pbo_extensions() -> Seq<Seq<char>> {
    seq!["pbo"@, "xbo"@, "ifa"@]
}

/// Extensions of binary payload files that may need conversion.
pub open spec fn binary_extensions() -> Seq<Seq<char>> {
    seq!["bin"@, "binpbo"@, "binconfig"@]
}

/// The default remapping of payload file names, as pairs of a file name and
/// the name it is given.
pub open spec fn default_bin_mappings() -> Seq<(Seq<char>, Seq<char>)> {
    seq![
        ("config.bin"@, "config.cpp"@),
        ("model.bin"@, "model.cfg"@),
        ("stringtable.bin"@, "stringtable.xml"@),
        ("texheaders.bin"@, "texheaders.txt"@),
        ("script.bin"@, "script.cpp"@),
        ("default"@, ".txt"@),
    ]
}

/// The default indicators of a corrupt archive that a configuration starts
/// with.
pub open spec fn default_config_indicators() -> Seq<Seq<char>> {
    seq![
        "DePbo:Pbo unknown header type"@,
        "Bad Sha detected"@,
        "Bad Sha"@,
        "this warning is set as an error"@,
    ]
}

/// The list of [`bad_pbo_indicators`].
pub fn bad_pbo_indicator_list() -> (v: Vec<&'static str>)
    ensures
        str_views(v@) == bad_pbo_indicators(),
{
    let mut v: Vec<&'static str> = Vec::new();
    v.push("Error");
    v.push("Failed");
    v.push("Cannot open");
    v.push("Bad Sha");
    v.push("unknown header type");
    v.push("this warning is set as an error");
    v.push("residual bytes in file");
    assert(str_views(v@) =~= bad_pbo_indicators());
    v
}

/// The list of [`known_warnings`].
pub fn known_warning_list() -> (v: Vec<&'static str>)
    ensures
        str_views(v@) == known_warnings(),
{
    let mut v: Vec<&'static str> = Vec::new();
    v.push("1st/last entry has non-zero real_size");
    v.push("reserved field non zero");
    v.push("no shakey on arma");
    v.push("arma pbo is missing a prefix");
    assert(str_views(v@) =~= known_warnings());
    v
}

/// The list of [`metadata_markers`].
pub fn metadata_marker_list() -> (v: Vec<&'static str>)
    ensures
        str_views(v@) == metadata_markers(),
{
    let mut v: Vec<&'static str> = Vec::new();
    v.push("Active code page:");
    v.push("ExtractPbo Version");
    v.push("Opening pbo archive");
    v.push("prefix=");
    v.push("Mikero=");
    v.push("version=");
    v.push("PboType=");
    v.push("===");
    v.push("//");
    v.push("Created by");
    v.push("Author:");
    v.push("BinPatches=");
    v.push("ReportInvalidFiles=");
    v.push("SearchForBinFiles=");
    assert(str_views(v@) =~= metadata_markers());
    v
}

/// The list of [`common_pbo_extensions`].
pub fn common_pbo_extension_list() -> (v: Vec<&'static str>)
    ensures
        str_views(v@) == common_pbo_extensions(),
{
    let mut v: Vec<&'static str> = Vec::new();
    v.push("pbo");
    v.push("xbo");
    v.push("ifa");
    assert(str_views(v@) =~= common_pbo_extensions());
    v
}

/// The list of [`binary_extensions`].
pub fn binary_extension_list() -> (v: Vec<&'static str>)
    ensures
        str_views(v@) == binary_extensions(),
{
    let mut v: Vec<&'static str> = Vec::new();
    v.push("bin");
    v.push("binpbo");
    v.push("binconfig");
    assert(str_views(v@) =~= binary_extensions());
    v
}

} // verus!
