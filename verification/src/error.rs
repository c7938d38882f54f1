//! The errors of the library, their mathematical views and the one-line
//! message each renders to.
//!
//! Paths are carried as text: the library never touches the file system.

use vstd::prelude::*;
use vstd::string::StringExecFns;
use crate::text::{decimal_nat, push_decimal_u64};

verus! {

/// Why running or interpreting the extraction tool failed.
#[derive(Debug, Clone, PartialEq, Eq)]
pub enum ExtractError {
    CommandFailed { cmd: String, reason: String },
    NoFiles,
    BadFormat { reason: String },
    Canceled(String),
    InvalidFile(String),
    ChecksumFailed(String),
}

/// Why a file-system step failed, with the path or paths it was about.
#[derive(Debug, Clone, PartialEq, Eq)]
pub enum FileSystemError {
    CreateDir { path: String, reason: String },
    RemoveDir { path: String, reason: String },
    Rename { from: String, to: String, reason: String },
    Read { path: String, reason: String },
    Write { path: String, reason: String },
    Delete { path: String, reason: String },
    Copy { from: String, to: String, reason: String },
    NotFound(String),
    AlreadyExists(String),
    InvalidFileName(String),
    TempDir(String),
    PathValidation(String),
}

/// Every way an operation of the library can fail.
#[derive(Debug, Clone, PartialEq, Eq)]
pub enum PboError {
    Extraction(ExtractError),
    Timeout(u32),
    FileSystem(FileSystemError),
    Io(String),
    InvalidPbo(String),
    InvalidFormat(String),
    ValidationFailed(String),
    Encoding { context: String, path: String },
    CommandNotFound(String),
    InvalidPath(String),
    Interrupted(String),
    PermissionDenied(String),
    ResourceBusy(String),
}

/// The mathematical value of an [`ExtractError`].
pub enum ExtractErrorView {
    CommandFailed { cmd: Seq<char>, reason: Seq<char> },
    NoFiles,
    BadFormat { reason: Seq<char> },
    Canceled(Seq<char>),
    InvalidFile(Seq<char>),
    ChecksumFailed(Seq<char>),
}

/// The mathematical value of a [`FileSystemError`].
pub enum FileSystemErrorView {
    CreateDir { path: Seq<char>, reason: Seq<char> },
    RemoveDir { path: Seq<char>, reason: Seq<char> },
    Rename { from: Seq<char>, to: Seq<char>, reason: Seq<char> },
    Read { path: Seq<char>, reason: Seq<char> },
    Write { path: Seq<char>, reason: Seq<char> },
    Delete { path: Seq<char>, reason: Seq<char> },
    Copy { from: Seq<char>, to: Seq<char>, reason: Seq<char> },
    NotFound(Seq<char>),
    AlreadyExists(Seq<char>),
    InvalidFileName(Seq<char>),
    TempDir(Seq<char>),
    PathValidation(Seq<char>),
}

/// The mathematical value of a [`PboError`].
pub enum PboErrorView {
    Extraction(ExtractErrorView),
    Timeout(u32),
    FileSystem(FileSystemErrorView),
    Io(Seq<char>),
    InvalidPbo(Seq<char>),
    InvalidFormat(Seq<char>),
    ValidationFailed(Seq<char>),
    Encoding { context: Seq<char>, path: Seq<char> },
    CommandNotFound(Seq<char>),
    InvalidPath(Seq<char>),
    Interrupted(Seq<char>),
    PermissionDenied(Seq<char>),
    ResourceBusy(Seq<char>),
}

impl View for ExtractError {
    type V = ExtractErrorView;

    open spec fn view(&self) -> ExtractErrorView {
        match *self {
            ExtractError::CommandFailed { cmd, reason } => ExtractErrorView::CommandFailed {
                cmd: cmd@,
                reason: reason@,
            },
            ExtractError::NoFiles => ExtractErrorView::NoFiles,
            ExtractError::BadFormat { reason } => ExtractErrorView::BadFormat { reason: reason@ },
            ExtractError::Canceled(m) => ExtractErrorView::Canceled(m@),
            ExtractError::InvalidFile(m) => ExtractErrorView::InvalidFile(m@),
            ExtractError::ChecksumFailed(m) => ExtractErrorView::ChecksumFailed(m@),
        }
    }
}

impl View for FileSystemError {
    type V = FileSystemErrorView;

    open spec fn view(&self) -> FileSystemErrorView {
        match *self {
            FileSystemError::CreateDir { path, reason } => FileSystemErrorView::CreateDir {
                path: path@,
                reason: reason@,
            },
            FileSystemError::RemoveDir { path, reason } => FileSystemErrorView::RemoveDir {
                path: path@,
                reason: reason@,
            },
            FileSystemError::Rename { from, to, reason } => FileSystemErrorView::Rename {
                from: from@,
                to: to@,
                reason: reason@,
            },
            FileSystemError::Read { path, reason } => FileSystemErrorView::Read {
                path: path@,
                reason: reason@,
            },
            FileSystemError::Write { path, reason } => FileSystemErrorView::Write {
                path: path@,
                reason: reason@,
            },
            FileSystemError::Delete { path, reason } => FileSystemErrorView::Delete {
                path: path@,
                reason: reason@,
            },
            FileSystemError::Copy { from, to, reason } => FileSystemErrorView::Copy {
                from: from@,
                to: to@,
                reason: reason@,
            },
            FileSystemError::NotFound(p) => FileSystemErrorView::NotFound(p@),
            FileSystemError::AlreadyExists(p) => FileSystemErrorView::AlreadyExists(p@),
            FileSystemError::InvalidFileName(p) => FileSystemErrorView::InvalidFileName(p@),
            FileSystemError::TempDir(m) => FileSystemErrorView::TempDir(m@),
            FileSystemError::PathValidation(m) => FileSystemErrorView::PathValidation(m@),
        }
    }
}

impl View for PboError {
    type V = PboErrorView;

    open spec fn view(&self) -> PboErrorView {
        match *self {
            PboError::Extraction(e) => PboErrorView::Extraction(e@),
            PboError::Timeout(secs) => PboErrorView::Timeout(secs),
            PboError::FileSystem(e) => PboErrorView::FileSystem(e@),
            PboError::Io(m) => PboErrorView::Io(m@),
            PboError::InvalidPbo(m) => PboErrorView::InvalidPbo(m@),
            PboError::InvalidFormat(m) => PboErrorView::InvalidFormat(m@),
            PboError::ValidationFailed(m) => PboErrorView::ValidationFailed(m@),
            PboError::Encoding { context, path } => PboErrorView::Encoding {
                context: context@,
                path: path@,
            },
            PboError::CommandNotFound(m) => PboErrorView::CommandNotFound(m@),
            PboError::InvalidPath(p) => PboErrorView::InvalidPath(p@),
            PboError::Interrupted(m) => PboErrorView::Interrupted(m@),
            PboError::PermissionDenied(p) => PboErrorView::PermissionDenied(p@),
            PboError::ResourceBusy(p) => PboErrorView::ResourceBusy(p@),
        }
    }
}

impl ExtractErrorView {
    /// The line this error renders to.
    pub open spec fn message(self) -> Seq<char> {
        match self {
            ExtractErrorView::CommandFailed { cmd, reason } => "Command execution failed: "@ + cmd
                + " - "@ + reason,
            ExtractErrorView::NoFiles => "No files were extracted"@,
            ExtractErrorView::BadFormat { reason } => "Bad PBO format: "@ + reason,
            ExtractErrorView::Canceled(m) => "Extraction canceled: "@ + m,
            ExtractErrorView::InvalidFile(m) => "Invalid file in PBO: "@ + m,
            ExtractErrorView::ChecksumFailed(m) => "Checksum verification failed for: "@ + m,
        }
    }
}

impl FileSystemErrorView {
    /// The line this error renders to.
    pub open spec fn message(self) -> Seq<char> {
        match self {
            FileSystemErrorView::CreateDir { path, reason } => "Failed to create directory "@
                + path + ": "@ + reason,
            FileSystemErrorView::RemoveDir { path, reason } => "Failed to remove directory "@
                + path + ": "@ + reason,
            FileSystemErrorView::Rename { from, to, reason } => "Failed to rename file from "@
                + from + " to "@ + to + ": "@ + reason,
            FileSystemErrorView::Read { path, reason } => "Failed to read file "@ + path + ": "@
                + reason,
            FileSystemErrorView::Write { path, reason } => "Failed to write file "@ + path + ": "@
                + reason,
            FileSystemErrorView::Delete { path, reason } => "Failed to delete file "@ + path
                + ": "@ + reason,
            FileSystemErrorView::Copy { from, to, reason } => "Failed to copy file from "@ + from
                + " to "@ + to + ": "@ + reason,
            FileSystemErrorView::NotFound(p) => "Path not found: "@ + p,
            FileSystemErrorView::AlreadyExists(p) => "Path already exists: "@ + p,
            FileSystemErrorView::InvalidFileName(p) => "Invalid file name: "@ + p,
            FileSystemErrorView::TempDir(m) => "Temporary directory error: "@ + m,
            FileSystemErrorView::PathValidation(m) => "Path validation failed: "@ + m,
        }
    }
}

impl PboErrorView {
    /// The line this error renders to.
    pub open spec fn message(self) -> Seq<char> {
        match self {
            PboErrorView::Extraction(e) => "PBO extraction failed: "@ + e.message(),
            PboErrorView::Timeout(secs) => "Operation timed out after "@ + decimal_nat(
                secs as nat,
            ) + " seconds"@,
            PboErrorView::FileSystem(e) => "File system error: "@ + e.message(),
            PboErrorView::Io(m) => "IO error: "@ + m,
            PboErrorView::InvalidPbo(m) => "Invalid PBO format: "@ + m,
            PboErrorView::InvalidFormat(m) => "Invalid format: "@ + m,
            PboErrorView::ValidationFailed(m) => "Validation failed: "@ + m,
            PboErrorView::Encoding { context, path } => "Content encoding error in "@ + path
                + ": "@ + context,
            PboErrorView::CommandNotFound(m) => "Command not found: "@ + m,
            PboErrorView::InvalidPath(p) => "Invalid path: "@ + p,
            PboErrorView::Interrupted(m) => "Operation was interrupted: "@ + m,
            PboErrorView::PermissionDenied(p) => "Permission denied: "@ + p,
            PboErrorView::ResourceBusy(p) => "Resource busy: "@ + p,
        }
    }
}

/// `head`, then `a`.
fn join2(head: &str, a: &str) -> (s: String)
    ensures
        s@ == head@ + a@,
{
    let mut s = String::from_str(head);
    s.append(a);
    s
}

/// `head`, then `a`, `sep` and `b`.
fn join4(head: &str, a: &str, sep: &str, b: &str) -> (s: String)
    ensures
        s@ == head@ + a@ + sep@ + b@,
{
    let mut s = String::from_str(head);
    s.append(a);
    s.append(sep);
    s.append(b);
    s
}

impl ExtractError {
    /// Renders the error as one descriptive line.
    pub fn to_string(&self) -> (s: String)
        ensures
            s@ == self@.message(),
    {
        match self {
            ExtractError::CommandFailed { cmd, reason } => join4(
                "Command execution failed: ",
                cmd.as_str(),
                " - ",
                reason.as_str(),
            ),
            ExtractError::NoFiles => String::from_str("No files were extracted"),
            ExtractError::BadFormat { reason } => join2("Bad PBO format: ", reason.as_str()),
            ExtractError::Canceled(m) => join2("Extraction canceled: ", m.as_str()),
            ExtractError::InvalidFile(m) => join2("Invalid file in PBO: ", m.as_str()),
            ExtractError::ChecksumFailed(m) => join2(
                "Checksum verification failed for: ",
                m.as_str(),
            ),
        }
    }
}

impl FileSystemError {
    /// Renders the error as one descriptive line.
    pub fn to_string(&self) -> (s: String)
        ensures
            s@ == self@.message(),
    {
        match self {
            FileSystemError::CreateDir { path, reason } => join4(
                "Failed to create directory ",
                path.as_str(),
                ": ",
                reason.as_str(),
            ),
            FileSystemError::RemoveDir { path, reason } => join4(
                "Failed to remove directory ",
                path.as_str(),
                ": ",
                reason.as_str(),
            ),
            FileSystemError::Rename { from, to, reason } => {
                let mut s = join4("Failed to rename file from ", from.as_str(), " to ", to.as_str());
                s.append(": ");
                s.append(reason.as_str());
                s
            },
            FileSystemError::Read { path, reason } => join4(
                "Failed to read file ",
                path.as_str(),
                ": ",
                reason.as_str(),
            ),
            FileSystemError::Write { path, reason } => join4(
                "Failed to write file ",
                path.as_str(),
                ": ",
                reason.as_str(),
            ),
            FileSystemError::Delete { path, reason } => join4(
                "Failed to delete file ",
                path.as_str(),
                ": ",
                reason.as_str(),
            ),
            FileSystemError::Copy { from, to, reason } => {
                let mut s = join4("Failed to copy file from ", from.as_str(), " to ", to.as_str());
                s.append(": ");
                s.append(reason.as_str());
                s
            },
            FileSystemError::NotFound(p) => join2("Path not found: ", p.as_str()),
            FileSystemError::AlreadyExists(p) => join2("Path already exists: ", p.as_str()),
            FileSystemError::InvalidFileName(p) => join2("Invalid file name: ", p.as_str()),
            FileSystemError::TempDir(m) => join2("Temporary directory error: ", m.as_str()),
            FileSystemError::PathValidation(m) => join2("Path validation failed: ", m.as_str()),
        }
    }
}

impl PboError {
    /// Renders the error as one descriptive line.
    pub fn to_string(&self) -> (s: String)
        ensures
            s@ == self@.message(),
    {
        match self {
            PboError::Extraction(e) => {
                let inner = e.to_string();
                join2("PBO extraction failed: ", inner.as_str())
            },
            PboError::Timeout(secs) => {
                let mut s = String::from_str("Operation timed out after ");
                push_decimal_u64(&mut s, *secs as u64);
                s.append(" seconds");
                s
            },
            PboError::FileSystem(e) => {
                let inner = e.to_string();
                join2("File system error: ", inner.as_str())
            },
            PboError::Io(m) => join2("IO error: ", m.as_str()),
            PboError::InvalidPbo(m) => join2("Invalid PBO format: ", m.as_str()),
            PboError::InvalidFormat(m) => join2("Invalid format: ", m.as_str()),
            PboError::ValidationFailed(m) => join2("Validation failed: ", m.as_str()),
            PboError::Encoding { context, path } => join4(
                "Content encoding error in ",
                path.as_str(),
                ": ",
                context.as_str(),
            ),
            PboError::CommandNotFound(m) => join2("Command not found: ", m.as_str()),
            PboError::InvalidPath(p) => join2("Invalid path: ", p.as_str()),
            PboError::Interrupted(m) => join2("Operation was interrupted: ", m.as_str()),
            PboError::PermissionDenied(p) => join2("Permission denied: ", p.as_str()),
            PboError::ResourceBusy(p) => join2("Resource busy: ", p.as_str()),
        }
    }
}

} // verus!
