use pbo_tools::error::{ExtractError, FileSystemError, PboError};

fn s(text: &str) -> String {
    text.to_string()
}

#[test]
fn extract_error_messages() {
    assert_eq!(
        ExtractError::CommandFailed { cmd: s("extractpbo"), reason: s("boom") }.to_string(),
        "Command execution failed: extractpbo - boom"
    );
    assert_eq!(ExtractError::NoFiles.to_string(), "No files were extracted");
    assert_eq!(ExtractError::BadFormat { reason: s("r") }.to_string(), "Bad PBO format: r");
    assert_eq!(ExtractError::Canceled(s("c")).to_string(), "Extraction canceled: c");
    assert_eq!(ExtractError::InvalidFile(s("f")).to_string(), "Invalid file in PBO: f");
    assert_eq!(
        ExtractError::ChecksumFailed(s("f")).to_string(),
        "Checksum verification failed for: f"
    );
}

#[test]
fn file_system_error_messages() {
    assert_eq!(
        FileSystemError::CreateDir { path: s("/a"), reason: s("denied") }.to_string(),
        "Failed to create directory /a: denied"
    );
    assert_eq!(
        FileSystemError::RemoveDir { path: s("/a"), reason: s("busy") }.to_string(),
        "Failed to remove directory /a: busy"
    );
    assert_eq!(
        FileSystemError::Rename { from: s("a.bin"), to: s("a.txt"), reason: s("x") }.to_string(),
        "Failed to rename file from a.bin to a.txt: x"
    );
    assert_eq!(
        FileSystemError::Read { path: s("/a"), reason: s("x") }.to_string(),
        "Failed to read file /a: x"
    );
    assert_eq!(
        FileSystemError::Write { path: s("/a"), reason: s("x") }.to_string(),
        "Failed to write file /a: x"
    );
    assert_eq!(
        FileSystemError::Delete { path: s("/a"), reason: s("x") }.to_string(),
        "Failed to delete file /a: x"
    );
    assert_eq!(
        FileSystemError::Copy { from: s("a"), to: s("b"), reason: s("x") }.to_string(),
        "Failed to copy file from a to b: x"
    );
    assert_eq!(FileSystemError::NotFound(s("/a")).to_string(), "Path not found: /a");
    assert_eq!(FileSystemError::AlreadyExists(s("/a")).to_string(), "Path already exists: /a");
    assert_eq!(FileSystemError::InvalidFileName(s("/a")).to_string(), "Invalid file name: /a");
    assert_eq!(FileSystemError::TempDir(s("m")).to_string(), "Temporary directory error: m");
    assert_eq!(FileSystemError::PathValidation(s("m")).to_string(), "Path validation failed: m");
}

#[test]
fn pbo_error_messages() {
    assert_eq!(
        PboError::Extraction(ExtractError::NoFiles).to_string(),
        "PBO extraction failed: No files were extracted"
    );
    assert_eq!(PboError::Timeout(30).to_string(), "Operation timed out after 30 seconds");
    assert_eq!(PboError::Timeout(0).to_string(), "Operation timed out after 0 seconds");
    assert_eq!(
        PboError::Timeout(u32::MAX).to_string(),
        "Operation timed out after 4294967295 seconds"
    );
    assert_eq!(
        PboError::FileSystem(FileSystemError::NotFound(s("/a"))).to_string(),
        "File system error: Path not found: /a"
    );
    assert_eq!(PboError::Io(s("m")).to_string(), "IO error: m");
    assert_eq!(PboError::InvalidPbo(s("m")).to_string(), "Invalid PBO format: m");
    assert_eq!(PboError::InvalidFormat(s("m")).to_string(), "Invalid format: m");
    assert_eq!(PboError::ValidationFailed(s("m")).to_string(), "Validation failed: m");
    assert_eq!(
        PboError::Encoding { context: s("why"), path: s("a/b.txt") }.to_string(),
        "Content encoding error in a/b.txt: why"
    );
    assert_eq!(PboError::CommandNotFound(s("extractpbo")).to_string(), "Command not found: extractpbo");
    assert_eq!(PboError::InvalidPath(s("/x")).to_string(), "Invalid path: /x");
    assert_eq!(PboError::Interrupted(s("m")).to_string(), "Operation was interrupted: m");
    assert_eq!(PboError::PermissionDenied(s("/x")).to_string(), "Permission denied: /x");
    assert_eq!(PboError::ResourceBusy(s("/x")).to_string(), "Resource busy: /x");
}
