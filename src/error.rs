//! The library's error taxonomy.
use vstd::prelude::*;

verus! {

/// Every fatal way an extraction can end.
pub enum ExtractError {
    /// The archive file is missing or cannot be opened.
    SourceUnreadable { path: String },
    /// The output directory cannot be created.
    DestinationUnwritable { path: String },
    /// No known suffix matched the archive's file name.
    UnsupportedFormat,
    /// The compressed byte stream is malformed, truncated or corrupt.
    CodecError { detail: String },
    /// The container's structure is corrupt while reading its entries.
    EntryReadError { detail: String },
    /// Creating a directory or file, or copying content, failed.
    EntryWriteError { path: String, detail: String },
    /// An entry's stored path is absolute or climbs out of the output directory.
    UnsafeEntryPath { path: String },
}

/// The one-line text of an error.
pub open spec fn message_text(e: ExtractError) -> Seq<char> {
    match e {
        ExtractError::SourceUnreadable { path } => "Cannot open file: "@ + path@,
        ExtractError::DestinationUnwritable { path } => "Cannot create directory: "@ + path@,
        ExtractError::UnsupportedFormat => unsupported_text(),
        ExtractError::CodecError { detail } => "Cannot decompress archive: "@ + detail@,
        ExtractError::EntryReadError { detail } => "Cannot read archive entry: "@ + detail@,
        ExtractError::EntryWriteError { path, detail } => "Cannot write "@ + path@ + ": "@
            + detail@,
        ExtractError::UnsafeEntryPath { path } => "Entry path leaves the output directory: "@
            + path@,
    }
}

/// The message for an unknown suffix, which lists the known ones.
pub open spec fn unsupported_text() -> Seq<char> {
    "Unsupported archive format. Please use a known extension (.tar, .tar.gz, .tgz, .tar.xz, .tar.bz2, .zip)"@
}

fn joined(head: &str, tail: &String) -> (r: String)
    ensures
        r@ == head@ + tail@,
{
    let mut s = String::from_str(head);
    s.append(tail.as_str());
    s
}

impl ExtractError {
    /// The one-line text printed for this error.
    pub fn message(&self) -> (r: String)
        ensures
            r@ == message_text(*self),
    {
        match self {
            ExtractError::SourceUnreadable { path } => joined("Cannot open file: ", path),
            ExtractError::DestinationUnwritable { path } => joined("Cannot create directory: ", path),
            ExtractError::UnsupportedFormat => String::from_str(
                "Unsupported archive format. Please use a known extension (.tar, .tar.gz, .tgz, .tar.xz, .tar.bz2, .zip)",
            ),
            ExtractError::CodecError { detail } => joined("Cannot decompress archive: ", detail),
            ExtractError::EntryReadError { detail } => joined("Cannot read archive entry: ", detail),
            ExtractError::EntryWriteError { path, detail } => {
                let mut s = joined("Cannot write ", path);
                s.append(": ");
                s.append(detail.as_str());
                s
            },
            ExtractError::UnsafeEntryPath { path } => joined(
                "Entry path leaves the output directory: ",
                path,
            ),
        }
    }
}

/// The process exit status for an extraction outcome: 0 on success, 1 on any error.
pub fn exit_code(outcome: &Result<(), ExtractError>) -> (r: i32)
    ensures
        outcome is Ok ==> r == 0,
        outcome is Err ==> r == 1,
{
    match outcome {
        Ok(()) => 0,
        Err(_) => 1,
    }
}

} // verus!
