//! The failures that either pipeline reports, and the message each one carries.

use vstd::prelude::*;
use vstd::string::StringExecFns;

verus! {

/// What went wrong. Each variant names the step that failed.
#[derive(Clone, Copy, Debug, PartialEq, Eq, Structural)]
pub enum Failure {
    /// The compression level lies outside 0..=9.
    LevelOutOfRange,
    /// The output file could not be created.
    CreateOutput,
    /// The source directory is missing or could not be read.
    Traversal,
    /// A visited path does not lie under the source directory.
    PathResolution,
    /// A visited path is not representable as text.
    InvalidPath,
    /// A file entry could not be started in the archive.
    WriteEntry,
    /// A source file could not be opened.
    OpenSource,
    /// Reading a source file failed part-way.
    ReadSource,
    /// Writing file content into the archive failed.
    WriteData,
    /// A directory marker could not be added to the archive.
    AddDirectory,
    /// The archive could not be finalized.
    Finalize,
    /// The archive file could not be opened.
    OpenArchive,
    /// The archive file is not a valid container.
    ReadArchive,
    /// An entry of the archive could not be read.
    ReadEntry,
    /// A directory could not be created.
    CreateDirectory,
    /// The parent directory of a file could not be created.
    CreateParent,
    /// An output file could not be created.
    CreateFile,
    /// The content of an entry could not be decompressed or written out.
    Decompress,
    /// The permission bits could not be applied.
    SetPermissions,
    /// The driver reported something that answers no pending request.
    Unexpected,
}

/// The mathematical value of a [`ZipError`].
pub struct Fault {
    pub kind: Failure,
    pub detail: Seq<char>,
}

/// A failure together with the detail that its message ends with: the cause
/// as the host worded it, or the offending value.
#[derive(Clone, Debug, PartialEq, Eq)]
pub struct ZipError {
    pub kind: Failure,
    pub detail: String,
}

impl View for ZipError {
    type V = Fault;

    open spec fn view(&self) -> Fault {
        Fault { kind: self.kind, detail: self.detail@ }
    }
}

/// The fixed text that a message of the given kind begins with.
pub open spec fn prefix_text(kind: Failure) -> Seq<char> {
    match kind {
        Failure::LevelOutOfRange => "Compression level must be between 0 and 9 (current: "@,
        Failure::CreateOutput => "Failed to create zip file: "@,
        Failure::Traversal => "Failed to read source directory: "@,
        Failure::PathResolution => "Path resolution error: "@,
        Failure::InvalidPath => "Path contains invalid characters"@,
        Failure::WriteEntry => "Failed to write zip entry: "@,
        Failure::OpenSource => "Failed to read source file: "@,
        Failure::ReadSource => "File stream read interrupted: "@,
        Failure::WriteData => "Failed to write data: "@,
        Failure::AddDirectory => "Failed to add directory: "@,
        Failure::Finalize => "Zip finalization failed: "@,
        Failure::OpenArchive => "Failed to open zip file: "@,
        Failure::ReadArchive => "Failed to read zip archive: "@,
        Failure::ReadEntry => "Failed to read zip entry: "@,
        Failure::CreateDirectory => "Failed to create directory: "@,
        Failure::CreateParent => "Failed to create parent directory: "@,
        Failure::CreateFile => "Failed to create output file: "@,
        Failure::Decompress => "Failed to decompress file content: "@,
        Failure::SetPermissions => "Failed to set file permissions: "@,
        Failure::Unexpected => "Unexpected event"@,
    }
}

/// The fixed text that a message of the given kind ends with.
pub open spec fn suffix_text(kind: Failure) -> Seq<char> {
    match kind {
        Failure::LevelOutOfRange => ")"@,
        _ => ""@,
    }
}

/// The whole message: prefix, detail, suffix.
pub open spec fn message_text(fault: Fault) -> Seq<char> {
    prefix_text(fault.kind) + fault.detail + suffix_text(fault.kind)
}

fn prefix(kind: Failure) -> (r: &'static str)
    ensures
        r@ == prefix_text(kind),
{
    match kind {
        Failure::LevelOutOfRange => "Compression level must be between 0 and 9 (current: ",
        Failure::CreateOutput => "Failed to create zip file: ",
        Failure::Traversal => "Failed to read source directory: ",
        Failure::PathResolution => "Path resolution error: ",
        Failure::InvalidPath => "Path contains invalid characters",
        Failure::WriteEntry => "Failed to write zip entry: ",
        Failure::OpenSource => "Failed to read source file: ",
        Failure::ReadSource => "File stream read interrupted: ",
        Failure::WriteData => "Failed to write data: ",
        Failure::AddDirectory => "Failed to add directory: ",
        Failure::Finalize => "Zip finalization failed: ",
        Failure::OpenArchive => "Failed to open zip file: ",
        Failure::ReadArchive => "Failed to read zip archive: ",
        Failure::ReadEntry => "Failed to read zip entry: ",
        Failure::CreateDirectory => "Failed to create directory: ",
        Failure::CreateParent => "Failed to create parent directory: ",
        Failure::CreateFile => "Failed to create output file: ",
        Failure::Decompress => "Failed to decompress file content: ",
        Failure::SetPermissions => "Failed to set file permissions: ",
        Failure::Unexpected => "Unexpected event",
    }
}

fn suffix(kind: Failure) -> (r: &'static str)
    ensures
        r@ == suffix_text(kind),
{
    match kind {
        Failure::LevelOutOfRange => ")",
        _ => "",
    }
}

impl ZipError {
    /// A failure of the given kind with the given detail.
    pub fn new(kind: Failure, detail: String) -> (r: ZipError)
        ensures
            r@ == (Fault { kind, detail: detail@ }),
    {
        ZipError { kind, detail }
    }

    /// A failure that carries no detail.
    pub fn bare(kind: Failure) -> (r: ZipError)
        ensures
            r@ == (Fault { kind, detail: Seq::<char>::empty() }),
    {
        ZipError { kind, detail: String::new() }
    }

    /// A copy of this failure.
    pub fn duplicate(&self) -> (r: ZipError)
        ensures
            r@ == self@,
    {
        ZipError { kind: self.kind, detail: self.detail.clone() }
    }

    /// The human-readable message.
    pub fn message(&self) -> (r: String)
        ensures
            r@ == message_text(self@),
    {
        let mut out = String::from_str(prefix(self.kind));
        out.append(self.detail.as_str());
        out.append(suffix(self.kind));
        out
    }
}

} // verus!
