//! What the archiver and its driver say to each other.

use crate::error::Fault;
use crate::error::ZipError;
use crate::options::EntryOptions;
use vstd::prelude::*;

verus! {

/// Where a visited path lies with respect to the source directory.
#[derive(Clone, Debug, PartialEq, Eq)]
pub enum Located {
    /// Under the source directory, at this relative path (empty for the
    /// source directory itself), written with the host's separators.
    Relative(String),
    /// Not under the source directory; the text says why.
    Outside(String),
    /// Under it, but the relative path is not representable as text.
    NotText,
}

/// The mathematical value of a [`Located`].
pub enum Place {
    Relative(Seq<char>),
    Outside(Seq<char>),
    NotText,
}

impl View for Located {
    type V = Place;

    open spec fn view(&self) -> Place {
        match self {
            Located::Relative(path) => Place::Relative(path@),
            Located::Outside(cause) => Place::Outside(cause@),
            Located::NotText => Place::NotText,
        }
    }
}

/// What the driver reports to the archiver.
#[derive(Clone, Debug, PartialEq, Eq)]
pub enum PackEvent {
    /// The operation starts.
    Begin,
    /// The action that was asked for succeeded.
    Completed,
    /// The action that was asked for failed; the text is the cause.
    Failed(String),
    /// The traversal yielded a path.
    Entry(Located),
    /// The traversal yielded an item that could not be read. The text is
    /// the cause; the depth says how far below the source directory the item
    /// lies, 0 for the source directory itself.
    Unreadable { cause: String, depth: usize },
    /// The traversal is over.
    Exhausted,
    /// What the filesystem says of the path under inspection: whether it is
    /// a regular file, and its permission mode if that could be read.
    Inspected { is_file: bool, mode: Option<u32> },
    /// A read returned this many bytes; none at the end of the file.
    Chunk(usize),
}

/// The mathematical value of a [`PackEvent`].
pub enum PackSignal {
    Begin,
    Completed,
    Failed(Seq<char>),
    Entry(Place),
    Unreadable { cause: Seq<char>, depth: usize },
    Exhausted,
    Inspected { is_file: bool, mode: Option<u32> },
    Chunk(usize),
}

impl View for PackEvent {
    type V = PackSignal;

    open spec fn view(&self) -> PackSignal {
        match self {
            PackEvent::Begin => PackSignal::Begin,
            PackEvent::Completed => PackSignal::Completed,
            PackEvent::Failed(cause) => PackSignal::Failed(cause@),
            PackEvent::Entry(located) => PackSignal::Entry(located@),
            PackEvent::Unreadable { cause, depth } => PackSignal::Unreadable {
                cause: cause@,
                depth: *depth,
            },
            PackEvent::Exhausted => PackSignal::Exhausted,
            PackEvent::Inspected { is_file, mode } => PackSignal::Inspected {
                is_file: *is_file,
                mode: *mode,
            },
            PackEvent::Chunk(count) => PackSignal::Chunk(*count),
        }
    }
}

/// What the archiver asks its driver to do next.
#[derive(Clone, Debug, PartialEq, Eq)]
pub enum PackAction {
    /// Create the output file at this path, behind a write buffer of this
    /// many bytes, and start an archive in it.
    CreateOutput { path: String, buffer: usize },
    /// Take the next item of the traversal.
    NextEntry,
    /// Ask the filesystem about the path that the traversal yielded last.
    Inspect,
    /// Start a file entry in the archive.
    StartFile { name: String, options: EntryOptions },
    /// Open the file that the traversal yielded last.
    OpenSource,
    /// Read from the open file into the copy buffer, which holds this many
    /// bytes.
    ReadChunk { capacity: usize },
    /// Write the first `len` bytes of the copy buffer into the archive.
    WriteChunk { len: usize },
    /// Add a directory marker to the archive.
    AddDirectory { name: String, options: EntryOptions },
    /// Finalize the archive.
    Finish,
    /// The operation succeeded; this many files were packed.
    Done { file_count: u32 },
    /// The operation failed.
    Abort(ZipError),
}

/// The mathematical value of a [`PackAction`].
pub enum PackOrder {
    CreateOutput { path: Seq<char>, buffer: usize },
    NextEntry,
    Inspect,
    StartFile { name: Seq<char>, options: EntryOptions },
    OpenSource,
    ReadChunk { capacity: usize },
    WriteChunk { len: usize },
    AddDirectory { name: Seq<char>, options: EntryOptions },
    Finish,
    Done { file_count: nat },
    Abort(Fault),
}

impl View for PackAction {
    type V = PackOrder;

    open spec fn view(&self) -> PackOrder {
        match self {
            PackAction::CreateOutput { path, buffer } => PackOrder::CreateOutput {
                path: path@,
                buffer: *buffer,
            },
            PackAction::NextEntry => PackOrder::NextEntry,
            PackAction::Inspect => PackOrder::Inspect,
            PackAction::StartFile { name, options } => PackOrder::StartFile {
                name: name@,
                options: *options,
            },
            PackAction::OpenSource => PackOrder::OpenSource,
            PackAction::ReadChunk { capacity } => PackOrder::ReadChunk { capacity: *capacity },
            PackAction::WriteChunk { len } => PackOrder::WriteChunk { len: *len },
            PackAction::AddDirectory { name, options } => PackOrder::AddDirectory {
                name: name@,
                options: *options,
            },
            PackAction::Finish => PackOrder::Finish,
            PackAction::Done { file_count } => PackOrder::Done { file_count: *file_count as nat },
            PackAction::Abort(error) => PackOrder::Abort(error@),
        }
    }
}

} // verus!
