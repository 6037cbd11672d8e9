//! What the extractor and its driver say to each other.

use crate::error::Fault;
use crate::error::ZipError;
use vstd::prelude::*;

verus! {

/// What the archive codec says of one stored entry.
#[derive(Clone, Debug, PartialEq, Eq)]
pub struct StoredEntry {
    /// The name as it is stored.
    pub name: String,
    /// The stored name as a relative path that cannot leave the directory it
    /// is joined to, where the codec finds the name safe; absent where it
    /// does not.
    pub enclosed: Option<String>,
    /// The Unix permission mode that the entry carries, if any.
    pub unix_mode: Option<u32>,
}

/// The mathematical value of a [`StoredEntry`].
pub struct Record {
    pub name: Seq<char>,
    pub enclosed: Option<Seq<char>>,
    pub unix_mode: Option<u32>,
}

impl View for StoredEntry {
    type V = Record;

    open spec fn view(&self) -> Record {
        Record {
            name: self.name@,
            enclosed: match self.enclosed {
                Some(path) => Some(path@),
                None => None,
            },
            unix_mode: self.unix_mode,
        }
    }
}

/// What the driver reports to the extractor.
#[derive(Clone, Debug, PartialEq, Eq)]
pub enum UnpackEvent {
    /// The operation starts.
    Begin,
    /// The action that was asked for succeeded.
    Completed,
    /// The action that was asked for failed; the text is the cause.
    Failed(String),
    /// The archive was parsed; it holds this many entries.
    Parsed { entries: usize },
    /// The entry that was asked for.
    Stored(StoredEntry),
}

/// The mathematical value of an [`UnpackEvent`].
pub enum UnpackSignal {
    Begin,
    Completed,
    Failed(Seq<char>),
    Parsed { entries: usize },
    Stored(Record),
}

impl View for UnpackEvent {
    type V = UnpackSignal;

    open spec fn view(&self) -> UnpackSignal {
        match self {
            UnpackEvent::Begin => UnpackSignal::Begin,
            UnpackEvent::Completed => UnpackSignal::Completed,
            UnpackEvent::Failed(cause) => UnpackSignal::Failed(cause@),
            UnpackEvent::Parsed { entries } => UnpackSignal::Parsed { entries: *entries },
            UnpackEvent::Stored(entry) => UnpackSignal::Stored(entry@),
        }
    }
}

/// What the extractor asks its driver to do next. A target is named by the
/// output directory and a path relative to it; the driver joins the two.
#[derive(Clone, Debug, PartialEq, Eq)]
pub enum UnpackAction {
    /// Open the archive file at this path.
    OpenArchive { path: String },
    /// Parse the open file as an archive and load its index.
    ParseArchive,
    /// Read the entry at this position of the stored order.
    ReadEntry { index: usize },
    /// Create the directory and its missing ancestors.
    CreateDirectory { root: String, relative: String },
    /// Create the parent directory of the file, and its missing ancestors,
    /// unless it exists.
    EnsureParent { root: String, relative: String },
    /// Create the file, or empty it if it exists.
    CreateFile { root: String, relative: String },
    /// Copy the decompressed content of the current entry into the file
    /// just created.
    CopyContent,
    /// Apply the permission mode to what was just created.
    SetPermissions { root: String, relative: String, mode: u32 },
    /// The operation succeeded.
    Done,
    /// The operation failed.
    Abort(ZipError),
}

/// The mathematical value of an [`UnpackAction`].
pub enum UnpackOrder {
    OpenArchive { path: Seq<char> },
    ParseArchive,
    ReadEntry { index: usize },
    CreateDirectory { root: Seq<char>, relative: Seq<char> },
    EnsureParent { root: Seq<char>, relative: Seq<char> },
    CreateFile { root: Seq<char>, relative: Seq<char> },
    CopyContent,
    SetPermissions { root: Seq<char>, relative: Seq<char>, mode: u32 },
    Done,
    Abort(Fault),
}

impl View for UnpackAction {
    type V = UnpackOrder;

    open spec fn view(&self) -> UnpackOrder {
        match self {
            UnpackAction::OpenArchive { path } => UnpackOrder::OpenArchive { path: path@ },
            UnpackAction::ParseArchive => UnpackOrder::ParseArchive,
            UnpackAction::ReadEntry { index } => UnpackOrder::ReadEntry { index: *index },
            UnpackAction::CreateDirectory { root, relative } => UnpackOrder::CreateDirectory {
                root: root@,
                relative: relative@,
            },
            UnpackAction::EnsureParent { root, relative } => UnpackOrder::EnsureParent {
                root: root@,
                relative: relative@,
            },
            UnpackAction::CreateFile { root, relative } => UnpackOrder::CreateFile {
                root: root@,
                relative: relative@,
            },
            UnpackAction::CopyContent => UnpackOrder::CopyContent,
            UnpackAction::SetPermissions { root, relative, mode } => UnpackOrder::SetPermissions {
                root: root@,
                relative: relative@,
                mode: *mode,
            },
            UnpackAction::Done => UnpackOrder::Done,
            UnpackAction::Abort(error) => UnpackOrder::Abort(error@),
        }
    }
}

} // verus!
