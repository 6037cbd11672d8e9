//! The extractor's states and its transition function.

use crate::error::Failure;
use crate::error::Fault;
use crate::error::ZipError;
use crate::extractor::protocol::Record;
use crate::extractor::protocol::StoredEntry;
use crate::extractor::protocol::UnpackAction;
use crate::extractor::protocol::UnpackEvent;
use crate::extractor::protocol::UnpackOrder;
use crate::extractor::protocol::UnpackSignal;
use crate::extractor::task::UncompressTask;
use crate::names::is_directory_name;
use crate::names::names_directory;
use crate::platform::Platform;
use vstd::prelude::*;

verus! {

/// What the extractor is waiting for.
#[derive(Clone, Copy, Debug, PartialEq, Eq, Structural)]
pub enum UnpackPhase {
    /// Nothing has been asked for yet.
    Idle,
    /// The archive file is being opened.
    Opening,
    /// The archive is being parsed.
    Parsing,
    /// An entry is being read from the archive.
    Fetching,
    /// The directory of the current entry is being created.
    MakingDirectory,
    /// The parent directory of the current file is being made sure of.
    PreparingParent,
    /// The file of the current entry is being created.
    CreatingFile,
    /// The content of the current entry is being copied out.
    Copying,
    /// The permission mode of the current entry is being applied.
    Restoring,
    /// The operation has succeeded.
    Done,
}

/// The mathematical value of an [`Extractor`].
pub struct UnpackState {
    /// What the extractor is waiting for, unless it has failed.
    pub phase: UnpackPhase,
    /// The failure that ended the operation, if one did.
    pub failure: Option<Fault>,
    /// The path of the archive.
    pub source_path: Seq<char>,
    /// The directory that is filled.
    pub output_dir: Seq<char>,
    /// The host's capabilities.
    pub platform: Platform,
    /// The number of entries in the archive, once it is parsed.
    pub entries: usize,
    /// The position of the current entry in the stored order.
    pub index: usize,
    /// The path of the current entry, relative to the output directory.
    pub target: Seq<char>,
    /// The permission mode to apply to the current entry, if any.
    pub mode: Option<u32>,
}

/// The state in which the operation has failed, and the action that reports it.
pub open spec fn fail(s: UnpackState, kind: Failure, detail: Seq<char>) -> (
    UnpackState,
    UnpackOrder,
) {
    let fault = Fault { kind, detail };
    (UnpackState { failure: Some(fault), ..s }, UnpackOrder::Abort(fault))
}

/// The state that waits in `phase`, and the action that was asked for.
pub open spec fn go(s: UnpackState, phase: UnpackPhase, order: UnpackOrder) -> (
    UnpackState,
    UnpackOrder,
) {
    (UnpackState { phase, ..s }, order)
}

/// Asks for the entry at the current position, or ends the operation where
/// the position is past the last entry.
pub open spec fn fetch(s: UnpackState) -> (UnpackState, UnpackOrder) {
    if s.index < s.entries {
        go(s, UnpackPhase::Fetching, UnpackOrder::ReadEntry { index: s.index })
    } else {
        go(s, UnpackPhase::Done, UnpackOrder::Done)
    }
}

/// Moves on to the entry after the current one.
pub open spec fn proceed(s: UnpackState) -> (UnpackState, UnpackOrder) {
    if s.index < s.entries {
        fetch(UnpackState { index: (s.index + 1) as usize, ..s })
    } else {
        fetch(s)
    }
}

/// What the extractor does with a stored entry. One whose name the codec
/// does not find safe is passed over. Of the others, a name that ends with a
/// slash gives a directory, any other a file, at the enclosed path under the
/// output directory; the permission mode is kept for later where the host
/// has permission bits.
pub open spec fn place(s: UnpackState, record: Record) -> (UnpackState, UnpackOrder) {
    match record.enclosed {
        None => proceed(s),
        Some(relative) => {
            let kept = UnpackState {
                target: relative,
                mode: s.platform.mode_of(record.unix_mode),
                ..s
            };
            if names_directory(record.name) {
                go(
                    kept,
                    UnpackPhase::MakingDirectory,
                    UnpackOrder::CreateDirectory { root: s.output_dir, relative },
                )
            } else {
                go(
                    kept,
                    UnpackPhase::PreparingParent,
                    UnpackOrder::EnsureParent { root: s.output_dir, relative },
                )
            }
        },
    }
}

/// What the extractor does once the directory or file of an entry stands:
/// it applies the permission mode that was kept, or moves on where none was.
pub open spec fn restore(s: UnpackState) -> (UnpackState, UnpackOrder) {
    match s.mode {
        Some(mode) => go(
            s,
            UnpackPhase::Restoring,
            UnpackOrder::SetPermissions { root: s.output_dir, relative: s.target, mode },
        ),
        None => proceed(s),
    }
}

/// The transition function: the state after `signal` and the action to take.
pub open spec fn unpack_step(s: UnpackState, signal: UnpackSignal) -> (UnpackState, UnpackOrder) {
    if s.failure is Some {
        (s, UnpackOrder::Abort(s.failure->0))
    } else {
        match (s.phase, signal) {
            (UnpackPhase::Done, _) => (s, UnpackOrder::Done),
            (UnpackPhase::Idle, UnpackSignal::Begin) => go(
                s,
                UnpackPhase::Opening,
                UnpackOrder::OpenArchive { path: s.source_path },
            ),
            (UnpackPhase::Opening, UnpackSignal::Completed) => go(
                s,
                UnpackPhase::Parsing,
                UnpackOrder::ParseArchive,
            ),
            (UnpackPhase::Opening, UnpackSignal::Failed(cause)) => fail(
                s,
                Failure::OpenArchive,
                cause,
            ),
            (UnpackPhase::Parsing, UnpackSignal::Parsed { entries }) => fetch(
                UnpackState { entries, index: 0, ..s },
            ),
            (UnpackPhase::Parsing, UnpackSignal::Failed(cause)) => fail(
                s,
                Failure::ReadArchive,
                cause,
            ),
            (UnpackPhase::Fetching, UnpackSignal::Stored(record)) => place(s, record),
            (UnpackPhase::Fetching, UnpackSignal::Failed(cause)) => fail(
                s,
                Failure::ReadEntry,
                cause,
            ),
            (UnpackPhase::MakingDirectory, UnpackSignal::Completed) => restore(s),
            (UnpackPhase::MakingDirectory, UnpackSignal::Failed(cause)) => fail(
                s,
                Failure::CreateDirectory,
                cause,
            ),
            (UnpackPhase::PreparingParent, UnpackSignal::Completed) => go(
                s,
                UnpackPhase::CreatingFile,
                UnpackOrder::CreateFile { root: s.output_dir, relative: s.target },
            ),
            (UnpackPhase::PreparingParent, UnpackSignal::Failed(cause)) => fail(
                s,
                Failure::CreateParent,
                cause,
            ),
            (UnpackPhase::CreatingFile, UnpackSignal::Completed) => go(
                s,
                UnpackPhase::Copying,
                UnpackOrder::CopyContent,
            ),
            (UnpackPhase::CreatingFile, UnpackSignal::Failed(cause)) => fail(
                s,
                Failure::CreateFile,
                cause,
            ),
            (UnpackPhase::Copying, UnpackSignal::Completed) => restore(s),
            (UnpackPhase::Copying, UnpackSignal::Failed(cause)) => fail(
                s,
                Failure::Decompress,
                cause,
            ),
            (UnpackPhase::Restoring, UnpackSignal::Completed) => proceed(s),
            (UnpackPhase::Restoring, UnpackSignal::Failed(cause)) => fail(
                s,
                Failure::SetPermissions,
                cause,
            ),
            _ => fail(s, Failure::Unexpected, Seq::empty()),
        }
    }
}

/// The state in which an operation starts.
pub open spec fn initial(source_path: Seq<char>, output_dir: Seq<char>, platform: Platform) -> UnpackState {
    UnpackState {
        phase: UnpackPhase::Idle,
        failure: None,
        source_path,
        output_dir,
        platform,
        entries: 0,
        index: 0,
        target: Seq::empty(),
        mode: None,
    }
}

/// The extractor of one unpack operation.
pub struct Extractor {
    phase: UnpackPhase,
    failure: Option<ZipError>,
    source_path: String,
    output_dir: String,
    platform: Platform,
    entries: usize,
    index: usize,
    target: String,
    mode: Option<u32>,
}

impl View for Extractor {
    type V = UnpackState;

    closed spec fn view(&self) -> UnpackState {
        UnpackState {
            phase: self.phase,
            failure: match self.failure {
                Some(error) => Some(error@),
                None => None,
            },
            source_path: self.source_path@,
            output_dir: self.output_dir@,
            platform: self.platform,
            entries: self.entries,
            index: self.index,
            target: self.target@,
            mode: self.mode,
        }
    }
}

impl Extractor {
    /// The extractor of a task on a host: idle, before the first entry.
    pub fn new(task: &UncompressTask, platform: Platform) -> (r: Extractor)
        ensures
            r@ == initial(task.source_path@, task.output_dir@, platform),
    {
        Extractor {
            phase: UnpackPhase::Idle,
            failure: None,
            source_path: task.source_path.clone(),
            output_dir: task.output_dir.clone(),
            platform,
            entries: 0,
            index: 0,
            target: String::new(),
            mode: None,
        }
    }

    /// What the extractor is waiting for.
    pub fn phase(&self) -> (r: UnpackPhase)
        ensures
            r == self@.phase,
    {
        self.phase
    }

    /// Whether the operation has failed.
    pub fn has_failed(&self) -> (r: bool)
        ensures
            r == (self@.failure is Some),
    {
        self.failure.is_some()
    }

    /// The position of the current entry in the stored order.
    pub fn index(&self) -> (r: usize)
        ensures
            r == self@.index,
    {
        self.index
    }

    fn fail(&mut self, kind: Failure, detail: String) -> (action: UnpackAction)
        ensures
            (final(self)@, action@) == fail(old(self)@, kind, detail@),
    {
        self.failure = Some(ZipError::new(kind, detail.clone()));
        UnpackAction::Abort(ZipError::new(kind, detail))
    }

    fn go(&mut self, phase: UnpackPhase, action: UnpackAction) -> (r: UnpackAction)
        ensures
            (final(self)@, r@) == go(old(self)@, phase, action@),
    {
        self.phase = phase;
        action
    }

    fn fetch(&mut self) -> (action: UnpackAction)
        ensures
            (final(self)@, action@) == fetch(old(self)@),
    {
        if self.index < self.entries {
            self.phase = UnpackPhase::Fetching;
            UnpackAction::ReadEntry { index: self.index }
        } else {
            self.phase = UnpackPhase::Done;
            UnpackAction::Done
        }
    }

    fn proceed(&mut self) -> (action: UnpackAction)
        ensures
            (final(self)@, action@) == proceed(old(self)@),
    {
        if self.index < self.entries {
            self.index = self.index + 1;
        }
        self.fetch()
    }

    fn place(&mut self, entry: StoredEntry) -> (action: UnpackAction)
        ensures
            (final(self)@, action@) == place(old(self)@, entry@),
    {
        match entry.enclosed {
            None => self.proceed(),
            Some(relative) => {
                let root = self.output_dir.clone();
                let directory = is_directory_name(entry.name.as_str());
                self.mode = self.platform.mode(entry.unix_mode);
                self.target = relative.clone();
                if directory {
                    self.phase = UnpackPhase::MakingDirectory;
                    UnpackAction::CreateDirectory { root, relative }
                } else {
                    self.phase = UnpackPhase::PreparingParent;
                    UnpackAction::EnsureParent { root, relative }
                }
            },
        }
    }

    fn restore(&mut self) -> (action: UnpackAction)
        ensures
            (final(self)@, action@) == restore(old(self)@),
    {
        match self.mode {
            Some(mode) => {
                self.phase = UnpackPhase::Restoring;
                UnpackAction::SetPermissions {
                    root: self.output_dir.clone(),
                    relative: self.target.clone(),
                    mode,
                }
            },
            None => self.proceed(),
        }
    }

    /// Takes one step: the transition function itself.
    pub fn step(&mut self, event: UnpackEvent) -> (action: UnpackAction)
        ensures
            (final(self)@, action@) == unpack_step(old(self)@, event@),
    {
        if let Some(error) = &self.failure {
            return UnpackAction::Abort(error.duplicate());
        }
        match (self.phase, event) {
            (UnpackPhase::Done, _) => UnpackAction::Done,
            (UnpackPhase::Idle, UnpackEvent::Begin) => {
                let path = self.source_path.clone();
                self.go(UnpackPhase::Opening, UnpackAction::OpenArchive { path })
            },
            (UnpackPhase::Opening, UnpackEvent::Completed) => self.go(
                UnpackPhase::Parsing,
                UnpackAction::ParseArchive,
            ),
            (UnpackPhase::Opening, UnpackEvent::Failed(cause)) => self.fail(
                Failure::OpenArchive,
                cause,
            ),
            (UnpackPhase::Parsing, UnpackEvent::Parsed { entries }) => {
                self.entries = entries;
                self.index = 0;
                self.fetch()
            },
            (UnpackPhase::Parsing, UnpackEvent::Failed(cause)) => self.fail(
                Failure::ReadArchive,
                cause,
            ),
            (UnpackPhase::Fetching, UnpackEvent::Stored(entry)) => self.place(entry),
            (UnpackPhase::Fetching, UnpackEvent::Failed(cause)) => self.fail(
                Failure::ReadEntry,
                cause,
            ),
            (UnpackPhase::MakingDirectory, UnpackEvent::Completed) => self.restore(),
            (UnpackPhase::MakingDirectory, UnpackEvent::Failed(cause)) => self.fail(
                Failure::CreateDirectory,
                cause,
            ),
            (UnpackPhase::PreparingParent, UnpackEvent::Completed) => {
                let root = self.output_dir.clone();
                let relative = self.target.clone();
                self.go(UnpackPhase::CreatingFile, UnpackAction::CreateFile { root, relative })
            },
            (UnpackPhase::PreparingParent, UnpackEvent::Failed(cause)) => self.fail(
                Failure::CreateParent,
                cause,
            ),
            (UnpackPhase::CreatingFile, UnpackEvent::Completed) => self.go(
                UnpackPhase::Copying,
                UnpackAction::CopyContent,
            ),
            (UnpackPhase::CreatingFile, UnpackEvent::Failed(cause)) => self.fail(
                Failure::CreateFile,
                cause,
            ),
            (UnpackPhase::Copying, UnpackEvent::Completed) => self.restore(),
            (UnpackPhase::Copying, UnpackEvent::Failed(cause)) => self.fail(
                Failure::Decompress,
                cause,
            ),
            (UnpackPhase::Restoring, UnpackEvent::Completed) => self.proceed(),
            (UnpackPhase::Restoring, UnpackEvent::Failed(cause)) => self.fail(
                Failure::SetPermissions,
                cause,
            ),
            _ => self.fail(Failure::Unexpected, String::new()),
        }
    }
}

} // verus!
