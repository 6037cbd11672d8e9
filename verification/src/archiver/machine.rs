//! The archiver's states and its transition function.

use crate::archiver::protocol::Located;
use crate::archiver::protocol::PackAction;
use crate::archiver::protocol::PackEvent;
use crate::archiver::protocol::PackOrder;
use crate::archiver::protocol::PackSignal;
use crate::archiver::protocol::Place;
use crate::archiver::task::CompressTask;
use crate::error::Failure;
use crate::error::Fault;
use crate::error::ZipError;
use crate::exclude::compiled_from;
use crate::exclude::verdict_allowed;
use crate::exclude::ExcludeSet;
use crate::names::normalize;
use crate::names::with_slashes;
use crate::options::entry_options;
use crate::options::exclude_texts;
use crate::options::resolved;
use crate::options::EntryOptions;
use crate::platform::Platform;
use vstd::prelude::*;

verus! {

/// The size of the buffer that stands before the output file, in bytes.
pub const WRITE_BUFFER: usize = 65536;

/// The size of the buffer that file content is copied through, in bytes.
pub const COPY_BUFFER: usize = 65536;

/// What the archiver is waiting for.
#[derive(Clone, Copy, Debug, PartialEq, Eq, Structural)]
pub enum PackPhase {
    /// Nothing has been asked for yet.
    Idle,
    /// The output file is being created.
    Creating,
    /// The next item of the traversal is being fetched.
    Walking,
    /// The filesystem is being asked about the current path.
    Inspecting,
    /// A file entry is being started in the archive.
    Starting,
    /// The current file is being opened.
    Opening,
    /// A chunk of the current file is being read.
    Reading,
    /// A chunk is being written into the archive.
    Writing,
    /// A directory marker is being added to the archive.
    Marking,
    /// The archive is being finalized.
    Finishing,
    /// The operation has succeeded.
    Done,
}

/// The mathematical value of an [`Archiver`].
pub struct PackState {
    /// What the archiver is waiting for, unless it has failed.
    pub phase: PackPhase,
    /// The failure that ended the operation, if one did.
    pub failure: Option<Fault>,
    /// The path of the archive.
    pub output_path: Seq<char>,
    /// The texts of the compiled exclusion patterns.
    pub patterns: Seq<Seq<char>>,
    /// The compression level handed to the codec.
    pub level: i64,
    /// The host's capabilities.
    pub platform: Platform,
    /// Whether the traversal has yielded an item yet.
    pub walked: bool,
    /// The number of files packed so far.
    pub file_count: nat,
    /// The stored name of the entry that is being handled.
    pub pending: Seq<char>,
}

/// The state in which the operation has failed with `fault`, and the action
/// that reports it.
pub open spec fn fail(s: PackState, kind: Failure, detail: Seq<char>) -> (PackState, PackOrder) {
    let fault = Fault { kind, detail };
    (PackState { failure: Some(fault), ..s }, PackOrder::Abort(fault))
}

/// The state that waits in `phase`, and the action that was asked for.
pub open spec fn go(s: PackState, phase: PackPhase, order: PackOrder) -> (PackState, PackOrder) {
    (PackState { phase, ..s }, order)
}

/// The options that the entries of this operation are written with.
pub open spec fn options_for(s: PackState, mode: Option<u32>) -> EntryOptions {
    entry_options(s.level, s.platform, mode)
}

/// What the archiver does with a path under the source directory: an
/// excluded one is passed over, any other is inspected under its stored name.
pub open spec fn receive(s: PackState, relative: Seq<char>, excluded: bool) -> (
    PackState,
    PackOrder,
) {
    if excluded {
        (PackState { phase: PackPhase::Walking, walked: true, ..s }, PackOrder::NextEntry)
    } else {
        (
            PackState {
                phase: PackPhase::Inspecting,
                walked: true,
                pending: with_slashes(relative, s.platform.separator),
                ..s
            },
            PackOrder::Inspect,
        )
    }
}

/// An item that cannot be read is fatal where it stands for the source
/// directory: where it is the first item of the traversal, or lies at depth 0.
pub open spec fn is_source(s: PackState, depth: usize) -> bool {
    !s.walked || depth == 0
}

/// What the archiver does with an item that could not be read: a missing or
/// unreadable source directory fails the operation with the cause, and an
/// unreadable item below it is passed over.
pub open spec fn stumble(s: PackState, cause: Seq<char>, depth: usize) -> (PackState, PackOrder) {
    if is_source(s, depth) {
        fail(s, Failure::Traversal, cause)
    } else {
        go(s, PackPhase::Walking, PackOrder::NextEntry)
    }
}

/// What the archiver does with an inspected path: a file is started in the
/// archive, a directory other than the source directory itself gets a marker,
/// and the source directory is passed over.
pub open spec fn classify(s: PackState, is_file: bool, mode: Option<u32>) -> (PackState, PackOrder) {
    if is_file {
        go(
            s,
            PackPhase::Starting,
            PackOrder::StartFile { name: s.pending, options: options_for(s, mode) },
        )
    } else if s.pending.len() > 0 {
        go(
            s,
            PackPhase::Marking,
            PackOrder::AddDirectory { name: s.pending, options: options_for(s, mode) },
        )
    } else {
        go(s, PackPhase::Walking, PackOrder::NextEntry)
    }
}

/// What the archiver does with the result of a read: nothing read ends the
/// file, which is then counted; anything that fits the buffer is written.
pub open spec fn copy(s: PackState, count: usize) -> (PackState, PackOrder) {
    if count == 0 {
        (
            PackState { phase: PackPhase::Walking, file_count: s.file_count + 1, ..s },
            PackOrder::NextEntry,
        )
    } else if count <= COPY_BUFFER {
        go(s, PackPhase::Writing, PackOrder::WriteChunk { len: count })
    } else {
        fail(s, Failure::Unexpected, Seq::empty())
    }
}

/// The transition function: the state after `signal` and the action to take.
/// `excluded` is the verdict of the exclusion patterns on the stored name of
/// the path that the signal brings, and matters for no other signal.
pub open spec fn pack_step(s: PackState, signal: PackSignal, excluded: bool) -> (
    PackState,
    PackOrder,
) {
    if s.failure is Some {
        (s, PackOrder::Abort(s.failure->0))
    } else {
        match (s.phase, signal) {
            (PackPhase::Done, _) => (s, PackOrder::Done { file_count: s.file_count }),
            (PackPhase::Idle, PackSignal::Begin) => go(
                s,
                PackPhase::Creating,
                PackOrder::CreateOutput { path: s.output_path, buffer: WRITE_BUFFER },
            ),
            (PackPhase::Creating, PackSignal::Completed) => go(
                s,
                PackPhase::Walking,
                PackOrder::NextEntry,
            ),
            (PackPhase::Creating, PackSignal::Failed(cause)) => fail(
                s,
                Failure::CreateOutput,
                cause,
            ),
            (PackPhase::Walking, PackSignal::Entry(Place::Relative(relative))) => receive(
                s,
                relative,
                excluded,
            ),
            (PackPhase::Walking, PackSignal::Entry(Place::Outside(cause))) => fail(
                s,
                Failure::PathResolution,
                cause,
            ),
            (PackPhase::Walking, PackSignal::Entry(Place::NotText)) => fail(
                s,
                Failure::InvalidPath,
                Seq::empty(),
            ),
            (PackPhase::Walking, PackSignal::Unreadable { cause, depth }) => stumble(
                s,
                cause,
                depth,
            ),
            (PackPhase::Walking, PackSignal::Exhausted) => go(
                s,
                PackPhase::Finishing,
                PackOrder::Finish,
            ),
            (PackPhase::Inspecting, PackSignal::Inspected { is_file, mode }) => classify(
                s,
                is_file,
                mode,
            ),
            (PackPhase::Starting, PackSignal::Completed) => go(
                s,
                PackPhase::Opening,
                PackOrder::OpenSource,
            ),
            (PackPhase::Starting, PackSignal::Failed(cause)) => fail(s, Failure::WriteEntry, cause),
            (PackPhase::Opening, PackSignal::Completed) => go(
                s,
                PackPhase::Reading,
                PackOrder::ReadChunk { capacity: COPY_BUFFER },
            ),
            (PackPhase::Opening, PackSignal::Failed(cause)) => fail(s, Failure::OpenSource, cause),
            (PackPhase::Reading, PackSignal::Chunk(count)) => copy(s, count),
            (PackPhase::Reading, PackSignal::Failed(cause)) => fail(s, Failure::ReadSource, cause),
            (PackPhase::Writing, PackSignal::Completed) => go(
                s,
                PackPhase::Reading,
                PackOrder::ReadChunk { capacity: COPY_BUFFER },
            ),
            (PackPhase::Writing, PackSignal::Failed(cause)) => fail(s, Failure::WriteData, cause),
            (PackPhase::Marking, PackSignal::Completed) => go(
                s,
                PackPhase::Walking,
                PackOrder::NextEntry,
            ),
            (PackPhase::Marking, PackSignal::Failed(cause)) => fail(
                s,
                Failure::AddDirectory,
                cause,
            ),
            (PackPhase::Finishing, PackSignal::Completed) => go(
                s,
                PackPhase::Done,
                PackOrder::Done { file_count: s.file_count },
            ),
            (PackPhase::Finishing, PackSignal::Failed(cause)) => fail(s, Failure::Finalize, cause),
            _ => fail(s, Failure::Unexpected, Seq::empty()),
        }
    }
}

/// The signal brings a path whose stored name the exclusion patterns judge.
pub open spec fn judged(s: PackState, signal: PackSignal) -> bool {
    &&& s.failure is None
    &&& s.phase is Walking
    &&& signal matches PackSignal::Entry(Place::Relative(_))
}

/// The stored name of the path that a judged signal brings.
pub open spec fn judged_name(s: PackState, signal: PackSignal) -> Seq<char> {
    match signal {
        PackSignal::Entry(Place::Relative(relative)) => with_slashes(relative, s.platform.separator),
        _ => Seq::empty(),
    }
}

/// The signal ends the copy of a file, which the archiver then counts.
pub open spec fn completes_file(s: PackState, signal: PackSignal) -> bool {
    &&& s.failure is None
    &&& s.phase is Reading
    &&& signal == PackSignal::Chunk(0)
}

/// The state in which an operation starts.
pub open spec fn initial(
    output_path: Seq<char>,
    patterns: Seq<Seq<char>>,
    level: i64,
    platform: Platform,
) -> PackState {
    PackState {
        phase: PackPhase::Idle,
        failure: None,
        output_path,
        patterns,
        level,
        platform,
        walked: false,
        file_count: 0,
        pending: Seq::empty(),
    }
}

/// The archiver of one pack operation.
pub struct Archiver {
    phase: PackPhase,
    failure: Option<ZipError>,
    output_path: String,
    excludes: ExcludeSet,
    level: i64,
    platform: Platform,
    walked: bool,
    file_count: u32,
    pending: String,
}

impl View for Archiver {
    type V = PackState;

    closed spec fn view(&self) -> PackState {
        PackState {
            phase: self.phase,
            failure: match self.failure {
                Some(error) => Some(error@),
                None => None,
            },
            output_path: self.output_path@,
            patterns: self.excludes@,
            level: self.level,
            platform: self.platform,
            walked: self.walked,
            file_count: self.file_count as nat,
            pending: self.pending@,
        }
    }
}

impl Archiver {
    /// The archiver of a task on a host: idle, with nothing counted, with the
    /// task's patterns compiled and its level resolved.
    pub fn new(task: &CompressTask, platform: Platform) -> (r: Archiver)
        ensures
            r@ == initial(
                task.output_path@,
                r@.patterns,
                resolved(task.options.level) as i64,
                platform,
            ),
            compiled_from(r@.patterns, exclude_texts(task.options.exclude)),
    {
        Archiver {
            phase: PackPhase::Idle,
            failure: None,
            output_path: task.output_path.clone(),
            excludes: ExcludeSet::compile(&task.options.exclude),
            level: task.options.resolved_level() as i64,
            platform,
            walked: false,
            file_count: 0,
            pending: String::new(),
        }
    }

    /// What the archiver is waiting for.
    pub fn phase(&self) -> (r: PackPhase)
        ensures
            r == self@.phase,
    {
        self.phase
    }

    /// Whether the operation has failed.
    pub fn has_failed(&self) -> (r: bool)
        ensures
            r == (self@.failure is Some),
    {
        self.failure.is_some()
    }

    /// The number of files packed so far.
    pub fn file_count(&self) -> (r: u32)
        ensures
            r == self@.file_count,
    {
        self.file_count
    }

    /// Tests whether a read result would end a file whose count no longer
    /// fits: the one signal that [`Archiver::step`] must not be handed.
    pub fn would_overflow(&self, event: &PackEvent) -> (r: bool)
        ensures
            r == (completes_file(self@, event@) && self@.file_count >= u32::MAX),
    {
        let ends_file = match event {
            PackEvent::Chunk(count) => *count == 0,
            _ => false,
        };
        ends_file && self.failure.is_none() && matches!(self.phase, PackPhase::Reading)
            && self.file_count == u32::MAX
    }

    fn fail(&mut self, kind: Failure, detail: String) -> (action: PackAction)
        requires
            old(self)@.failure is None,
        ensures
            (final(self)@, action@) == fail(old(self)@, kind, detail@),
    {
        self.failure = Some(ZipError::new(kind, detail.clone()));
        PackAction::Abort(ZipError::new(kind, detail))
    }

    fn go(&mut self, phase: PackPhase, action: PackAction) -> (r: PackAction)
        ensures
            (final(self)@, r@) == go(old(self)@, phase, action@),
    {
        self.phase = phase;
        action
    }

    fn receive(&mut self, name: String, excluded: bool) -> (action: PackAction)
        ensures
            final(self)@ == (if excluded {
                PackState { phase: PackPhase::Walking, walked: true, ..old(self)@ }
            } else {
                PackState {
                    phase: PackPhase::Inspecting,
                    walked: true,
                    pending: name@,
                    ..old(self)@
                }
            }),
            action@ == (if excluded {
                PackOrder::NextEntry
            } else {
                PackOrder::Inspect
            }),
    {
        self.walked = true;
        if excluded {
            self.phase = PackPhase::Walking;
            PackAction::NextEntry
        } else {
            self.phase = PackPhase::Inspecting;
            self.pending = name;
            PackAction::Inspect
        }
    }

    fn stumble(&mut self, cause: String, depth: usize) -> (action: PackAction)
        requires
            old(self)@.failure is None,
        ensures
            (final(self)@, action@) == stumble(old(self)@, cause@, depth),
    {
        if !self.walked || depth == 0 {
            self.fail(Failure::Traversal, cause)
        } else {
            self.phase = PackPhase::Walking;
            PackAction::NextEntry
        }
    }

    fn classify(&mut self, is_file: bool, mode: Option<u32>) -> (action: PackAction)
        ensures
            (final(self)@, action@) == classify(old(self)@, is_file, mode),
    {
        let options = EntryOptions::derive(self.level, &self.platform, mode);
        if is_file {
            self.phase = PackPhase::Starting;
            PackAction::StartFile { name: self.pending.clone(), options }
        } else if !self.pending.as_str().is_empty() {
            self.phase = PackPhase::Marking;
            PackAction::AddDirectory { name: self.pending.clone(), options }
        } else {
            self.phase = PackPhase::Walking;
            PackAction::NextEntry
        }
    }

    fn copy(&mut self, count: usize) -> (action: PackAction)
        requires
            old(self)@.failure is None,
            count == 0 ==> old(self)@.file_count < u32::MAX,
        ensures
            (final(self)@, action@) == copy(old(self)@, count),
    {
        if count == 0 {
            self.phase = PackPhase::Walking;
            self.file_count = self.file_count + 1;
            PackAction::NextEntry
        } else if count <= COPY_BUFFER {
            self.phase = PackPhase::Writing;
            PackAction::WriteChunk { len: count }
        } else {
            self.fail(Failure::Unexpected, String::new())
        }
    }

    /// Takes one step with the verdict of the exclusion patterns given: the
    /// transition function itself.
    pub fn advance(&mut self, event: PackEvent, excluded: bool) -> (action: PackAction)
        requires
            completes_file(old(self)@, event@) ==> old(self)@.file_count < u32::MAX,
        ensures
            (final(self)@, action@) == pack_step(old(self)@, event@, excluded),
    {
        if let Some(error) = &self.failure {
            return PackAction::Abort(error.duplicate());
        }
        match (self.phase, event) {
            (PackPhase::Done, _) => PackAction::Done { file_count: self.file_count },
            (PackPhase::Idle, PackEvent::Begin) => {
                let path = self.output_path.clone();
                self.go(PackPhase::Creating, PackAction::CreateOutput { path, buffer: WRITE_BUFFER })
            },
            (PackPhase::Creating, PackEvent::Completed) => self.go(
                PackPhase::Walking,
                PackAction::NextEntry,
            ),
            (PackPhase::Creating, PackEvent::Failed(cause)) => self.fail(
                Failure::CreateOutput,
                cause,
            ),
            (PackPhase::Walking, PackEvent::Entry(Located::Relative(relative))) => {
                let name = normalize(relative.as_str(), self.platform.separator);
                self.receive(name, excluded)
            },
            (PackPhase::Walking, PackEvent::Entry(Located::Outside(cause))) => self.fail(
                Failure::PathResolution,
                cause,
            ),
            (PackPhase::Walking, PackEvent::Entry(Located::NotText)) => self.fail(
                Failure::InvalidPath,
                String::new(),
            ),
            (PackPhase::Walking, PackEvent::Unreadable { cause, depth }) => self.stumble(
                cause,
                depth,
            ),
            (PackPhase::Walking, PackEvent::Exhausted) => self.go(
                PackPhase::Finishing,
                PackAction::Finish,
            ),
            (PackPhase::Inspecting, PackEvent::Inspected { is_file, mode }) => self.classify(
                is_file,
                mode,
            ),
            (PackPhase::Starting, PackEvent::Completed) => self.go(
                PackPhase::Opening,
                PackAction::OpenSource,
            ),
            (PackPhase::Starting, PackEvent::Failed(cause)) => self.fail(Failure::WriteEntry, cause),
            (PackPhase::Opening, PackEvent::Completed) => self.go(
                PackPhase::Reading,
                PackAction::ReadChunk { capacity: COPY_BUFFER },
            ),
            (PackPhase::Opening, PackEvent::Failed(cause)) => self.fail(Failure::OpenSource, cause),
            (PackPhase::Reading, PackEvent::Chunk(count)) => self.copy(count),
            (PackPhase::Reading, PackEvent::Failed(cause)) => self.fail(Failure::ReadSource, cause),
            (PackPhase::Writing, PackEvent::Completed) => self.go(
                PackPhase::Reading,
                PackAction::ReadChunk { capacity: COPY_BUFFER },
            ),
            (PackPhase::Writing, PackEvent::Failed(cause)) => self.fail(Failure::WriteData, cause),
            (PackPhase::Marking, PackEvent::Completed) => self.go(
                PackPhase::Walking,
                PackAction::NextEntry,
            ),
            (PackPhase::Marking, PackEvent::Failed(cause)) => self.fail(
                Failure::AddDirectory,
                cause,
            ),
            (PackPhase::Finishing, PackEvent::Completed) => {
                let file_count = self.file_count;
                self.go(PackPhase::Done, PackAction::Done { file_count })
            },
            (PackPhase::Finishing, PackEvent::Failed(cause)) => self.fail(Failure::Finalize, cause),
            _ => self.fail(Failure::Unexpected, String::new()),
        }
    }

    /// Takes one step: judges the path that the event brings, if it brings
    /// one, by the exclusion patterns, and then does what
    /// [`Archiver::advance`] does with that verdict.
    pub fn step(&mut self, event: PackEvent) -> (action: PackAction)
        requires
            completes_file(old(self)@, event@) ==> old(self)@.file_count < u32::MAX,
        ensures
            exists|excluded: bool|
                {
                    &&& judged(old(self)@, event@) ==> verdict_allowed(
                        old(self)@.patterns,
                        judged_name(old(self)@, event@),
                        excluded,
                    )
                    &&& (final(self)@, action@) == #[trigger] pack_step(
                        old(self)@,
                        event@,
                        excluded,
                    )
                },
    {
        let walking = self.failure.is_none() && matches!(self.phase, PackPhase::Walking);
        match event {
            PackEvent::Entry(Located::Relative(relative)) if walking => {
                let name = normalize(relative.as_str(), self.platform.separator);
                let excluded = self.excludes.excludes(name.as_str());
                let action = self.receive(name, excluded);
                assert((self@, action@) == pack_step(
                    old(self)@,
                    PackSignal::Entry(Place::Relative(relative@)),
                    excluded,
                ));
                action
            },
            other => {
                let action = self.advance(other, false);
                assert((self@, action@) == pack_step(old(self)@, other@, false));
                action
            },
        }
    }
}

} // verus!
