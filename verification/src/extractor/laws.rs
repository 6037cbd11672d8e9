//! What holds of every step of the extractor.

use crate::extractor::machine::unpack_step;
use crate::extractor::machine::UnpackPhase;
use crate::extractor::machine::UnpackState;
use crate::extractor::protocol::Record;
use crate::extractor::protocol::UnpackOrder;
use crate::extractor::protocol::UnpackSignal;
use crate::names::names_directory;
use vstd::prelude::*;

verus! {

/// The action creates or changes something in the filesystem.
pub open spec fn writes(order: UnpackOrder) -> bool {
    order is CreateDirectory || order is EnsureParent || order is CreateFile || order is CopyContent
        || order is SetPermissions
}

/// The directory under which an action names its target.
pub open spec fn root_of(order: UnpackOrder) -> Seq<char> {
    match order {
        UnpackOrder::CreateDirectory { root, .. } => root,
        UnpackOrder::EnsureParent { root, .. } => root,
        UnpackOrder::CreateFile { root, .. } => root,
        UnpackOrder::SetPermissions { root, .. } => root,
        _ => Seq::empty(),
    }
}

/// The path, relative to its root, at which an action names its target.
pub open spec fn relative_of(order: UnpackOrder) -> Seq<char> {
    match order {
        UnpackOrder::CreateDirectory { relative, .. } => relative,
        UnpackOrder::EnsureParent { relative, .. } => relative,
        UnpackOrder::CreateFile { relative, .. } => relative,
        UnpackOrder::SetPermissions { relative, .. } => relative,
        _ => Seq::empty(),
    }
}

/// The action names a target.
pub open spec fn targets(order: UnpackOrder) -> bool {
    order is CreateDirectory || order is EnsureParent || order is CreateFile
        || order is SetPermissions
}

/// The state after a run of signals from `s`.
pub open spec fn run(s: UnpackState, signals: Seq<UnpackSignal>) -> UnpackState
    decreases signals.len(),
{
    if signals.len() == 0 {
        s
    } else {
        unpack_step(run(s, signals.drop_last()), signals.last()).0
    }
}

/// The action that the last signal of a run brings about.
pub open spec fn last_order(s: UnpackState, signals: Seq<UnpackSignal>) -> UnpackOrder
    recommends
        signals.len() > 0,
{
    unpack_step(run(s, signals.drop_last()), signals.last()).1
}

/// The extractor is handling an entry: it waits for the directory, the
/// parent, the file, the content or the permission mode of one.
pub open spec fn holds_target(s: UnpackState) -> bool {
    s.phase is MakingDirectory || s.phase is PreparingParent || s.phase is CreatingFile
        || s.phase is Copying || s.phase is Restoring
}

/// A failure ends the operation: whatever is reported afterwards, the state
/// stays and the same failure is reported again.
pub proof fn failure_is_final(s: UnpackState, signal: UnpackSignal)
    requires
        s.failure is Some,
    ensures
        unpack_step(s, signal) == (s, UnpackOrder::Abort(s.failure->0)),
{
}

/// Success ends the operation.
pub proof fn success_is_final(s: UnpackState, signal: UnpackSignal)
    requires
        s.failure is None,
        s.phase is Done,
    ensures
        unpack_step(s, signal) == (s, UnpackOrder::Done),
{
}

/// An entry whose stored name the codec does not find safe is passed over
/// without a failure: nothing is created for it, and the extractor goes on
/// with the entry after it, or ends where it was the last.
pub proof fn unsafe_name_is_passed_over(s: UnpackState, record: Record)
    requires
        s.failure is None,
        s.phase is Fetching,
        record.enclosed is None,
    ensures
        ({
            let (next, order) = unpack_step(s, UnpackSignal::Stored(record));
            &&& next.failure is None
            &&& !writes(order)
            &&& s.index + 1 < s.entries ==> order == (UnpackOrder::ReadEntry {
                index: (s.index + 1) as usize,
            })
            &&& s.index + 1 >= s.entries ==> order == UnpackOrder::Done
        }),
{
}

/// A safe entry is created at its enclosed name under the output directory:
/// as a directory where the stored name ends with a slash, as a file where
/// it does not.
pub proof fn safe_name_is_placed(s: UnpackState, record: Record)
    requires
        s.failure is None,
        s.phase is Fetching,
        record.enclosed is Some,
    ensures
        ({
            let (next, order) = unpack_step(s, UnpackSignal::Stored(record));
            &&& next.failure is None
            &&& next.index == s.index
            &&& next.target == record.enclosed->0
            &&& next.mode == s.platform.mode_of(record.unix_mode)
            &&& names_directory(record.name) ==> order == (UnpackOrder::CreateDirectory {
                root: s.output_dir,
                relative: record.enclosed->0,
            })
            &&& !names_directory(record.name) ==> order == (UnpackOrder::EnsureParent {
                root: s.output_dir,
                relative: record.enclosed->0,
            })
        }),
{
}

/// Every target lies under the output directory, at the enclosed name of the
/// entry that is being handled.
pub proof fn targets_lie_under_output_dir(s: UnpackState, signal: UnpackSignal)
    ensures
        ({
            let (next, order) = unpack_step(s, signal);
            &&& next.output_dir == s.output_dir
            &&& next.source_path == s.source_path
            &&& next.platform == s.platform
            &&& targets(order) ==> root_of(order) == s.output_dir && relative_of(order)
                == next.target
            &&& writes(order) ==> holds_target(next)
        }),
{
}

/// Over a whole run: whatever the driver reports, every action that names a
/// target names it under the output directory that the operation started
/// with.
pub proof fn run_stays_under_output_dir(s: UnpackState, signals: Seq<UnpackSignal>)
    requires
        signals.len() > 0,
    ensures
        run(s, signals).output_dir == s.output_dir,
        targets(last_order(s, signals)) ==> root_of(last_order(s, signals)) == s.output_dir,
    decreases signals.len(),
{
    let before = signals.drop_last();
    if before.len() > 0 {
        run_stays_under_output_dir(s, before);
    }
    targets_lie_under_output_dir(run(s, before), signals.last());
}

/// The entries are read in stored order: the first after the archive is
/// parsed, and each later one right after the one before it. The position
/// never passes the number of entries.
pub proof fn entries_are_read_in_order(s: UnpackState, signal: UnpackSignal)
    requires
        s.failure is None,
    ensures
        ({
            let (next, order) = unpack_step(s, signal);
            order matches UnpackOrder::ReadEntry { index } ==> {
                &&& index == next.index
                &&& index < next.entries
                &&& next.phase is Fetching
                &&& s.phase is Parsing ==> index == 0
                &&& !(s.phase is Parsing) ==> index == s.index + 1 && next.entries == s.entries
            }
        }),
{
}

/// The operation ends in success only when every entry has been handled.
pub proof fn success_means_all_entries_handled(s: UnpackState, signal: UnpackSignal)
    requires
        s.failure is None,
        !(s.phase is Done),
        s.index <= s.entries,
    ensures
        ({
            let (next, order) = unpack_step(s, signal);
            &&& next.index <= next.entries
            &&& order is Done ==> next.index == next.entries && next.phase is Done
        }),
{
}

/// The permission mode of an entry is applied only where the host has
/// permission bits and the entry carries a mode, and then it is the mode
/// that the entry carries.
pub proof fn permissions_follow_the_entry(s: UnpackState, record: Record, done: UnpackSignal)
    requires
        s.failure is None,
        s.phase is Fetching,
        record.enclosed is Some,
        names_directory(record.name),
        done == UnpackSignal::Completed,
    ensures
        ({
            let placed = unpack_step(s, UnpackSignal::Stored(record)).0;
            let order = unpack_step(placed, done).1;
            &&& order is SetPermissions <==> s.platform.permission_bits && record.unix_mode is Some
            &&& order matches UnpackOrder::SetPermissions { root, relative, mode } ==> {
                &&& root == s.output_dir
                &&& relative == record.enclosed->0
                &&& Some(mode) == record.unix_mode
            }
        }),
{
}

} // verus!
