//! What holds of every run of the archiver.

use crate::archiver::machine::is_source;
use crate::archiver::machine::pack_step;
use crate::archiver::machine::PackPhase;
use crate::archiver::machine::PackState;
use crate::archiver::protocol::PackOrder;
use crate::archiver::protocol::PackSignal;
use crate::archiver::protocol::Place;
use crate::error::Failure;
use crate::error::Fault;
use crate::options::Compression;
use vstd::prelude::*;

verus! {

/// One input of a run: what the driver reports, and the verdict of the
/// exclusion patterns where the report brings a path.
pub struct PackInput {
    pub signal: PackSignal,
    pub excluded: bool,
}

/// The state after a run of inputs from `s`.
pub open spec fn run(s: PackState, inputs: Seq<PackInput>) -> PackState
    decreases inputs.len(),
{
    if inputs.len() == 0 {
        s
    } else {
        pack_step(run(s, inputs.drop_last()), inputs.last().signal, inputs.last().excluded).0
    }
}

/// The action that the last input of a run brings about.
pub open spec fn last_order(s: PackState, inputs: Seq<PackInput>) -> PackOrder
    recommends
        inputs.len() > 0,
{
    pack_step(run(s, inputs.drop_last()), inputs.last().signal, inputs.last().excluded).1
}

/// The number of file entries that a run starts in the archive.
pub open spec fn files_started(s: PackState, inputs: Seq<PackInput>) -> nat
    decreases inputs.len(),
{
    if inputs.len() == 0 {
        0
    } else {
        files_started(s, inputs.drop_last()) + if last_order(s, inputs) is StartFile {
            1nat
        } else {
            0nat
        }
    }
}

/// The archiver is between the start of a file entry and the end of its copy.
pub open spec fn in_file(phase: PackPhase) -> bool {
    phase is Starting || phase is Opening || phase is Reading || phase is Writing
}

/// A failure ends the operation: whatever is reported afterwards, the state
/// stays and the same failure is reported again.
pub proof fn failure_is_final(s: PackState, signal: PackSignal, excluded: bool)
    requires
        s.failure is Some,
    ensures
        pack_step(s, signal, excluded) == (s, PackOrder::Abort(s.failure->0)),
{
}

/// Success ends the operation: whatever is reported afterwards, the state
/// stays and the same count is reported again.
pub proof fn success_is_final(s: PackState, signal: PackSignal, excluded: bool)
    requires
        s.failure is None,
        s.phase is Done,
    ensures
        pack_step(s, signal, excluded) == (s, PackOrder::Done { file_count: s.file_count }),
{
}

/// A step that fails reports the failure at once and counts nothing.
pub proof fn failing_step_aborts(s: PackState, signal: PackSignal, excluded: bool)
    requires
        s.failure is None,
    ensures
        ({
            let (next, order) = pack_step(s, signal, excluded);
            &&& next.failure is Some <==> order is Abort
            &&& order matches PackOrder::Abort(fault) ==> next.failure == Some(fault)
                && next.file_count == s.file_count
            &&& order is Done ==> next.phase is Done && (s.phase is Done || s.phase is Finishing)
        }),
{
}

/// An excluded path leaves no trace: the archiver moves on to the next item
/// of the traversal, and nothing is started, added or counted.
pub proof fn excluded_path_is_passed_over(s: PackState, relative: Seq<char>)
    requires
        s.failure is None,
        s.phase is Walking,
    ensures
        pack_step(s, PackSignal::Entry(Place::Relative(relative)), true) == (
            PackState { walked: true, ..s },
            PackOrder::NextEntry,
        ),
{
}

/// Every entry is written with the deflate method at the level of the
/// operation and with the large-file extension, and its permission mode is
/// recorded only where the host has permission bits. A directory marker never
/// has an empty name, so the source directory itself is never added.
pub proof fn entries_are_written_alike(s: PackState, signal: PackSignal, excluded: bool)
    ensures
        ({
            let order = pack_step(s, signal, excluded).1;
            &&& order matches PackOrder::StartFile { name, options } ==> {
                &&& options.method == Compression::Deflated
                &&& options.level == s.level
                &&& options.large_file
                &&& !s.platform.permission_bits ==> options.unix_mode is None
                &&& name == s.pending
            }
            &&& order matches PackOrder::AddDirectory { name, options } ==> {
                &&& options.method == Compression::Deflated
                &&& options.level == s.level
                &&& options.large_file
                &&& !s.platform.permission_bits ==> options.unix_mode is None
                &&& name == s.pending
                &&& name.len() > 0
            }
        }),
{
}

/// No step changes what the operation was set up with.
pub proof fn setup_is_kept(s: PackState, signal: PackSignal, excluded: bool)
    ensures
        ({
            let next = pack_step(s, signal, excluded).0;
            &&& next.output_path == s.output_path
            &&& next.patterns == s.patterns
            &&& next.level == s.level
            &&& next.platform == s.platform
        }),
{
}

/// The count is the number of file entries whose copy has ended: a file is
/// counted once, when its last read returns nothing, and a directory marker
/// is never counted. So at every point of a run that has not failed, the
/// count and the file under way, if there is one, add up to the number of
/// file entries started; and the count reported on success is that number.
pub proof fn count_is_files_started(s: PackState, inputs: Seq<PackInput>)
    requires
        s.failure is None,
        s.phase is Idle,
        s.file_count == 0,
    ensures
        run(s, inputs).failure is None ==> run(s, inputs).file_count + (if in_file(
            run(s, inputs).phase,
        ) {
            1nat
        } else {
            0nat
        }) == files_started(s, inputs),
        run(s, inputs).failure is None && run(s, inputs).phase is Done ==> run(
            s,
            inputs,
        ).file_count == files_started(s, inputs),
    decreases inputs.len(),
{
    if inputs.len() > 0 {
        let before = inputs.drop_last();
        count_is_files_started(s, before);
        if run(s, inputs).failure is None {
            assert(run(s, before).failure is None);
        }
    }
}

/// The count that a successful run reports is the count of its state.
pub proof fn reported_count_is_the_count(s: PackState, inputs: Seq<PackInput>)
    requires
        inputs.len() > 0,
    ensures
        last_order(s, inputs) matches PackOrder::Done { file_count } ==> file_count == run(
            s,
            inputs,
        ).file_count,
{
}

/// The state after two runs, one after the other, is the state after the one
/// run of both.
pub proof fn run_of_both(s: PackState, first: Seq<PackInput>, second: Seq<PackInput>)
    ensures
        run(s, first + second) == run(run(s, first), second),
    decreases second.len(),
{
    if second.len() == 0 {
        assert(first + second =~= first);
    } else {
        let whole = first + second;
        assert(whole.drop_last() =~= first + second.drop_last());
        assert(whole.last() == second.last());
        run_of_both(s, first, second.drop_last());
    }
}

/// Once the operation has failed, no run brings it back.
pub proof fn failure_outlasts_every_run(s: PackState, inputs: Seq<PackInput>)
    requires
        s.failure is Some,
    ensures
        run(s, inputs) == s,
    decreases inputs.len(),
{
    if inputs.len() > 0 {
        failure_outlasts_every_run(s, inputs.drop_last());
    }
}

/// A source directory that is missing or cannot be read fails the operation
/// with the cause: an item that cannot be read, where it is the first of the
/// traversal or lies at depth 0, is answered with the failure, and the state
/// is failed.
pub proof fn unreadable_source_fails(s: PackState, cause: Seq<char>, depth: usize)
    requires
        s.failure is None,
        s.phase is Walking,
        is_source(s, depth),
    ensures
        ({
            let fault = Fault { kind: Failure::Traversal, detail: cause };
            pack_step(s, PackSignal::Unreadable { cause, depth }, false) == (
                PackState { failure: Some(fault), ..s },
                PackOrder::Abort(fault),
            )
        }),
{
}

/// An item below the source directory that cannot be read is passed over:
/// the traversal goes on and nothing is counted.
pub proof fn unreadable_item_below_is_passed_over(s: PackState, cause: Seq<char>, depth: usize)
    requires
        s.failure is None,
        s.phase is Walking,
        !is_source(s, depth),
    ensures
        pack_step(s, PackSignal::Unreadable { cause, depth }, false) == (s, PackOrder::NextEntry),
{
}

/// The run of an operation whose source directory is missing: the output is
/// created, the first item of the traversal cannot be read, and the operation
/// fails with the cause. Whatever is reported after that, it never succeeds
/// and never reports a count.
pub proof fn missing_source_never_succeeds(
    s: PackState,
    cause: Seq<char>,
    depth: usize,
    more: Seq<PackInput>,
)
    requires
        s.failure is None,
        s.phase is Idle,
        !s.walked,
    ensures
        ({
            let opening = seq![
                PackInput { signal: PackSignal::Begin, excluded: false },
                PackInput { signal: PackSignal::Completed, excluded: false },
                PackInput { signal: PackSignal::Unreadable { cause, depth }, excluded: false },
            ];
            let fault = Fault { kind: Failure::Traversal, detail: cause };
            &&& last_order(s, opening) == PackOrder::Abort(fault)
            &&& run(s, opening + more).failure == Some(fault)
            &&& more.len() > 0 ==> last_order(s, opening + more) == PackOrder::Abort(fault)
        }),
{
    let begin = PackInput { signal: PackSignal::Begin, excluded: false };
    let created = PackInput { signal: PackSignal::Completed, excluded: false };
    let unreadable = PackInput { signal: PackSignal::Unreadable { cause, depth }, excluded: false };
    let opening = seq![begin, created, unreadable];
    let two = seq![begin, created];
    let one = seq![begin];
    assert(opening.drop_last() =~= two);
    assert(two.drop_last() =~= one);
    assert(one.drop_last() =~= Seq::<PackInput>::empty());
    assert(run(s, one.drop_last()) == s);
    assert(run(s, one).phase is Creating);
    assert(run(s, two).phase is Walking);
    assert(!run(s, two).walked);
    let failed = run(s, opening);
    assert(failed.failure is Some);
    run_of_both(s, opening, more);
    failure_outlasts_every_run(failed, more);
    if more.len() > 0 {
        let whole = opening + more;
        assert(whole.drop_last() =~= opening + more.drop_last());
        assert(whole.last() == more.last());
        run_of_both(s, opening, more.drop_last());
        failure_outlasts_every_run(failed, more.drop_last());
    }
}

} // verus!
