//! Whole runs of the extractor in which nothing goes wrong.

use crate::extractor::laws::last_order;
use crate::extractor::laws::run;
use crate::extractor::machine::unpack_step;
use crate::extractor::machine::UnpackPhase;
use crate::extractor::machine::UnpackState;
use crate::extractor::protocol::Record;
use crate::extractor::protocol::UnpackOrder;
use crate::extractor::protocol::UnpackSignal;
use crate::names::names_directory;
use crate::platform::Platform;
use vstd::prelude::*;

verus! {

/// What the driver reports of one entry when nothing goes wrong: the entry;
/// where its name is safe, that its directory was created, or that its
/// parent stands, its file was created and its content copied; and where a
/// permission mode is applied, that it was.
pub open spec fn record_script(record: Record, platform: Platform) -> Seq<UnpackSignal> {
    let stored = seq![UnpackSignal::Stored(record)];
    let done = UnpackSignal::Completed;
    if record.enclosed is None {
        stored
    } else {
        let made = if names_directory(record.name) {
            stored.push(done)
        } else {
            stored.push(done).push(done).push(done)
        };
        if platform.mode_of(record.unix_mode) is Some {
            made.push(done)
        } else {
            made
        }
    }
}

/// What the driver reports of the entries of an archive, in stored order,
/// when nothing goes wrong.
pub open spec fn records_script(records: Seq<Record>, platform: Platform) -> Seq<UnpackSignal>
    decreases records.len(),
{
    if records.len() == 0 {
        Seq::empty()
    } else {
        records_script(records.drop_last(), platform) + record_script(records.last(), platform)
    }
}

/// What the driver reports of a whole operation when nothing goes wrong: the
/// start, the archive opened, the archive parsed, and its entries.
pub open spec fn unpack_script(records: Seq<Record>, platform: Platform) -> Seq<UnpackSignal> {
    seq![
        UnpackSignal::Begin,
        UnpackSignal::Completed,
        UnpackSignal::Parsed { entries: records.len() as usize },
    ] + records_script(records, platform)
}

/// The action creates a directory or a file, or applies a permission mode.
pub open spec fn places(order: UnpackOrder) -> bool {
    order is CreateDirectory || order is CreateFile || order is SetPermissions
}

/// What a run creates and which modes it applies, in the order in which it
/// asks for them.
pub open spec fn placed(s: UnpackState, signals: Seq<UnpackSignal>) -> Seq<UnpackOrder>
    decreases signals.len(),
{
    if signals.len() == 0 {
        Seq::empty()
    } else if places(last_order(s, signals)) {
        placed(s, signals.drop_last()).push(last_order(s, signals))
    } else {
        placed(s, signals.drop_last())
    }
}

/// What stands for one entry in the output directory: nothing for an entry
/// whose name is not safe; else a directory, where the stored name ends with
/// a slash, or a file, at the enclosed path, followed by the permission mode
/// of the entry where the host has permission bits and the entry a mode.
pub open spec fn placement_of(s: UnpackState, record: Record) -> Seq<UnpackOrder> {
    match record.enclosed {
        None => Seq::empty(),
        Some(relative) => {
            let made = if names_directory(record.name) {
                seq![UnpackOrder::CreateDirectory { root: s.output_dir, relative }]
            } else {
                seq![UnpackOrder::CreateFile { root: s.output_dir, relative }]
            };
            match s.platform.mode_of(record.unix_mode) {
                Some(mode) => made.push(
                    UnpackOrder::SetPermissions { root: s.output_dir, relative, mode },
                ),
                None => made,
            }
        },
    }
}

/// What stands for the entries of an archive, in stored order.
pub open spec fn placements_of(s: UnpackState, records: Seq<Record>) -> Seq<UnpackOrder>
    decreases records.len(),
{
    if records.len() == 0 {
        Seq::empty()
    } else {
        placements_of(s, records.drop_last()) + placement_of(s, records.last())
    }
}

/// The phase in which the extractor stands between two entries.
pub open spec fn between(s: UnpackState) -> UnpackPhase {
    if s.index < s.entries {
        UnpackPhase::Fetching
    } else {
        UnpackPhase::Done
    }
}

/// The state after two runs, one after the other, is the state after the one
/// run of both, and what they place is what the first places followed by
/// what the second does.
pub proof fn run_of_both(s: UnpackState, first: Seq<UnpackSignal>, second: Seq<UnpackSignal>)
    ensures
        run(s, first + second) == run(run(s, first), second),
        placed(s, first + second) == placed(s, first) + placed(run(s, first), second),
    decreases second.len(),
{
    if second.len() == 0 {
        assert(first + second =~= first);
        assert(placed(s, first) + Seq::<UnpackOrder>::empty() =~= placed(s, first));
    } else {
        let whole = first + second;
        let rest = second.drop_last();
        assert(whole.drop_last() =~= first + rest);
        assert(whole.last() == second.last());
        run_of_both(s, first, rest);
        let a = placed(s, first);
        let b = placed(run(s, first), rest);
        let order = last_order(s, whole);
        assert(order == last_order(run(s, first), second));
        if places(order) {
            assert((a + b).push(order) =~= a + b.push(order));
        }
    }
}

proof fn run_of_one_more(s: UnpackState, signals: Seq<UnpackSignal>, signal: UnpackSignal)
    ensures
        run(s, signals.push(signal)) == unpack_step(run(s, signals), signal).0,
        last_order(s, signals.push(signal)) == unpack_step(run(s, signals), signal).1,
        placed(s, signals.push(signal)) == if places(unpack_step(run(s, signals), signal).1) {
            placed(s, signals).push(unpack_step(run(s, signals), signal).1)
        } else {
            placed(s, signals)
        },
{
    assert(signals.push(signal).drop_last() =~= signals);
}

proof fn run_of_one(s: UnpackState, signal: UnpackSignal)
    ensures
        run(s, seq![signal]) == unpack_step(s, signal).0,
        last_order(s, seq![signal]) == unpack_step(s, signal).1,
        placed(s, seq![signal]) == if places(unpack_step(s, signal).1) {
            seq![unpack_step(s, signal).1]
        } else {
            Seq::empty()
        },
{
    assert(seq![signal] =~= Seq::<UnpackSignal>::empty().push(signal));
    run_of_one_more(s, Seq::empty(), signal);
    let order = unpack_step(s, signal).1;
    assert(Seq::<UnpackOrder>::empty().push(order) =~= seq![order]);
}

/// The reports of one entry place exactly what stands for it, and leave the
/// extractor at the entry after it, or done after the last.
pub proof fn record_is_placed(s: UnpackState, record: Record)
    requires
        s.failure is None,
        s.phase is Fetching,
        s.index < s.entries,
    ensures
        ({
            let script = record_script(record, s.platform);
            let t = run(s, script);
            &&& t.failure is None
            &&& t.index == s.index + 1
            &&& t.entries == s.entries
            &&& t.output_dir == s.output_dir
            &&& t.platform == s.platform
            &&& t.phase == between(t)
            &&& placed(s, script) == placement_of(s, record)
        }),
{
    let stored = seq![UnpackSignal::Stored(record)];
    let done = UnpackSignal::Completed;
    run_of_one(s, UnpackSignal::Stored(record));
    if record.enclosed is Some {
        let relative = record.enclosed->0;
        let kept = s.platform.mode_of(record.unix_mode);
        if names_directory(record.name) {
            let made = stored.push(done);
            run_of_one_more(s, stored, done);
            let order = UnpackOrder::CreateDirectory { root: s.output_dir, relative };
            assert(Seq::<UnpackOrder>::empty().push(order) =~= seq![order]);
            if kept is Some {
                run_of_one_more(s, made, done);
            }
        } else {
            let parent = stored.push(done);
            let file = parent.push(done);
            let made = file.push(done);
            run_of_one_more(s, stored, done);
            run_of_one_more(s, parent, done);
            run_of_one_more(s, file, done);
            let order = UnpackOrder::CreateFile { root: s.output_dir, relative };
            assert(Seq::<UnpackOrder>::empty().push(order) =~= seq![order]);
            if kept is Some {
                run_of_one_more(s, made, done);
            }
        }
    }
}

/// The reports of the first entries of an archive place what stands for
/// them, in stored order, and leave the extractor at the entry after them.
pub proof fn records_are_placed(s: UnpackState, records: Seq<Record>)
    requires
        s.failure is None,
        s.phase is Fetching,
        s.index == 0,
        0 < s.entries,
        records.len() <= s.entries,
    ensures
        ({
            let script = records_script(records, s.platform);
            let t = run(s, script);
            &&& t.failure is None
            &&& t.index == records.len()
            &&& t.entries == s.entries
            &&& t.output_dir == s.output_dir
            &&& t.platform == s.platform
            &&& t.phase == between(t)
            &&& placed(s, script) == placements_of(s, records)
        }),
    decreases records.len(),
{
    if records.len() > 0 {
        let before = records.drop_last();
        records_are_placed(s, before);
        let middle = run(s, records_script(before, s.platform));
        record_is_placed(middle, records.last());
        run_of_both(s, records_script(before, s.platform), record_script(records.last(), s.platform));
        assert(placement_of(middle, records.last()) == placement_of(s, records.last()));
    }
}

/// An operation in which nothing goes wrong succeeds, however many entries
/// the archive holds. What it creates stands one to one, and in stored
/// order, for the entries whose names are safe: a directory or a file at the
/// enclosed path under the output directory, with the permission mode of the
/// entry applied where the host has permission bits. An entry whose name is
/// not safe leaves no trace, and a later entry of the same name is written
/// again.
pub proof fn faultless_run_places_the_safe_entries(s: UnpackState, records: Seq<Record>)
    requires
        s.failure is None,
        s.phase is Idle,
        records.len() <= usize::MAX,
    ensures
        ({
            let script = unpack_script(records, s.platform);
            &&& run(s, script).failure is None
            &&& run(s, script).phase is Done
            &&& last_order(s, script) == UnpackOrder::Done
            &&& placed(s, script) == placements_of(s, records)
        }),
{
    let count = records.len() as usize;
    let begin = UnpackSignal::Begin;
    let done = UnpackSignal::Completed;
    let parsed = UnpackSignal::Parsed { entries: count };
    let opening = seq![begin, done, parsed];
    assert(opening =~= seq![begin].push(done).push(parsed));
    run_of_one(s, begin);
    run_of_one_more(s, seq![begin], done);
    run_of_one_more(s, seq![begin].push(done), parsed);
    let ready = run(s, opening);
    let script = opening + records_script(records, s.platform);
    if records.len() == 0 {
        assert(script =~= opening);
    } else {
        records_are_placed(ready, records);
        run_of_both(s, opening, records_script(records, s.platform));
        assert(placements_of(ready, records) == placements_of(s, records)) by {
            placements_depend_on_setup(s, ready, records);
        }
        assert(placed(s, opening) + placements_of(s, records) =~= placements_of(s, records));
        last_record_ends_the_run(ready, records);
        last_order_of_both(s, opening, records_script(records, s.platform));
    }
}

/// What stands for entries depends only on the output directory and the host.
pub proof fn placements_depend_on_setup(s: UnpackState, t: UnpackState, records: Seq<Record>)
    requires
        t.output_dir == s.output_dir,
        t.platform == s.platform,
    ensures
        placements_of(t, records) == placements_of(s, records),
    decreases records.len(),
{
    if records.len() > 0 {
        placements_depend_on_setup(s, t, records.drop_last());
    }
}

proof fn last_order_of_both(s: UnpackState, first: Seq<UnpackSignal>, second: Seq<UnpackSignal>)
    requires
        second.len() > 0,
    ensures
        last_order(s, first + second) == last_order(run(s, first), second),
{
    let whole = first + second;
    assert(whole.drop_last() =~= first + second.drop_last());
    assert(whole.last() == second.last());
    run_of_both(s, first, second.drop_last());
}

proof fn last_record_ends_the_run(s: UnpackState, records: Seq<Record>)
    requires
        s.failure is None,
        s.phase is Fetching,
        s.index == 0,
        records.len() == s.entries,
        records.len() > 0,
    ensures
        last_order(s, records_script(records, s.platform)) == UnpackOrder::Done,
{
    let before = records.drop_last();
    let record = records.last();
    records_are_placed(s, before);
    let first = records_script(before, s.platform);
    let middle = run(s, first);
    let script = record_script(record, s.platform);
    assert(script.len() > 0);
    last_order_of_both(s, first, script);
    let stored = seq![UnpackSignal::Stored(record)];
    let done = UnpackSignal::Completed;
    run_of_one(middle, UnpackSignal::Stored(record));
    if record.enclosed is Some {
        let kept = s.platform.mode_of(record.unix_mode);
        if names_directory(record.name) {
            let made = stored.push(done);
            run_of_one_more(middle, stored, done);
            if kept is Some {
                run_of_one_more(middle, made, done);
            }
        } else {
            let parent = stored.push(done);
            let file = parent.push(done);
            let made = file.push(done);
            run_of_one_more(middle, stored, done);
            run_of_one_more(middle, parent, done);
            run_of_one_more(middle, file, done);
            if kept is Some {
                run_of_one_more(middle, made, done);
            }
        }
    }
}

} // verus!
