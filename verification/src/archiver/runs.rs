//! Whole runs of the archiver in which nothing goes wrong.

use crate::archiver::laws::last_order;
use crate::archiver::laws::run;
use crate::archiver::laws::run_of_both;
use crate::archiver::laws::PackInput;
use crate::archiver::machine::options_for;
use crate::archiver::machine::pack_step;
use crate::archiver::machine::PackState;
use crate::archiver::machine::COPY_BUFFER;
use crate::archiver::protocol::PackOrder;
use crate::archiver::protocol::PackSignal;
use crate::archiver::protocol::Place;
use crate::names::with_slashes;
use vstd::prelude::*;

verus! {

/// One item of a traversal, with all that the driver will report of it.
pub struct Item {
    /// The path relative to the source directory, empty for the source
    /// directory itself.
    pub relative: Seq<char>,
    /// The verdict of the exclusion patterns on its stored name.
    pub excluded: bool,
    /// Whether it is a regular file.
    pub is_file: bool,
    /// Its permission mode, if that can be read.
    pub mode: Option<u32>,
    /// The sizes of the reads that its content comes in.
    pub chunks: Seq<usize>,
}

/// The item is a file that is packed.
pub open spec fn kept_file(item: Item) -> bool {
    !item.excluded && item.is_file
}

/// Every read of the item brings something and fits the copy buffer.
pub open spec fn reads_fit(item: Item) -> bool {
    forall|i: int| 0 <= i < item.chunks.len() ==> 0 < #[trigger] item.chunks[i] <= COPY_BUFFER
}

/// The number of files among the items that are packed.
pub open spec fn kept_files(items: Seq<Item>) -> nat
    decreases items.len(),
{
    if items.len() == 0 {
        0
    } else {
        kept_files(items.drop_last()) + if kept_file(items.last()) {
            1nat
        } else {
            0nat
        }
    }
}

/// A report that brings no path.
pub open spec fn plain(signal: PackSignal) -> PackInput {
    PackInput { signal, excluded: false }
}

/// What the driver reports while the content of a file is copied: each read,
/// and that it was written.
pub open spec fn copy_script(chunks: Seq<usize>) -> Seq<PackInput>
    decreases chunks.len(),
{
    if chunks.len() == 0 {
        Seq::empty()
    } else {
        copy_script(chunks.drop_last()).push(plain(PackSignal::Chunk(chunks.last()))).push(
            plain(PackSignal::Completed),
        )
    }
}

/// What the driver reports of one item when nothing goes wrong: the path;
/// unless it is excluded, what the filesystem says of it; for a file, that
/// it was started and opened, its reads, and the empty read at its end; for
/// a directory other than the source directory, that its marker was added.
pub open spec fn item_script(item: Item, separator: char) -> Seq<PackInput> {
    let found = seq![
        PackInput {
            signal: PackSignal::Entry(Place::Relative(item.relative)),
            excluded: item.excluded,
        },
    ];
    let inspected = found.push(
        plain(PackSignal::Inspected { is_file: item.is_file, mode: item.mode }),
    );
    if item.excluded {
        found
    } else if item.is_file {
        inspected.push(plain(PackSignal::Completed)).push(plain(PackSignal::Completed))
            + copy_script(item.chunks).push(plain(PackSignal::Chunk(0)))
    } else if with_slashes(item.relative, separator).len() > 0 {
        inspected.push(plain(PackSignal::Completed))
    } else {
        inspected
    }
}

/// What the driver reports of a whole traversal when nothing goes wrong.
pub open spec fn walk_script(items: Seq<Item>, separator: char) -> Seq<PackInput>
    decreases items.len(),
{
    if items.len() == 0 {
        Seq::empty()
    } else {
        walk_script(items.drop_last(), separator) + item_script(items.last(), separator)
    }
}

/// What the driver reports of a whole operation when nothing goes wrong: the
/// start, the output created, the traversal, its end, the archive finalized.
pub open spec fn pack_script(items: Seq<Item>, separator: char) -> Seq<PackInput> {
    seq![plain(PackSignal::Begin), plain(PackSignal::Completed)] + walk_script(items, separator)
        + seq![plain(PackSignal::Exhausted), plain(PackSignal::Completed)]
}

/// The state `s` with only what a step may change set anew.
pub open spec fn same_setup(s: PackState, t: PackState) -> bool {
    &&& t.output_path == s.output_path
    &&& t.patterns == s.patterns
    &&& t.level == s.level
    &&& t.platform == s.platform
}

proof fn run_of_one_more(s: PackState, inputs: Seq<PackInput>, input: PackInput)
    ensures
        run(s, inputs.push(input)) == pack_step(run(s, inputs), input.signal, input.excluded).0,
        last_order(s, inputs.push(input)) == pack_step(
            run(s, inputs),
            input.signal,
            input.excluded,
        ).1,
{
    assert(inputs.push(input).drop_last() =~= inputs);
}

proof fn run_of_one(s: PackState, input: PackInput)
    ensures
        run(s, seq![input]) == pack_step(s, input.signal, input.excluded).0,
{
    assert(seq![input] =~= Seq::<PackInput>::empty().push(input));
    run_of_one_more(s, Seq::empty(), input);
}

/// Copying leaves the state as it is: whatever the number and the sizes of
/// the reads, the archiver waits for the next read as it did for the first.
pub proof fn copy_keeps_the_state(s: PackState, chunks: Seq<usize>)
    requires
        s.failure is None,
        s.phase is Reading,
        forall|i: int| 0 <= i < chunks.len() ==> 0 < #[trigger] chunks[i] <= COPY_BUFFER,
    ensures
        run(s, copy_script(chunks)) == s,
    decreases chunks.len(),
{
    if chunks.len() > 0 {
        let before = chunks.drop_last();
        assert forall|i: int| 0 <= i < before.len() implies 0 < #[trigger] before[i]
            <= COPY_BUFFER by {
            assert(before[i] == chunks[i]);
        }
        copy_keeps_the_state(s, before);
        let read = plain(PackSignal::Chunk(chunks.last()));
        let written = plain(PackSignal::Completed);
        run_of_one_more(s, copy_script(before), read);
        run_of_one_more(s, copy_script(before).push(read), written);
        assert(0 < chunks[chunks.len() - 1] <= COPY_BUFFER);
    }
}

/// After the reports of one item the archiver waits for the next item again,
/// has counted the item if it is a file that is packed and nothing if not,
/// and has kept what it was set up with.
pub proof fn item_is_counted_once(s: PackState, item: Item)
    requires
        s.failure is None,
        s.phase is Walking,
        reads_fit(item),
    ensures
        ({
            let t = run(s, item_script(item, s.platform.separator));
            &&& t.failure is None
            &&& t.phase is Walking
            &&& t.walked
            &&& same_setup(s, t)
            &&& t.file_count == s.file_count + if kept_file(item) {
                1nat
            } else {
                0nat
            }
        }),
{
    let separator = s.platform.separator;
    let entry = PackInput {
        signal: PackSignal::Entry(Place::Relative(item.relative)),
        excluded: item.excluded,
    };
    let found = seq![entry];
    run_of_one(s, entry);
    if !item.excluded {
        let told = plain(PackSignal::Inspected { is_file: item.is_file, mode: item.mode });
        let inspected = found.push(told);
        run_of_one_more(s, found, told);
        let done = plain(PackSignal::Completed);
        if item.is_file {
            let started = inspected.push(done);
            let opened = started.push(done);
            run_of_one_more(s, inspected, done);
            run_of_one_more(s, started, done);
            let reading = run(s, opened);
            assert(reading.phase is Reading && reading.failure is None);
            let copying = copy_script(item.chunks);
            let end = plain(PackSignal::Chunk(0));
            copy_keeps_the_state(reading, item.chunks);
            run_of_one_more(reading, copying, end);
            run_of_both(s, opened, copying.push(end));
        } else if with_slashes(item.relative, separator).len() > 0 {
            run_of_one_more(s, inspected, done);
        }
    }
}

/// After the reports of a whole traversal the archiver waits for the next
/// item, and has counted exactly the files that are packed.
pub proof fn walk_counts_kept_files(s: PackState, items: Seq<Item>)
    requires
        s.failure is None,
        s.phase is Walking,
        forall|i: int| 0 <= i < items.len() ==> reads_fit(#[trigger] items[i]),
    ensures
        ({
            let t = run(s, walk_script(items, s.platform.separator));
            &&& t.failure is None
            &&& t.phase is Walking
            &&& same_setup(s, t)
            &&& t.file_count == s.file_count + kept_files(items)
        }),
    decreases items.len(),
{
    if items.len() > 0 {
        let before = items.drop_last();
        assert forall|i: int| 0 <= i < before.len() implies reads_fit(#[trigger] before[i]) by {
            assert(before[i] == items[i]);
        }
        walk_counts_kept_files(s, before);
        let separator = s.platform.separator;
        let middle = run(s, walk_script(before, separator));
        assert(reads_fit(items[items.len() - 1]));
        item_is_counted_once(middle, items.last());
        run_of_both(s, walk_script(before, separator), item_script(items.last(), separator));
    }
}

/// An operation in which nothing goes wrong succeeds, whatever the level,
/// the patterns and the host, and reports the number of files that are
/// packed: the files of the traversal that no pattern excludes. Directories
/// and excluded items are not counted.
pub proof fn faultless_run_succeeds(s: PackState, items: Seq<Item>)
    requires
        s.failure is None,
        s.phase is Idle,
        s.file_count == 0,
        forall|i: int| 0 <= i < items.len() ==> reads_fit(#[trigger] items[i]),
    ensures
        ({
            let script = pack_script(items, s.platform.separator);
            &&& run(s, script).failure is None
            &&& run(s, script).phase is Done
            &&& run(s, script).file_count == kept_files(items)
            &&& last_order(s, script) == PackOrder::Done { file_count: kept_files(items) }
        }),
{
    let separator = s.platform.separator;
    let begin = plain(PackSignal::Begin);
    let done = plain(PackSignal::Completed);
    let ended = plain(PackSignal::Exhausted);
    let opening = seq![begin, done];
    let walk = walk_script(items, separator);
    let closing = seq![ended, done];
    assert(opening =~= seq![begin].push(done));
    run_of_one(s, begin);
    run_of_one_more(s, seq![begin], done);
    let walking = run(s, opening);
    assert(walking.phase is Walking && walking.failure is None && walking.file_count == 0);
    walk_counts_kept_files(walking, items);
    run_of_both(s, opening, walk);
    let walked = run(s, opening + walk);
    assert(closing =~= seq![ended].push(done));
    run_of_one(walked, ended);
    run_of_one_more(walked, seq![ended], done);
    run_of_both(s, opening + walk, closing);
    let script = opening + walk + closing;
    assert(script =~= (opening + walk + seq![ended]).push(done));
    assert(opening + walk + seq![ended] =~= (opening + walk).push(ended));
    run_of_one_more(s, opening + walk, ended);
    run_of_one_more(s, (opening + walk).push(ended), done);
}

/// The action puts an entry into the archive.
pub open spec fn writes_entry(order: PackOrder) -> bool {
    order is StartFile || order is AddDirectory
}

/// The entries that a run puts into the archive, in the order in which it
/// asks for them.
pub open spec fn entries_written(s: PackState, inputs: Seq<PackInput>) -> Seq<PackOrder>
    decreases inputs.len(),
{
    if inputs.len() == 0 {
        Seq::empty()
    } else if writes_entry(last_order(s, inputs)) {
        entries_written(s, inputs.drop_last()).push(last_order(s, inputs))
    } else {
        entries_written(s, inputs.drop_last())
    }
}

/// The entry that stands for an item: none for an excluded item and for the
/// source directory itself; for a file a file entry, for a directory a
/// marker, under the stored name and with the options of the operation.
pub open spec fn entry_of(s: PackState, item: Item) -> Seq<PackOrder> {
    let name = with_slashes(item.relative, s.platform.separator);
    if item.excluded {
        Seq::empty()
    } else if item.is_file {
        seq![PackOrder::StartFile { name, options: options_for(s, item.mode) }]
    } else if name.len() > 0 {
        seq![PackOrder::AddDirectory { name, options: options_for(s, item.mode) }]
    } else {
        Seq::empty()
    }
}

/// The entries that stand for the items of a traversal, in its order.
pub open spec fn entries_of(s: PackState, items: Seq<Item>) -> Seq<PackOrder>
    decreases items.len(),
{
    if items.len() == 0 {
        Seq::empty()
    } else {
        entries_of(s, items.drop_last()) + entry_of(s, items.last())
    }
}

proof fn entries_of_one_more(s: PackState, inputs: Seq<PackInput>, input: PackInput)
    ensures
        ({
            let order = pack_step(run(s, inputs), input.signal, input.excluded).1;
            entries_written(s, inputs.push(input)) == if writes_entry(order) {
                entries_written(s, inputs).push(order)
            } else {
                entries_written(s, inputs)
            }
        }),
{
    assert(inputs.push(input).drop_last() =~= inputs);
}

proof fn entries_of_one(s: PackState, input: PackInput)
    ensures
        ({
            let order = pack_step(s, input.signal, input.excluded).1;
            entries_written(s, seq![input]) == if writes_entry(order) {
                seq![order]
            } else {
                Seq::empty()
            }
        }),
{
    assert(seq![input] =~= Seq::<PackInput>::empty().push(input));
    entries_of_one_more(s, Seq::empty(), input);
    let order = pack_step(s, input.signal, input.excluded).1;
    assert(Seq::<PackOrder>::empty().push(order) =~= seq![order]);
}

/// The entries of two runs, one after the other, are the entries of the
/// first followed by those of the second.
pub proof fn entries_of_both(s: PackState, first: Seq<PackInput>, second: Seq<PackInput>)
    ensures
        entries_written(s, first + second) == entries_written(s, first) + entries_written(
            run(s, first),
            second,
        ),
    decreases second.len(),
{
    if second.len() == 0 {
        assert(first + second =~= first);
        assert(entries_written(s, first) + Seq::<PackOrder>::empty() =~= entries_written(s, first));
    } else {
        let whole = first + second;
        let rest = second.drop_last();
        assert(whole.drop_last() =~= first + rest);
        assert(whole.last() == second.last());
        entries_of_both(s, first, rest);
        run_of_both(s, first, rest);
        let a = entries_written(s, first);
        let b = entries_written(run(s, first), rest);
        let order = last_order(s, whole);
        assert(order == last_order(run(s, first), second));
        if writes_entry(order) {
            assert((a + b).push(order) =~= a + b.push(order));
        }
    }
}

/// Copying puts no entry into the archive.
pub proof fn copy_writes_no_entry(s: PackState, chunks: Seq<usize>)
    requires
        s.failure is None,
        s.phase is Reading,
        forall|i: int| 0 <= i < chunks.len() ==> 0 < #[trigger] chunks[i] <= COPY_BUFFER,
    ensures
        entries_written(s, copy_script(chunks)) == Seq::<PackOrder>::empty(),
    decreases chunks.len(),
{
    if chunks.len() > 0 {
        let before = chunks.drop_last();
        assert forall|i: int| 0 <= i < before.len() implies 0 < #[trigger] before[i]
            <= COPY_BUFFER by {
            assert(before[i] == chunks[i]);
        }
        copy_writes_no_entry(s, before);
        copy_keeps_the_state(s, before);
        let read = plain(PackSignal::Chunk(chunks.last()));
        let written = plain(PackSignal::Completed);
        run_of_one_more(s, copy_script(before), read);
        entries_of_one_more(s, copy_script(before), read);
        entries_of_one_more(s, copy_script(before).push(read), written);
        assert(0 < chunks[chunks.len() - 1] <= COPY_BUFFER);
    }
}

/// The reports of one item put exactly its entry into the archive.
pub proof fn item_writes_its_entry(s: PackState, item: Item)
    requires
        s.failure is None,
        s.phase is Walking,
        reads_fit(item),
    ensures
        entries_written(s, item_script(item, s.platform.separator)) == entry_of(s, item),
{
    let separator = s.platform.separator;
    let entry = PackInput {
        signal: PackSignal::Entry(Place::Relative(item.relative)),
        excluded: item.excluded,
    };
    let found = seq![entry];
    run_of_one(s, entry);
    entries_of_one(s, entry);
    if !item.excluded {
        let told = plain(PackSignal::Inspected { is_file: item.is_file, mode: item.mode });
        let inspected = found.push(told);
        run_of_one_more(s, found, told);
        entries_of_one_more(s, found, told);
        let done = plain(PackSignal::Completed);
        let order = pack_step(run(s, found), told.signal, false).1;
        assert(Seq::<PackOrder>::empty().push(order) =~= seq![order]);
        if item.is_file {
            let started = inspected.push(done);
            let opened = started.push(done);
            run_of_one_more(s, inspected, done);
            run_of_one_more(s, started, done);
            entries_of_one_more(s, inspected, done);
            entries_of_one_more(s, started, done);
            let reading = run(s, opened);
            let copying = copy_script(item.chunks);
            let end = plain(PackSignal::Chunk(0));
            copy_keeps_the_state(reading, item.chunks);
            copy_writes_no_entry(reading, item.chunks);
            entries_of_one_more(reading, copying, end);
            entries_of_both(s, opened, copying.push(end));
            assert(entries_written(s, opened) + Seq::<PackOrder>::empty() =~= entries_written(
                s,
                opened,
            ));
        } else if with_slashes(item.relative, separator).len() > 0 {
            run_of_one_more(s, inspected, done);
            entries_of_one_more(s, inspected, done);
        }
    }
}

/// The reports of a whole traversal put exactly the entries of its items
/// into the archive, in its order.
pub proof fn walk_writes_its_entries(s: PackState, items: Seq<Item>)
    requires
        s.failure is None,
        s.phase is Walking,
        forall|i: int| 0 <= i < items.len() ==> reads_fit(#[trigger] items[i]),
    ensures
        entries_written(s, walk_script(items, s.platform.separator)) == entries_of(s, items),
    decreases items.len(),
{
    if items.len() > 0 {
        let before = items.drop_last();
        assert forall|i: int| 0 <= i < before.len() implies reads_fit(#[trigger] before[i]) by {
            assert(before[i] == items[i]);
        }
        let separator = s.platform.separator;
        walk_writes_its_entries(s, before);
        walk_counts_kept_files(s, before);
        let middle = run(s, walk_script(before, separator));
        assert(reads_fit(items[items.len() - 1]));
        item_writes_its_entry(middle, items.last());
        entries_of_both(s, walk_script(before, separator), item_script(items.last(), separator));
        assert(entry_of(middle, items.last()) == entry_of(s, items.last()));
    }
}

/// In an operation in which nothing goes wrong, the entries of the archive
/// stand one to one, and in the same order, for the items of the traversal
/// that no pattern excludes, the source directory itself left out: a file
/// gives a file entry and a directory a marker, each under the relative path
/// with the host's separators turned into slashes, and each with the options
/// of the operation.
pub proof fn faultless_run_writes_the_kept_items(s: PackState, items: Seq<Item>)
    requires
        s.failure is None,
        s.phase is Idle,
        forall|i: int| 0 <= i < items.len() ==> reads_fit(#[trigger] items[i]),
    ensures
        entries_written(s, pack_script(items, s.platform.separator)) == entries_of(s, items),
{
    let separator = s.platform.separator;
    let begin = plain(PackSignal::Begin);
    let done = plain(PackSignal::Completed);
    let ended = plain(PackSignal::Exhausted);
    let opening = seq![begin, done];
    let walk = walk_script(items, separator);
    let closing = seq![ended, done];
    assert(opening =~= seq![begin].push(done));
    run_of_one(s, begin);
    run_of_one_more(s, seq![begin], done);
    entries_of_one(s, begin);
    entries_of_one_more(s, seq![begin], done);
    let walking = run(s, opening);
    walk_counts_kept_files(walking, items);
    walk_writes_its_entries(walking, items);
    assert(entries_of(walking, items) == entries_of(s, items)) by {
        entries_depend_on_setup(s, walking, items);
    }
    run_of_both(s, opening, walk);
    entries_of_both(s, opening, walk);
    let walked = run(s, opening + walk);
    assert(closing =~= seq![ended].push(done));
    run_of_one(walked, ended);
    entries_of_one(walked, ended);
    entries_of_one_more(walked, seq![ended], done);
    entries_of_both(s, opening + walk, closing);
    assert(entries_written(s, opening) + entries_of(s, items) + Seq::<PackOrder>::empty()
        =~= entries_of(s, items));
}

/// The entries that stand for items depend only on what the operation was
/// set up with.
pub proof fn entries_depend_on_setup(s: PackState, t: PackState, items: Seq<Item>)
    requires
        same_setup(s, t),
    ensures
        entries_of(t, items) == entries_of(s, items),
    decreases items.len(),
{
    if items.len() > 0 {
        entries_depend_on_setup(s, t, items.drop_last());
    }
}

} // verus!
