//! What holds of the two pipelines together.

use crate::archiver::machine::classify;
use crate::archiver::machine::PackState;
use crate::archiver::protocol::PackOrder;
use crate::extractor::machine::unpack_step;
use crate::extractor::machine::UnpackState;
use crate::extractor::protocol::Record;
use crate::extractor::protocol::UnpackOrder;
use crate::extractor::protocol::UnpackSignal;
use crate::names::names_directory;
use vstd::prelude::*;

verus! {

/// The kind of an entry survives a round trip. What the archiver starts as a
/// file, under a name that does not end with a slash, the extractor writes as
/// a file; what the archiver adds as a directory, stored under its name with
/// the slash that marks a directory, the extractor creates as a directory.
/// Either way the target is the path that the codec encloses the stored name
/// in, under the output directory.
pub proof fn kind_survives_round_trip(
    pack: PackState,
    is_file: bool,
    mode: Option<u32>,
    unpack: UnpackState,
    enclosed: Seq<char>,
    stored_mode: Option<u32>,
)
    requires
        unpack.failure is None,
        unpack.phase is Fetching,
    ensures
        ({
            let order = classify(pack, is_file, mode).1;
            &&& order matches PackOrder::StartFile { name, .. } ==> is_file && (!names_directory(
                name,
            ) ==> unpack_step(
                unpack,
                UnpackSignal::Stored(
                    Record { name, enclosed: Some(enclosed), unix_mode: stored_mode },
                ),
            ).1 == (UnpackOrder::EnsureParent { root: unpack.output_dir, relative: enclosed }))
            &&& order matches PackOrder::AddDirectory { name, .. } ==> !is_file && unpack_step(
                unpack,
                UnpackSignal::Stored(
                    Record { name: name.push('/'), enclosed: Some(enclosed), unix_mode: stored_mode },
                ),
            ).1 == (UnpackOrder::CreateDirectory { root: unpack.output_dir, relative: enclosed })
        }),
{
    let order = classify(pack, is_file, mode).1;
    if let PackOrder::AddDirectory { name, .. } = order {
        assert(name.push('/').last() == '/');
    }
}

} // verus!
