//! An unpack operation as the caller asks for it.

use vstd::prelude::*;

verus! {

/// One unpack operation: the archive to read and the directory to fill.
#[derive(Clone, Debug, PartialEq, Eq)]
pub struct UncompressTask {
    pub source_path: String,
    pub output_dir: String,
}

/// Prepares an unpack operation.
pub fn unzip(source_path: String, output_dir: String) -> (r: UncompressTask)
    ensures
        r.source_path == source_path,
        r.output_dir == output_dir,
{
    UncompressTask { source_path, output_dir }
}

} // verus!
