//! A pack operation as the caller asks for it.

use crate::error::Failure;
use crate::error::Fault;
use crate::error::ZipError;
use crate::options::level_in_range;
use crate::options::resolved;
use crate::options::ZipOptions;
use crate::options::DEFAULT_LEVEL;
use crate::text::decimal;
use crate::text::decimal_text;
use vstd::prelude::*;

verus! {

/// One pack operation: the tree to pack, the archive to write, the options.
#[derive(Clone, Debug, PartialEq, Eq)]
pub struct CompressTask {
    pub source_dir: String,
    pub output_path: String,
    pub options: ZipOptions,
}

/// The options that stand for the caller's choice: the standard ones where
/// the caller gives none.
pub open spec fn chosen(options: Option<ZipOptions>) -> ZipOptions {
    match options {
        Some(given) => given,
        None => ZipOptions { level: Some(DEFAULT_LEVEL), exclude: None },
    }
}

impl CompressTask {
    /// The resolved compression level lies in 0..=9.
    pub open spec fn valid(&self) -> bool {
        self.options.valid()
    }
}

/// Prepares a pack operation. The compression level is checked here, before
/// anything touches the filesystem: a level outside 0..=9 is refused with a
/// message that names it, and every level inside is accepted.
pub fn zip(source_dir: String, output_path: String, options: Option<ZipOptions>) -> (r: Result<
    CompressTask,
    ZipError,
>)
    ensures
        r is Ok <==> level_in_range(resolved(chosen(options).level) as int),
        r matches Ok(task) ==> {
            &&& task.source_dir == source_dir
            &&& task.output_path == output_path
            &&& task.options == chosen(options)
            &&& task.valid()
        },
        r matches Err(e) ==> e@ == (Fault {
            kind: Failure::LevelOutOfRange,
            detail: decimal_text(resolved(chosen(options).level) as int),
        }),
{
    let opts = match options {
        Some(given) => given,
        None => ZipOptions::standard(),
    };
    let level = opts.resolved_level();
    if !opts.is_valid() {
        return Err(ZipError::new(Failure::LevelOutOfRange, decimal(level)));
    }
    Ok(CompressTask { source_dir, output_path, options: opts })
}

} // verus!
