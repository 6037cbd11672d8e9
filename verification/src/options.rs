//! The caller's options, and the options each archive entry is written with.

use crate::platform::Platform;
use vstd::prelude::*;

verus! {

/// The compression level used where the caller names none.
pub const DEFAULT_LEVEL: i32 = 1;

/// The lowest compression level.
pub const MIN_LEVEL: i32 = 0;

/// The highest compression level.
pub const MAX_LEVEL: i32 = 9;

/// What the caller may choose for a pack operation.
#[derive(Clone, Debug, PartialEq, Eq)]
pub struct ZipOptions {
    /// The compression level, 0 to 9; the default where it is absent.
    pub level: Option<i32>,
    /// Glob patterns; an entry whose name one of them matches is left out.
    pub exclude: Option<Vec<String>>,
}

/// The level that stands for the caller's choice.
pub open spec fn resolved(level: Option<i32>) -> i32 {
    match level {
        Some(l) => l,
        None => DEFAULT_LEVEL,
    }
}

/// The levels that the archive codec is asked for.
pub open spec fn level_in_range(level: int) -> bool {
    MIN_LEVEL <= level <= MAX_LEVEL
}

/// The pattern texts that the caller's choice holds, in order.
pub open spec fn exclude_texts(exclude: Option<Vec<String>>) -> Seq<Seq<char>> {
    match exclude {
        Some(list) => Seq::new(list@.len(), |i: int| list@[i]@),
        None => Seq::empty(),
    }
}

impl ZipOptions {
    /// The options used where the caller gives none.
    pub fn standard() -> (r: ZipOptions)
        ensures
            r.level == Some(DEFAULT_LEVEL),
            r.exclude is None,
    {
        ZipOptions { level: Some(DEFAULT_LEVEL), exclude: None }
    }

    /// The compression level once the default is filled in.
    pub open spec fn spec_resolved_level(&self) -> i32 {
        resolved(self.level)
    }

    /// The compression level once the default is filled in.
    #[verifier::when_used_as_spec(spec_resolved_level)]
    pub fn resolved_level(&self) -> (r: i32)
        ensures
            r == resolved(self.level),
    {
        match self.level {
            Some(l) => l,
            None => DEFAULT_LEVEL,
        }
    }

    /// Whether the resolved level lies in 0..=9.
    pub open spec fn valid(&self) -> bool {
        level_in_range(resolved(self.level) as int)
    }

    /// Tests whether the resolved level lies in 0..=9.
    pub fn is_valid(&self) -> (r: bool)
        ensures
            r == self.valid(),
    {
        let level = self.resolved_level();
        MIN_LEVEL <= level && level <= MAX_LEVEL
    }
}

/// How the bytes of an entry are compressed.
#[derive(Clone, Copy, Debug, PartialEq, Eq, Structural)]
pub enum Compression {
    /// No compression.
    Stored,
    /// The deflate algorithm.
    Deflated,
}

/// What an archive entry is written with.
#[derive(Clone, Copy, Debug, PartialEq, Eq, Structural)]
pub struct EntryOptions {
    /// The compression method.
    pub method: Compression,
    /// The compression level.
    pub level: i64,
    /// Whether the entry is written with the large-file (Zip64) extension.
    pub large_file: bool,
    /// The Unix permission mode to record, if any.
    pub unix_mode: Option<u32>,
}

/// The options of an entry: deflate at the given level, always with the
/// large-file extension, and with the permission mode that was found where
/// the host has permission bits.
pub open spec fn entry_options(level: i64, platform: Platform, found: Option<u32>) -> EntryOptions {
    EntryOptions {
        method: Compression::Deflated,
        level,
        large_file: true,
        unix_mode: platform.mode_of(found),
    }
}

impl EntryOptions {
    /// Derives the options of one entry.
    pub fn derive(level: i64, platform: &Platform, found: Option<u32>) -> (r: EntryOptions)
        ensures
            r == entry_options(level, *platform, found),
    {
        EntryOptions {
            method: Compression::Deflated,
            level,
            large_file: true,
            unix_mode: platform.mode(found),
        }
    }
}

} // verus!
