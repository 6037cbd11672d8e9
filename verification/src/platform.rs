//! What the host platform is able to do, handed in by the caller.

use vstd::prelude::*;

verus! {

/// The capabilities of the host that the two pipelines consult.
#[derive(Clone, Copy, Debug, PartialEq, Eq, Structural)]
pub struct Platform {
    /// The character that separates the components of a path on the host.
    pub separator: char,
    /// Whether files and directories carry POSIX permission bits.
    pub permission_bits: bool,
}

impl Platform {
    /// The permission mode to keep for an entry: the one that was found,
    /// where the host has permission bits at all.
    pub open spec fn mode_of(self, found: Option<u32>) -> Option<u32> {
        if self.permission_bits {
            found
        } else {
            None
        }
    }

    /// Filters a permission mode by the host's capability.
    pub fn mode(&self, found: Option<u32>) -> (r: Option<u32>)
        ensures
            r == self.mode_of(found),
    {
        if self.permission_bits {
            found
        } else {
            None
        }
    }
}

} // verus!
