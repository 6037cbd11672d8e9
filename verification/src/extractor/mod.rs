//! The extractor: unpacks an archive into a directory tree.
//!
//! Like the archiver it is a state machine that decides and leaves the doing
//! to its driver.

pub mod laws;
pub mod machine;
pub mod protocol;
pub mod runs;
pub mod task;
