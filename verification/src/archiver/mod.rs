//! The archiver: packs a directory tree into one archive.
//!
//! The archiver never touches the filesystem or the archive itself. It is a
//! state machine: the driver performs the action it is handed and reports
//! what came of it, and the machine decides what is done next.

pub mod laws;
pub mod machine;
pub mod protocol;
pub mod runs;
pub mod task;
