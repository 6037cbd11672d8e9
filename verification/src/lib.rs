//! Verified decision core for packing a directory tree into a ZIP archive and
//! unpacking an archive into a directory tree.
//!
//! The library decides; its driver does. The [`archiver`] and the
//! [`extractor`] are state machines that are handed what happened and answer
//! with what to do next, so that every choice of either pipeline (what is
//! excluded, under which name an entry is stored, with which options, what is
//! counted, which entry is passed over, which failure is reported) is stated
//! in a contract and proved.

pub mod archiver;
pub mod error;
pub mod exclude;
pub mod extractor;
pub mod laws;
pub mod names;
pub mod options;
pub mod platform;
pub mod text;

pub use archiver::task::zip;
pub use archiver::task::CompressTask;
pub use extractor::task::unzip;
pub use extractor::task::UncompressTask;
pub use options::ZipOptions;
