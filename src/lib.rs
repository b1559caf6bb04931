//! An unattended updater's core: it finds update archives in a staging
//! directory, waits for the application to exit, applies each archive to the
//! application's directory while keeping every file it overwrites, and files
//! the archive away in a history or quarantine folder.
//!
//! The library decides and the caller acts: every file-system effect is an
//! action that the library asks for and the caller performs.

pub mod text;
pub mod stamp;
pub mod layout;
pub mod error;
pub mod archive;
pub mod applier;
pub mod gate;
pub mod scan;
pub mod config;
pub mod batch;
pub mod safety;
