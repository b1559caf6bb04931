//! The ways in which applying an update archive can stop short.
use vstd::prelude::*;

verus! {

/// Why an update batch was abandoned, or stopped after part of it was
/// applied.
#[derive(Clone, Copy, Debug, PartialEq, Eq)]
pub enum ApplyError {
    /// The archive could not be read or is no valid archive; nothing was
    /// touched.
    ArchiveUnreadable,
    /// The batch's backup folder could not be created; nothing was touched.
    BackupDirUnavailable,
    /// An entry of the archive could not be opened; the entries before it
    /// were applied.
    EntryUnreadable,
    /// A file about to be overwritten could not be moved into the backup
    /// folder; the entries before it were applied.
    BackupMoveFailed,
    /// The content of an entry could not be read or written; the entries
    /// before it were applied.
    ContentWriteFailed,
}

} // verus!
