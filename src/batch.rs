//! One update batch: an archive found in the staging directory, the moment
//! it was found, and the folders named after that moment.
use vstd::prelude::*;
use crate::applier::{Applied, Applier, ApplierView, Phase};
use crate::archive::LoadedArchive;
use crate::error::ApplyError;
use crate::layout::{Layout, LayoutView, SEPARATOR, separated, separated_below};
use crate::scan::FoundFile;
use crate::stamp::{Timestamp, local_now};

verus! {

/// Pause between two polls of the process list, in milliseconds.
pub const POLL_INTERVAL_MS: u64 = 1000;

/// Pause between two passes over the staging directory, in milliseconds.
pub const CYCLE_PAUSE_MS: u64 = 30000;

/// The folders of a batch. All of them carry the batch's one timestamp.
pub struct Batch {
    /// The archive's full path in the staging directory.
    pub archive_path: String,
    /// The archive's file name.
    pub archive_name: String,
    /// When the archive was found.
    pub stamp: Timestamp,
    /// Where the files that the batch overwrites are kept.
    pub backup_folder: String,
    /// Where the archive goes once applied.
    pub history_folder: String,
    /// The archive's path inside `history_folder`.
    pub history_path: String,
    /// Where the archive goes if it cannot be read.
    pub quarantine_folder: String,
    /// The archive's path inside `quarantine_folder`.
    pub quarantine_path: String,
}

pub ghost struct BatchView {
    pub archive_path: Seq<char>,
    pub archive_name: Seq<char>,
    pub stamp: Timestamp,
    pub backup_folder: Seq<char>,
    pub history_folder: Seq<char>,
    pub history_path: Seq<char>,
    pub quarantine_folder: Seq<char>,
    pub quarantine_path: Seq<char>,
}

impl View for Batch {
    type V = BatchView;

    open spec fn view(&self) -> BatchView {
        BatchView {
            archive_path: self.archive_path@,
            archive_name: self.archive_name@,
            stamp: self.stamp,
            backup_folder: self.backup_folder@,
            history_folder: self.history_folder@,
            history_path: self.history_path@,
            quarantine_folder: self.quarantine_folder@,
            quarantine_path: self.quarantine_path@,
        }
    }
}

/// The batch of the archive `found` under `layout`, started at `stamp`:
/// `<backup root><stamp>\`, `<history><stamp>\<name>` and
/// `<quarantine><stamp>\<name>`.
pub open spec fn batch_of(l: LayoutView, found: (Seq<char>, Seq<char>), stamp: Timestamp) -> BatchView {
    let folder = stamp.folder_name_spec().push(SEPARATOR);
    BatchView {
        archive_path: found.0,
        archive_name: found.1,
        stamp,
        backup_folder: l.backup_root + folder,
        history_folder: l.history + folder,
        history_path: l.history + folder + found.1,
        quarantine_folder: l.quarantine + folder,
        quarantine_path: l.quarantine + folder + found.1,
    }
}

fn joined(dir: &String, folder: &String) -> (r: String)
    ensures
        r@ == dir@ + folder@,
{
    let mut p = dir.clone();
    p.append(folder.as_str());
    p
}

impl Batch {
    /// The batch of the archive `found`, started at `stamp`.
    pub fn new(layout: &Layout, found: &FoundFile, stamp: Timestamp) -> (r: Batch)
        ensures
            r@ == batch_of(layout@, found@, stamp),
    {
        let mut folder = stamp.folder_name();
        folder.push(SEPARATOR);
        let backup_folder = joined(&layout.backup_root, &folder);
        let history_folder = joined(&layout.history, &folder);
        let history_path = joined(&history_folder, &found.name);
        let quarantine_folder = joined(&layout.quarantine, &folder);
        let quarantine_path = joined(&quarantine_folder, &found.name);
        Batch {
            archive_path: found.path.clone(),
            archive_name: found.name.clone(),
            stamp,
            backup_folder,
            history_folder,
            history_path,
            quarantine_folder,
            quarantine_path,
        }
    }

    /// The batch of the archive `found`, stamped with the local time now.
    /// The stamp is taken once, so that all the batch's folders share it.
    pub fn begin(layout: &Layout, found: &FoundFile) -> (r: Batch)
        ensures
            r.stamp.wf(),
            r@ == batch_of(layout@, found@, r.stamp),
    {
        let stamp = local_now();
        Batch::new(layout, found, stamp)
    }

    /// The applier that writes the archive's entries under the target
    /// directory and keeps what they overwrite in the batch's backup folder.
    pub fn applier(&self, layout: &Layout, archive: LoadedArchive) -> (r: Applier)
        ensures
            r@ == (ApplierView {
                target_root: layout@.target_root,
                backup_folder: self@.backup_folder,
                entries: archive.entries_view(),
                stop: archive.stop,
                index: 0,
                applied: 0,
                phase: Phase::BackupRoot,
            }),
            r@.wf(),
    {
        Applier::new(layout.target_root.clone(), self.backup_folder.clone(), archive)
    }
}

/// When the target directory and the backup root lie apart, so do the
/// target directory and every batch's backup folder.
pub proof fn backup_folder_apart(l: LayoutView, found: (Seq<char>, Seq<char>), stamp: Timestamp)
    requires
        separated(l.target_root, l.backup_root),
    ensures
        separated(l.target_root, batch_of(l, found, stamp).backup_folder),
{
    separated_below(l.target_root, l.backup_root, stamp.folder_name_spec().push(SEPARATOR));
}

/// Where an archive goes once its batch is over.
#[derive(Clone, Copy, Debug, PartialEq, Eq, Structural)]
pub enum Disposition {
    /// Into the batch's quarantine folder: it could not be read.
    Quarantine,
    /// Into the batch's history folder: it was applied, fully or in part.
    History,
    /// Nowhere: it stays in the staging directory and is tried again in the
    /// next pass.
    Keep,
}

pub open spec fn disposition_spec(result: Result<Applied, ApplyError>) -> Disposition {
    match result {
        Ok(_) => Disposition::History,
        Err(ApplyError::ArchiveUnreadable) => Disposition::Quarantine,
        Err(_) => Disposition::Keep,
    }
}

/// Where the archive of a batch with this result goes.
pub fn disposition(result: Result<Applied, ApplyError>) -> (r: Disposition)
    ensures
        r == disposition_spec(result),
{
    match result {
        Ok(_) => Disposition::History,
        Err(ApplyError::ArchiveUnreadable) => Disposition::Quarantine,
        Err(_) => Disposition::Keep,
    }
}

/// An archive that cannot be read is bound for its batch's quarantine
/// folder, not for the history, and lands there under its own name:
/// `<quarantine><stamp>\<name>`.
pub proof fn unreadable_goes_to_quarantine(l: LayoutView, found: (Seq<char>, Seq<char>), stamp: Timestamp)
    ensures
        disposition_spec(Err(ApplyError::ArchiveUnreadable)) == Disposition::Quarantine,
        disposition_spec(Err(ApplyError::ArchiveUnreadable)) != Disposition::History,
        batch_of(l, found, stamp).quarantine_path == l.quarantine + stamp.folder_name_spec().push(
            SEPARATOR,
        ) + found.1,
{
}

/// One pass over the staging directory: whether any archive was applied.
pub struct Cycle {
    pub any_applied: bool,
}

impl Cycle {
    pub fn new() -> (r: Cycle)
        ensures
            !r.any_applied,
    {
        Cycle { any_applied: false }
    }

    /// Records the result of one batch.
    pub fn record(&mut self, result: Result<Applied, ApplyError>)
        ensures
            final(self).any_applied == (old(self).any_applied || result is Ok),
    {
        if result.is_ok() {
            self.any_applied = true;
        }
    }

    /// Whether the pass ends by telling the user that the update is done:
    /// when at least one archive was applied.
    pub fn announce_completion(&self) -> (r: bool)
        ensures
            r == self.any_applied,
    {
        self.any_applied
    }
}

} // verus!
