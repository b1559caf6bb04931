//! Applying one update archive to the target directory, with a backup of
//! every file it overwrites.
//!
//! The applier decides; the caller acts. Each state asks for one file-system
//! action (`Applier::action`); the caller performs it and hands the outcome
//! back (`Applier::step`), until the action is `Finish`.
use vstd::prelude::*;
use crate::archive::{ArchiveEntry, LoadedArchive, is_dir_name, dir_name};
use crate::error::ApplyError;
use crate::layout::{DirStatus, SEPARATOR};

verus! {

/// A character that separates path components in an entry name: zip
/// names use `/`, and `\\` separates components on the platform too.
pub open spec fn is_separator(c: char) -> bool {
    c == '/' || c == SEPARATOR
}

/// A component that names something inside its parent: not empty, `.` or
/// `..`.
pub open spec fn normal_component(c: Seq<char>) -> bool {
    c.len() > 0 && c != seq!['.'] && c != seq!['.', '.']
}

/// `out` with the component `c` added after a separator, if `c` is normal.
pub open spec fn join_component(out: Seq<char>, c: Seq<char>) -> Seq<char> {
    if !normal_component(c) {
        out
    } else if out.len() == 0 {
        c
    } else {
        out.push(SEPARATOR) + c
    }
}

/// The path joined from the normal components of `name` that end before
/// its last separator, and the component that follows that separator.
pub open spec fn components_scan(name: Seq<char>) -> (Seq<char>, Seq<char>)
    decreases name.len(),
{
    if name.len() == 0 {
        (Seq::empty(), Seq::empty())
    } else {
        let (out, cur) = components_scan(name.drop_last());
        if is_separator(name.last()) {
            (join_component(out, cur), Seq::empty())
        } else {
            (out, cur.push(name.last()))
        }
    }
}

/// The path of an entry relative to the target directory: the normal
/// components of its name, joined by the platform separator. Empty, `.` and
/// `..` components are dropped, so the path never leaves the directory it is
/// joined to.
pub open spec fn entry_path_spec(name: Seq<char>) -> Seq<char> {
    join_component(components_scan(name).0, components_scan(name).1)
}

fn is_normal_component(c: &String) -> (r: bool)
    ensures
        r == normal_component(c@),
{
    let n: usize = c.as_str().unicode_len();
    if n == 0 {
        return false;
    }
    let first: char = c.as_str().get_char(0);
    if n == 1 && first == '.' {
        assert(c@ =~= seq!['.']);
        return false;
    }
    if n == 2 && first == '.' && c.as_str().get_char(1) == '.' {
        assert(c@ =~= seq!['.', '.']);
        return false;
    }
    proof {
        if n == 1 {
            assert(c@[0] != seq!['.'][0]);
        }
        if n == 2 {
            assert(c@[0] != seq!['.', '.'][0] || c@[1] != seq!['.', '.'][1]);
        }
    }
    true
}

fn push_component(out: &mut String, c: &String)
    ensures
        final(out)@ == join_component(old(out)@, c@),
{
    if is_normal_component(c) {
        if out.as_str().unicode_len() == 0 {
            out.append(c.as_str());
            assert(final(out)@ =~= c@);
        } else {
            out.push(SEPARATOR);
            out.append(c.as_str());
        }
    }
}

/// The path of an archive entry relative to the target directory: its
/// normal components joined by the platform separator.
pub fn entry_path(name: &str) -> (r: String)
    ensures
        r@ == entry_path_spec(name@),
{
    let n: usize = name.unicode_len();
    let mut out = String::new();
    let mut cur = String::new();
    let mut i: usize = 0;
    while i < n
        invariant
            n == name@.len(),
            i <= n,
            (out@, cur@) == components_scan(name@.subrange(0, i as int)),
        decreases n - i,
    {
        let c: char = name.get_char(i);
        proof {
            let p = name@.subrange(0, i + 1);
            assert(p.drop_last() =~= name@.subrange(0, i as int));
            assert(p.last() == c);
        }
        if c == '/' || c == SEPARATOR {
            push_component(&mut out, &cur);
            cur = String::new();
        } else {
            cur.push(c);
        }
        i = i + 1;
    }
    proof {
        assert(name@.subrange(0, n as int) =~= name@);
    }
    push_component(&mut out, &cur);
    out
}

/// How many entries were applied, and why the batch stopped early if it
/// did.
#[derive(Clone, Copy, Debug, PartialEq, Eq)]
pub struct Applied {
    /// The directory entries that stand in the target directory and the
    /// file entries whose content was written.
    pub count: usize,
    /// `None` when the batch went through every entry of the archive.
    pub stopped: Option<ApplyError>,
}

/// What the applier waits for.
#[derive(Clone, Copy, Debug)]
pub enum Phase {
    /// The creation of the batch's backup folder.
    BackupRoot,
    /// The creation of a directory entry under the target directory.
    TargetDir,
    /// The creation of the mirror of an existing directory in the backup
    /// folder.
    MirrorDir,
    /// Whether a file entry's target exists.
    Probe,
    /// The move of an existing target file into the backup folder.
    Preserve,
    /// The writing of a file entry's content to its target.
    Write,
    /// Nothing: the batch is over.
    Finished(Result<Applied, ApplyError>),
}

/// What became of writing an entry's content to its target.
#[derive(Clone, Copy, Debug, PartialEq, Eq)]
pub enum WriteStatus {
    Written,
    /// The target file could not be created; nothing was written.
    NotCreated,
    /// The target file was created but copying the content failed.
    CopyFailed,
}

/// The outcome of the action that the applier asked for.
#[derive(Clone, Copy, Debug, PartialEq, Eq)]
pub enum Event {
    Dir(DirStatus),
    Exists(bool),
    Moved(bool),
    Wrote(WriteStatus),
}

/// A file-system action for the caller to perform.
#[derive(Debug)]
pub enum Action {
    /// Create one directory (not its parents); answer with `Event::Dir`.
    CreateDir { path: String },
    /// Tell whether a file exists; answer with `Event::Exists`.
    Probe { path: String },
    /// Rename a file, never replacing a file that stands at `to` already;
    /// answer with `Event::Moved`, `false` when `to` exists.
    MoveFile { from: String, to: String },
    /// Create or truncate a file and write the content of entry `entry`
    /// into it; answer with `Event::Wrote`.
    WriteFile { path: String, entry: usize },
    /// The batch is over.
    Finish { result: Result<Applied, ApplyError> },
}

pub ghost enum ActionView {
    CreateDir { path: Seq<char> },
    Probe { path: Seq<char> },
    MoveFile { from: Seq<char>, to: Seq<char> },
    WriteFile { path: Seq<char>, entry: nat },
    Finish { result: Result<Applied, ApplyError> },
}

impl View for Action {
    type V = ActionView;

    open spec fn view(&self) -> ActionView {
        match self {
            Action::CreateDir { path } => ActionView::CreateDir { path: path@ },
            Action::Probe { path } => ActionView::Probe { path: path@ },
            Action::MoveFile { from, to } => ActionView::MoveFile { from: from@, to: to@ },
            Action::WriteFile { path, entry } => ActionView::WriteFile {
                path: path@,
                entry: *entry as nat,
            },
            Action::Finish { result } => ActionView::Finish { result: *result },
        }
    }
}

/// What a warning is about.
#[derive(Clone, Copy, Debug, PartialEq, Eq)]
pub enum WarningKind {
    BackupDirFailed,
    TargetDirFailed,
    MirrorDirFailed,
    NothingToBackUp,
    MoveFailed,
    NotCreated,
    CopyFailed,
}

/// An event worth a line in the log, and the path it concerns.
#[derive(Debug)]
pub struct Warning {
    pub kind: WarningKind,
    pub path: String,
}

impl View for Warning {
    type V = (WarningKind, Seq<char>);

    open spec fn view(&self) -> (WarningKind, Seq<char>) {
        (self.kind, self.path@)
    }
}

/// Applies the entries of one archive, in order.
pub struct Applier {
    target_root: String,
    backup_folder: String,
    entries: Vec<ArchiveEntry>,
    stop: Option<ApplyError>,
    index: usize,
    applied: usize,
    phase: Phase,
}

pub ghost struct ApplierView {
    /// The target directory, ending with a separator.
    pub target_root: Seq<char>,
    /// The batch's backup folder, ending with a separator.
    pub backup_folder: Seq<char>,
    /// The name and content of each entry.
    pub entries: Seq<(Seq<char>, Seq<u8>)>,
    /// Why reading the archive stopped before its end, if it did.
    pub stop: Option<ApplyError>,
    /// The entry being applied.
    pub index: nat,
    /// How many entries have been applied.
    pub applied: nat,
    pub phase: Phase,
}

impl View for Applier {
    type V = ApplierView;

    closed spec fn view(&self) -> ApplierView {
        ApplierView {
            target_root: self.target_root@,
            backup_folder: self.backup_folder@,
            entries: self.entries@.map_values(|e: ArchiveEntry| e.view()),
            stop: self.stop,
            index: self.index as nat,
            applied: self.applied as nat,
            phase: self.phase,
        }
    }
}

impl ApplierView {
    pub open spec fn wf(&self) -> bool {
        &&& self.index <= self.entries.len()
        &&& self.applied <= self.index
        &&& self.entries.len() <= usize::MAX
        &&& match self.phase {
            Phase::BackupRoot => self.index == 0 && self.applied == 0,
            Phase::TargetDir | Phase::MirrorDir => self.index < self.entries.len() && is_dir_name(
                self.entries[self.index as int].0,
            ) && self.rel().len() > 0,
            Phase::Probe | Phase::Preserve | Phase::Write => self.index < self.entries.len()
                && !is_dir_name(self.entries[self.index as int].0) && self.rel().len() > 0,
            Phase::Finished(_) => true,
        }
    }

    /// The current entry's path relative to the target directory.
    pub open spec fn rel(&self) -> Seq<char> {
        entry_path_spec(self.entries[self.index as int].0)
    }

    /// Where the current entry goes.
    pub open spec fn target_path(&self) -> Seq<char> {
        self.target_root + self.rel()
    }

    /// Where the current entry's previous file or directory is preserved.
    pub open spec fn backup_path(&self) -> Seq<char> {
        self.backup_folder + self.rel()
    }

    /// The state after every entry before `i` has been dealt with, `count`
    /// of them applied. An entry whose path is empty names nothing under the
    /// target directory and is passed over.
    pub open spec fn enter(self, i: nat, count: nat) -> ApplierView
        decreases self.entries.len() - i,
    {
        if i >= self.entries.len() {
            ApplierView {
                index: i,
                applied: count,
                phase: Phase::Finished(Ok(Applied { count: count as usize, stopped: self.stop })),
                ..self
            }
        } else if entry_path_spec(self.entries[i as int].0).len() == 0 {
            self.enter(i + 1, count)
        } else if is_dir_name(self.entries[i as int].0) {
            ApplierView { index: i, applied: count, phase: Phase::TargetDir, ..self }
        } else {
            ApplierView { index: i, applied: count, phase: Phase::Probe, ..self }
        }
    }

    pub open spec fn with_phase(self, phase: Phase) -> ApplierView {
        ApplierView { phase, ..self }
    }

    /// The state that the outcome `e` of the requested action leads to. An
    /// outcome of another kind than the action asked for changes nothing.
    pub open spec fn transition(self, e: Event) -> ApplierView {
        match (self.phase, e) {
            (Phase::BackupRoot, Event::Dir(s)) => if s is Failed {
                self.with_phase(Phase::Finished(Err(ApplyError::BackupDirUnavailable)))
            } else {
                self.enter(0, 0)
            },
            (Phase::TargetDir, Event::Dir(s)) => match s {
                DirStatus::Created => self.enter(self.index + 1, self.applied + 1),
                DirStatus::AlreadyExisted => self.with_phase(Phase::MirrorDir),
                DirStatus::Failed => self.enter(self.index + 1, self.applied),
            },
            (Phase::MirrorDir, Event::Dir(_)) => self.enter(self.index + 1, self.applied + 1),
            (Phase::Probe, Event::Exists(b)) => if b {
                self.with_phase(Phase::Preserve)
            } else {
                self.with_phase(Phase::Write)
            },
            (Phase::Preserve, Event::Moved(ok)) => if ok {
                self.with_phase(Phase::Write)
            } else {
                self.with_phase(
                    Phase::Finished(
                        Ok(
                            Applied {
                                count: self.applied as usize,
                                stopped: Some(ApplyError::BackupMoveFailed),
                            },
                        ),
                    ),
                )
            },
            (Phase::Write, Event::Wrote(w)) => match w {
                WriteStatus::Written => self.enter(self.index + 1, self.applied + 1),
                WriteStatus::NotCreated => self.enter(self.index + 1, self.applied),
                WriteStatus::CopyFailed => self.with_phase(
                    Phase::Finished(
                        Ok(
                            Applied {
                                count: self.applied as usize,
                                stopped: Some(ApplyError::ContentWriteFailed),
                            },
                        ),
                    ),
                ),
            },
            _ => self,
        }
    }

    /// The action that the state asks for.
    pub open spec fn request(self) -> ActionView {
        match self.phase {
            Phase::BackupRoot => ActionView::CreateDir { path: self.backup_folder },
            Phase::TargetDir => ActionView::CreateDir { path: self.target_path() },
            Phase::MirrorDir => ActionView::CreateDir { path: self.backup_path() },
            Phase::Probe => ActionView::Probe { path: self.target_path() },
            Phase::Preserve => ActionView::MoveFile {
                from: self.target_path(),
                to: self.backup_path(),
            },
            Phase::Write => ActionView::WriteFile { path: self.target_path(), entry: self.index },
            Phase::Finished(result) => ActionView::Finish { result },
        }
    }

    /// The warning that the outcome `e` gives rise to, if any.
    pub open spec fn warning(self, e: Event) -> Option<(WarningKind, Seq<char>)> {
        match (self.phase, e) {
            (Phase::BackupRoot, Event::Dir(DirStatus::Failed)) => Some(
                (WarningKind::BackupDirFailed, self.backup_folder),
            ),
            (Phase::TargetDir, Event::Dir(DirStatus::Failed)) => Some(
                (WarningKind::TargetDirFailed, self.target_path()),
            ),
            (Phase::MirrorDir, Event::Dir(DirStatus::Failed)) => Some(
                (WarningKind::MirrorDirFailed, self.backup_path()),
            ),
            (Phase::Probe, Event::Exists(false)) => Some(
                (WarningKind::NothingToBackUp, self.target_path()),
            ),
            (Phase::Preserve, Event::Moved(false)) => Some(
                (WarningKind::MoveFailed, self.target_path()),
            ),
            (Phase::Write, Event::Wrote(WriteStatus::NotCreated)) => Some(
                (WarningKind::NotCreated, self.target_path()),
            ),
            (Phase::Write, Event::Wrote(WriteStatus::CopyFailed)) => Some(
                (WarningKind::CopyFailed, self.target_path()),
            ),
            _ => None,
        }
    }
}


impl Applier {
    /// An applier for the entries of `archive`, which writes under
    /// `target_root` and preserves what it overwrites under `backup_folder`
    /// (both ending with a separator). It first asks for the backup folder.
    pub fn new(target_root: String, backup_folder: String, archive: LoadedArchive) -> (r: Applier)
        ensures
            r@ == (ApplierView {
                target_root: target_root@,
                backup_folder: backup_folder@,
                entries: archive.entries_view(),
                stop: archive.stop,
                index: 0,
                applied: 0,
                phase: Phase::BackupRoot,
            }),
            r@.wf(),
    {
        let LoadedArchive { entries, stop } = archive;
        let n: usize = entries.len();
        proof {
            assert(entries@.map_values(|e: ArchiveEntry| e.view()).len() == n);
        }
        Applier { target_root, backup_folder, entries, stop, index: 0, applied: 0, phase: Phase::BackupRoot }
    }

    /// The content of entry `i`.
    pub fn content(&self, i: usize) -> (r: &Vec<u8>)
        requires
            i < self@.entries.len(),
        ensures
            r@ == self@.entries[i as int].1,
    {
        &self.entries[i].content
    }

    /// The number of entries read from the archive.
    pub fn entry_count(&self) -> (r: usize)
        ensures
            r == self@.entries.len(),
    {
        self.entries.len()
    }

    /// The result of the batch, once it is over.
    pub fn result(&self) -> (r: Option<Result<Applied, ApplyError>>)
        ensures
            r == (match self@.phase {
                Phase::Finished(res) => Some(res),
                _ => None,
            }),
    {
        match self.phase {
            Phase::Finished(res) => Some(res),
            _ => None,
        }
    }

    fn rel(&self) -> (r: String)
        requires
            self.index < self.entries@.len(),
        ensures
            r@ == self@.rel(),
    {
        entry_path(self.entries[self.index].name.as_str())
    }

    fn target_path(&self) -> (r: String)
        requires
            self.index < self.entries@.len(),
        ensures
            r@ == self@.target_path(),
    {
        let mut p = self.target_root.clone();
        let rel = self.rel();
        p.append(rel.as_str());
        p
    }

    fn backup_path(&self) -> (r: String)
        requires
            self.index < self.entries@.len(),
        ensures
            r@ == self@.backup_path(),
    {
        let mut p = self.backup_folder.clone();
        let rel = self.rel();
        p.append(rel.as_str());
        p
    }

    /// The action that the applier asks for now.
    pub fn action(&self) -> (r: Action)
        requires
            self@.wf(),
        ensures
            r@ == self@.request(),
    {
        match self.phase {
            Phase::BackupRoot => Action::CreateDir { path: self.backup_folder.clone() },
            Phase::TargetDir => Action::CreateDir { path: self.target_path() },
            Phase::MirrorDir => Action::CreateDir { path: self.backup_path() },
            Phase::Probe => Action::Probe { path: self.target_path() },
            Phase::Preserve => Action::MoveFile { from: self.target_path(), to: self.backup_path() },
            Phase::Write => Action::WriteFile { path: self.target_path(), entry: self.index },
            Phase::Finished(result) => Action::Finish { result },
        }
    }

    fn enter(&mut self, i: usize, count: usize)
        requires
            i <= old(self).entries@.len(),
            count <= i,
        ensures
            final(self)@ == old(self)@.enter(i as nat, count as nat),
    {
        proof {
            broadcast use enter_shape;
        }
        let mut j: usize = i;
        while j < self.entries.len() && entry_path(self.entries[j].name.as_str()).as_str().unicode_len() == 0
            invariant
                *self == *old(self),
                i <= j <= self.entries@.len(),
                old(self)@.enter(i as nat, count as nat) == old(self)@.enter(j as nat, count as nat),
            decreases self.entries@.len() - j,
        {
            j = j + 1;
        }
        let i = j;
        self.index = i;
        self.applied = count;
        if i >= self.entries.len() {
            self.phase = Phase::Finished(Ok(Applied { count, stopped: self.stop }));
        } else if dir_name(self.entries[i].name.as_str()) {
            self.phase = Phase::TargetDir;
        } else {
            self.phase = Phase::Probe;
        }
    }

    fn warning_for(&self, e: Event) -> (r: Option<Warning>)
        requires
            self@.wf(),
        ensures
            r matches Some(w) ==> self@.warning(e) == Some(w@),
            r is None ==> self@.warning(e) is None,
    {
        match (self.phase, e) {
            (Phase::BackupRoot, Event::Dir(DirStatus::Failed)) => Some(
                Warning { kind: WarningKind::BackupDirFailed, path: self.backup_folder.clone() },
            ),
            (Phase::TargetDir, Event::Dir(DirStatus::Failed)) => Some(
                Warning { kind: WarningKind::TargetDirFailed, path: self.target_path() },
            ),
            (Phase::MirrorDir, Event::Dir(DirStatus::Failed)) => Some(
                Warning { kind: WarningKind::MirrorDirFailed, path: self.backup_path() },
            ),
            (Phase::Probe, Event::Exists(false)) => Some(
                Warning { kind: WarningKind::NothingToBackUp, path: self.target_path() },
            ),
            (Phase::Preserve, Event::Moved(false)) => Some(
                Warning { kind: WarningKind::MoveFailed, path: self.target_path() },
            ),
            (Phase::Write, Event::Wrote(WriteStatus::NotCreated)) => Some(
                Warning { kind: WarningKind::NotCreated, path: self.target_path() },
            ),
            (Phase::Write, Event::Wrote(WriteStatus::CopyFailed)) => Some(
                Warning { kind: WarningKind::CopyFailed, path: self.target_path() },
            ),
            _ => None,
        }
    }

    /// Takes the outcome of the action asked for and moves on; returns the
    /// warning that the outcome gives rise to, if any.
    pub fn step(&mut self, e: Event) -> (r: Option<Warning>)
        requires
            old(self)@.wf(),
        ensures
            final(self)@ == old(self)@.transition(e),
            final(self)@.wf(),
            r matches Some(w) ==> old(self)@.warning(e) == Some(w@),
            r is None ==> old(self)@.warning(e) is None,
    {
        proof {
            broadcast use enter_shape;
        }
        let w = self.warning_for(e);
        match (self.phase, e) {
            (Phase::BackupRoot, Event::Dir(s)) => {
                if s.usable() {
                    self.enter(0, 0);
                } else {
                    self.phase = Phase::Finished(Err(ApplyError::BackupDirUnavailable));
                }
            },
            (Phase::TargetDir, Event::Dir(s)) => match s {
                DirStatus::Created => self.enter(self.index + 1, self.applied + 1),
                DirStatus::AlreadyExisted => self.phase = Phase::MirrorDir,
                DirStatus::Failed => self.enter(self.index + 1, self.applied),
            },
            (Phase::MirrorDir, Event::Dir(_)) => self.enter(self.index + 1, self.applied + 1),
            (Phase::Probe, Event::Exists(b)) => {
                if b {
                    self.phase = Phase::Preserve;
                } else {
                    self.phase = Phase::Write;
                }
            },
            (Phase::Preserve, Event::Moved(ok)) => {
                if ok {
                    self.phase = Phase::Write;
                } else {
                    self.phase = Phase::Finished(
                        Ok(Applied { count: self.applied, stopped: Some(ApplyError::BackupMoveFailed) }),
                    );
                }
            },
            (Phase::Write, Event::Wrote(ws)) => match ws {
                WriteStatus::Written => self.enter(self.index + 1, self.applied + 1),
                WriteStatus::NotCreated => self.enter(self.index + 1, self.applied),
                WriteStatus::CopyFailed => {
                    self.phase = Phase::Finished(
                        Ok(
                            Applied {
                                count: self.applied,
                                stopped: Some(ApplyError::ContentWriteFailed),
                            },
                        ),
                    );
                },
            },
            _ => {},
        }
        w
    }
}



/// Entering entry `i` keeps everything but the position, the count and the
/// phase; it lands on the first entry from `i` on whose path is not empty,
/// in the phase of its kind, or finishes with `count` entries applied.
pub broadcast proof fn enter_shape(v: ApplierView, i: nat, count: nat)
    ensures
        ({
            let w = #[trigger] v.enter(i, count);
            &&& w.target_root == v.target_root
            &&& w.backup_folder == v.backup_folder
            &&& w.entries == v.entries
            &&& w.stop == v.stop
            &&& w.applied == count
            &&& w.index >= i
            &&& (w.index >= v.entries.len() ==> w.phase == Phase::Finished(
                Ok(Applied { count: count as usize, stopped: v.stop }),
            ) && w.index == if i >= v.entries.len() { i } else { v.entries.len() })
            &&& (w.index < v.entries.len() ==> w.rel().len() > 0 && if is_dir_name(
                v.entries[w.index as int].0,
            ) {
                w.phase is TargetDir
            } else {
                w.phase is Probe
            })
        }),
    decreases v.entries.len() - i,
{
    if i < v.entries.len() && entry_path_spec(v.entries[i as int].0).len() == 0 {
        enter_shape(v, i + 1, count);
    }
}

/// A target file is written over only once the applier has learnt that
/// nothing stood at its path, or after the file that stood there was moved
/// to the same relative path inside the batch's backup folder: a step that
/// leads to a write request comes from the probe that found the path empty
/// or from the move that succeeded.
pub proof fn overwrite_only_after_backup(v: ApplierView, e: Event)
    requires
        v.wf(),
    ensures
        v.transition(e).request() is WriteFile && !(v.request() is WriteFile) ==> {
            &&& v.transition(e).request() == ActionView::WriteFile {
                path: v.target_path(),
                entry: v.index,
            }
            &&& v.target_path() == v.target_root + v.rel()
            &&& v.backup_path() == v.backup_folder + v.rel()
            &&& (v.request() == ActionView::Probe { path: v.target_path() } && e == Event::Exists(
                false,
            )) || (v.request() == ActionView::MoveFile {
                from: v.target_path(),
                to: v.backup_path(),
            } && e == Event::Moved(true))
        },
{
    broadcast use enter_shape;

    let w = v.transition(e);
    if w.request() is WriteFile {
        assert(w.phase is Write);
        assert(w.index == v.index && w.entries == v.entries);
    }
}

/// Only a file that the applier found at its target path is ever moved into
/// the backup folder: a step that leads to a move request comes from the
/// probe that found the file there. An update into an empty target
/// directory therefore puts nothing in the backup folder.
pub proof fn moves_only_existing_files(v: ApplierView, e: Event)
    requires
        v.wf(),
    ensures
        v.transition(e).request() is MoveFile && !(v.request() is MoveFile) ==> {
            &&& v.request() == ActionView::Probe { path: v.target_path() }
            &&& e == Event::Exists(true)
            &&& v.transition(e).request() == ActionView::MoveFile {
                from: v.target_path(),
                to: v.backup_path(),
            }
        },
{
    broadcast use enter_shape;

    let w = v.transition(e);
    if w.request() is MoveFile {
        assert(w.phase is Preserve);
        assert(w.index == v.index && w.entries == v.entries);
    }
}

/// When a file that is about to be overwritten cannot be moved into the
/// backup folder, the batch ends there: the applier asks for nothing more,
/// whatever it is told afterwards.
pub proof fn failed_backup_stops_batch(v: ApplierView, e: Event)
    requires
        v.wf(),
        v.phase is Preserve,
    ensures
        v.transition(Event::Moved(false)).request() == (ActionView::Finish {
            result: Ok(
                Applied { count: v.applied as usize, stopped: Some(ApplyError::BackupMoveFailed) },
            ),
        }),
        v.transition(Event::Moved(false)).transition(e) == v.transition(Event::Moved(false)),
{
}

/// A batch that is over stays over.
pub proof fn finished_is_final(v: ApplierView, e: Event)
    requires
        v.phase is Finished,
    ensures
        v.transition(e) == v,
{
}

} // verus!
