//! What applying a batch does to the files that stood in the target
//! directory before it, over a model of the file system: a map from path to
//! content, which every outcome handed to the applier agrees with.
use vstd::prelude::*;
use crate::applier::{ActionView, ApplierView, Event, Phase, enter_shape};
use crate::layout::separated;

verus! {

broadcast use enter_shape;

/// Files by path.
pub type Files = Map<Seq<char>, Seq<u8>>;

/// `fs` holds `content` at `path`.
pub open spec fn holds(fs: Files, path: Seq<char>, content: Seq<u8>) -> bool {
    fs.contains_key(path) && fs[path] == content
}

/// Performing action `a` on `fs` gave the outcome `e` and left `after`.
/// Creating a directory, probing and finishing change no file; a probe tells
/// the truth; a move that succeeded took the file from its source to a
/// destination that was free, and one that failed changed nothing; a write
/// changes at most the file it writes.
pub open spec fn performed(fs: Files, a: ActionView, e: Event, after: Files) -> bool {
    match a {
        ActionView::CreateDir { .. } => after == fs,
        ActionView::Probe { path } => after == fs && (e is Exists ==> e == Event::Exists(
            fs.contains_key(path),
        )),
        ActionView::MoveFile { from, to } => if e == Event::Moved(true) {
            fs.contains_key(from) && !fs.contains_key(to) && after == fs.remove(from).insert(
                to,
                fs[from],
            )
        } else {
            after == fs
        },
        ActionView::WriteFile { path, .. } => if e is Wrote {
            after.remove(path) == fs.remove(path)
        } else {
            after == fs
        },
        ActionView::Finish { .. } => after == fs,
    }
}

/// Every file that stood under the target directory in `before` still
/// stands there unchanged in `fs`, or stands unchanged at the same relative
/// path in the batch's backup folder; and while the applier waits for a
/// write, the file that stood at the path it writes is in the backup folder.
pub open spec fn originals_kept(before: Files, fs: Files, v: ApplierView) -> bool {
    &&& forall|rel: Seq<char>|
        #![trigger before.contains_key(v.target_root + rel)]
        before.contains_key(v.target_root + rel) ==> holds(
            fs,
            v.target_root + rel,
            before[v.target_root + rel],
        ) || holds(fs, v.backup_folder + rel, before[v.target_root + rel])
    &&& (v.phase is Write && before.contains_key(v.target_path())) ==> holds(
        fs,
        v.backup_path(),
        before[v.target_path()],
    )
}

proof fn concat_cancel(a: Seq<char>, r1: Seq<char>, r2: Seq<char>)
    requires
        a + r1 == a + r2,
    ensures
        r1 == r2,
{
    assert(r1 =~= (a + r1).subrange(a.len() as int, (a + r1).len() as int));
    assert(r2 =~= (a + r2).subrange(a.len() as int, (a + r2).len() as int));
}

proof fn separated_paths_differ(a: Seq<char>, b: Seq<char>, r1: Seq<char>, r2: Seq<char>)
    requires
        separated(a, b),
    ensures
        a + r1 != b + r2,
{
    if a + r1 == b + r2 {
        let s = a + r1;
        if a.len() <= b.len() {
            assert(a =~= s.subrange(0, a.len() as int));
            assert(a =~= b.subrange(0, a.len() as int)) by {
                assert(s.subrange(0, a.len() as int) =~= (b + r2).subrange(0, a.len() as int));
            }
        } else {
            assert(b =~= s.subrange(0, b.len() as int)) by {
                assert(s.subrange(0, b.len() as int) =~= (b + r2).subrange(0, b.len() as int));
            }
            assert(b =~= a.subrange(0, b.len() as int));
        }
    }
}

/// Before the first action nothing has moved.
pub proof fn originals_kept_at_start(before: Files, v: ApplierView)
    requires
        v.phase is BackupRoot,
    ensures
        originals_kept(before, before, v),
{
}

/// Each step keeps every file that stood under the target directory before
/// the batch, in place or in the batch's backup folder: a file is written
/// over only once it has been moved to the backup folder, and nothing in the
/// backup folder is replaced.
pub proof fn step_keeps_originals(before: Files, fs: Files, v: ApplierView, e: Event, after: Files)
    requires
        v.wf(),
        separated(v.target_root, v.backup_folder),
        originals_kept(before, fs, v),
        performed(fs, v.request(), e, after),
    ensures
        originals_kept(before, after, v.transition(e)),
{
    let w = v.transition(e);
    assert(w.target_root == v.target_root && w.backup_folder == v.backup_folder);
    match v.phase {
        Phase::Preserve => {
            if e == Event::Moved(true) {
                let p = v.target_path();
                let b = v.backup_path();
                assert forall|rel: Seq<char>|
                    #![trigger before.contains_key(v.target_root + rel)]
                    before.contains_key(v.target_root + rel) implies holds(
                        after,
                        v.target_root + rel,
                        before[v.target_root + rel],
                    ) || holds(after, v.backup_folder + rel, before[v.target_root + rel]) by {
                    separated_paths_differ(v.target_root, v.backup_folder, rel, v.rel());
                    separated_paths_differ(v.target_root, v.backup_folder, v.rel(), rel);
                    if v.target_root + rel == p {
                        concat_cancel(v.target_root, rel, v.rel());
                    }
                    if v.backup_folder + rel == b {
                        concat_cancel(v.backup_folder, rel, v.rel());
                    }
                }
                assert(w.target_path() == p && w.backup_path() == b);
            } else {
                assert(after == fs);
            }
        },
        Phase::Write => {
            let p = v.target_path();
            let b = v.backup_path();
            if let Event::Wrote(_) = e {
                assert forall|rel: Seq<char>|
                    #![trigger before.contains_key(v.target_root + rel)]
                    before.contains_key(v.target_root + rel) implies holds(
                        after,
                        v.target_root + rel,
                        before[v.target_root + rel],
                    ) || holds(after, v.backup_folder + rel, before[v.target_root + rel]) by {
                    separated_paths_differ(v.target_root, v.backup_folder, v.rel(), rel);
                    if v.target_root + rel == p {
                        concat_cancel(v.target_root, rel, v.rel());
                        assert(holds(fs, b, before[p]));
                        assert(b != p);
                        assert(fs.remove(p).contains_key(b));
                        assert(fs.remove(p)[b] == fs[b]);
                        assert(after.remove(p)[b] == after[b]);
                        assert(holds(after, b, before[p]));
                    } else {
                        let q = v.target_root + rel;
                        let c = v.backup_folder + rel;
                        separated_paths_differ(v.target_root, v.backup_folder, v.rel(), rel);
                        assert(c != p);
                        if holds(fs, q, before[q]) {
                            assert(fs.remove(p).contains_key(q));
                            assert(fs.remove(p)[q] == fs[q]);
                            assert(after.remove(p)[q] == after[q]);
                        } else {
                            assert(fs.remove(p).contains_key(c));
                            assert(fs.remove(p)[c] == fs[c]);
                            assert(after.remove(p)[c] == after[c]);
                        }
                    }
                }
            } else {
                assert(after == fs);
            }
        },
        Phase::Probe => {
            if e == Event::Exists(false) {
                let p = v.target_path();
                assert(!fs.contains_key(p));
                assert(w.target_path() == p && w.backup_path() == v.backup_path());
                if before.contains_key(p) {
                    assert(before.contains_key(v.target_root + v.rel()));
                }
            }
        },
        _ => {},
    }
}


/// A step keeps the applier's state well formed.
pub proof fn transition_keeps_wf(v: ApplierView, e: Event)
    requires
        v.wf(),
    ensures
        v.transition(e).wf(),
{
}

/// `files[k]` is what the file system held after the outcome `events[k]`,
/// each action having been performed as `performed` says, starting from the
/// applier in state `v` over the files `fs`.
pub open spec fn performed_run(v: ApplierView, fs: Files, events: Seq<Event>, files: Seq<Files>) -> bool
    decreases events.len(),
{
    events.len() == files.len() && (events.len() == 0 || (performed(
        fs,
        v.request(),
        events[0],
        files[0],
    ) && performed_run(v.transition(events[0]), files[0], events.drop_first(), files.drop_first())))
}

/// The applier's state after the outcomes `events`.
pub open spec fn state_after(v: ApplierView, events: Seq<Event>) -> ApplierView
    decreases events.len(),
{
    if events.len() == 0 {
        v
    } else {
        state_after(v.transition(events[0]), events.drop_first())
    }
}

/// The files after a run: the last entry of `files`, or `fs` if nothing
/// happened.
pub open spec fn files_after(fs: Files, files: Seq<Files>) -> Files {
    if files.len() == 0 {
        fs
    } else {
        files.last()
    }
}

proof fn run_keeps_originals_from(
    before: Files,
    fs: Files,
    v: ApplierView,
    events: Seq<Event>,
    files: Seq<Files>,
)
    requires
        v.wf(),
        separated(v.target_root, v.backup_folder),
        originals_kept(before, fs, v),
        performed_run(v, fs, events, files),
    ensures
        originals_kept(before, files_after(fs, files), state_after(v, events)),
    decreases events.len(),
{
    if events.len() > 0 {
        step_keeps_originals(before, fs, v, events[0], files[0]);
        transition_keeps_wf(v, events[0]);
        let w = v.transition(events[0]);
        assert(w.target_root == v.target_root && w.backup_folder == v.backup_folder);
        run_keeps_originals_from(before, files[0], w, events.drop_first(), files.drop_first());
        if files.len() > 1 {
            assert(files_after(files[0], files.drop_first()) == files_after(fs, files));
        } else {
            assert(files_after(files[0], files.drop_first()) == files[0]);
        }
    }
}

/// Over a whole batch, however each action turned out, every file that
/// stood under the target directory when the batch began is, after any
/// number of steps, unchanged in place or unchanged at the same relative
/// path in the batch's backup folder, provided that neither directory lies
/// inside the other. That holds of every batch of a layout that
/// `Layout::checked` accepts (`backup_folder_apart`).
pub proof fn batch_keeps_originals(before: Files, v: ApplierView, events: Seq<Event>, files: Seq<Files>)
    requires
        v.wf(),
        v.phase is BackupRoot,
        separated(v.target_root, v.backup_folder),
        performed_run(v, before, events, files),
    ensures
        originals_kept(before, files_after(before, files), state_after(v, events)),
{
    originals_kept_at_start(before, v);
    run_keeps_originals_from(before, before, v, events, files);
}

} // verus!
