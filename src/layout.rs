//! The fixed set of working directories derived from the configured roots.
use vstd::prelude::*;

verus! {

/// The platform's path separator.
pub const SEPARATOR: char = '\\';

/// What became of a request to create one directory.
#[derive(Clone, Copy, Debug, PartialEq, Eq)]
pub enum DirStatus {
    Created,
    AlreadyExisted,
    Failed,
}

impl DirStatus {
    /// The directory stands, whether it was made now or was there before.
    pub open spec fn usable_spec(&self) -> bool {
        !(*self is Failed)
    }

    /// True unless the creation failed for a reason other than the
    /// directory being there already.
    pub fn usable(&self) -> (r: bool)
        ensures
            r == self.usable_spec(),
    {
        match self {
            DirStatus::Failed => false,
            _ => true,
        }
    }
}

/// `dir` as a directory prefix: with a separator at its end.
pub open spec fn dir_form(dir: Seq<char>) -> Seq<char> {
    if dir.len() > 0 && dir.last() == SEPARATOR {
        dir
    } else {
        dir.push(SEPARATOR)
    }
}

/// Returns `dir` with a separator appended unless it already ends with one.
pub fn with_separator(dir: &str) -> (r: String)
    ensures
        r@ == dir_form(dir@),
{
    let mut out = String::from_str(dir);
    let n: usize = dir.unicode_len();
    if n == 0 || dir.get_char(n - 1) != SEPARATOR {
        out.push(SEPARATOR);
    }
    out
}

/// The working directories of the updater, each ending with a separator.
pub struct Layout {
    /// The application's directory, which updates are applied to.
    pub target_root: String,
    /// Where update archives are dropped.
    pub staging: String,
    /// Where applied archives are kept, one folder per batch.
    pub history: String,
    /// Where overwritten files are kept, one folder per batch.
    pub backup_root: String,
    /// Where unreadable archives are kept, one folder per batch.
    pub quarantine: String,
}

/// Neither directory lies inside the other, so that no path under one is a
/// path under the other.
pub open spec fn separated(a: Seq<char>, b: Seq<char>) -> bool {
    !a.is_prefix_of(b) && !b.is_prefix_of(a)
}

/// Whether `a` begins with `b`.
pub fn starts_with(a: &str, b: &str) -> (r: bool)
    ensures
        r == b@.is_prefix_of(a@),
{
    let n: usize = a.unicode_len();
    let m: usize = b.unicode_len();
    if m > n {
        return false;
    }
    let mut j: usize = 0;
    while j < m
        invariant
            n == a@.len(),
            m == b@.len(),
            m <= n,
            j <= m,
            forall|k: int| 0 <= k < j ==> a@[k] == b@[k],
        decreases m - j,
    {
        if a.get_char(j) != b.get_char(j) {
            proof {
                assert(a@.subrange(0, m as int)[j as int] != b@[j as int]);
            }
            return false;
        }
        j = j + 1;
    }
    proof {
        assert(b@ =~= a@.subrange(0, m as int));
    }
    true
}

/// A directory apart from `a` keeps apart from it whatever is appended to
/// it: every folder made under the backup root is apart from the target
/// directory when the backup root is.
pub proof fn separated_below(a: Seq<char>, b: Seq<char>, x: Seq<char>)
    requires
        separated(a, b),
    ensures
        separated(a, b + x),
{
    let bx = b + x;
    if a.is_prefix_of(bx) {
        if a.len() <= b.len() {
            assert(a =~= b.subrange(0, a.len() as int)) by {
                assert(bx.subrange(0, a.len() as int) =~= b.subrange(0, a.len() as int));
            }
        } else {
            assert(b =~= a.subrange(0, b.len() as int)) by {
                assert(bx.subrange(0, b.len() as int) =~= b);
                assert(a.subrange(0, b.len() as int) =~= bx.subrange(0, b.len() as int));
            }
        }
    }
    if bx.is_prefix_of(a) {
        assert(b =~= a.subrange(0, b.len() as int)) by {
            assert(bx.subrange(0, b.len() as int) =~= b);
            assert(a.subrange(0, b.len() as int) =~= bx.subrange(0, b.len() as int));
        }
    }
}

/// The view of a layout: its five directories.
pub ghost struct LayoutView {
    pub target_root: Seq<char>,
    pub staging: Seq<char>,
    pub history: Seq<char>,
    pub backup_root: Seq<char>,
    pub quarantine: Seq<char>,
}

/// The layout that the three configured roots determine.
pub open spec fn layout_of(target: Seq<char>, update: Seq<char>, backup: Seq<char>) -> LayoutView {
    LayoutView {
        target_root: dir_form(target),
        staging: dir_form(update) + "__auto_updater\\"@,
        history: dir_form(update) + "__auto_updater_history\\"@,
        backup_root: dir_form(backup),
        quarantine: dir_form(backup) + "__auto_updater_error\\"@,
    }
}

impl View for Layout {
    type V = LayoutView;

    open spec fn view(&self) -> LayoutView {
        LayoutView {
            target_root: self.target_root@,
            staging: self.staging@,
            history: self.history@,
            backup_root: self.backup_root@,
            quarantine: self.quarantine@,
        }
    }
}

/// The directories that must exist before the update loop starts, in the
/// order they are created.
pub open spec fn bootstrap_dirs_spec(l: LayoutView) -> Seq<Seq<char>> {
    seq![l.staging, l.history, l.backup_root, l.quarantine]
}

impl Layout {
    /// Derives the working directories from the target, update and backup
    /// roots.
    pub fn new(target: &str, update: &str, backup: &str) -> (r: Layout)
        ensures
            r@ == layout_of(target@, update@, backup@),
    {
        let target_root = with_separator(target);
        let update_root = with_separator(update);
        let backup_root = with_separator(backup);
        let mut staging = update_root.clone();
        staging.append("__auto_updater\\");
        let mut history = update_root;
        history.append("__auto_updater_history\\");
        let mut quarantine = backup_root.clone();
        quarantine.append("__auto_updater_error\\");
        Layout { target_root, staging, history, backup_root, quarantine }
    }

    /// The layout of the three roots, if the target directory and the
    /// backup directory lie apart: neither inside the other. A layout where
    /// one lies inside the other is refused, for an update could then write
    /// over the backups or a backup move could land in the target.
    pub fn checked(target: &str, update: &str, backup: &str) -> (r: Option<Layout>)
        ensures
            r is Some <==> separated(dir_form(target@), dir_form(backup@)),
            r matches Some(l) ==> l@ == layout_of(target@, update@, backup@),
    {
        let l = Layout::new(target, update, backup);
        if starts_with(l.target_root.as_str(), l.backup_root.as_str()) || starts_with(
            l.backup_root.as_str(),
            l.target_root.as_str(),
        ) {
            None
        } else {
            Some(l)
        }
    }

    /// The directories to create at startup: the staging, history, backup
    /// and quarantine directories.
    pub fn bootstrap_dirs(&self) -> (r: Vec<String>)
        ensures
            r@.map_values(|s: String| s@) == bootstrap_dirs_spec(self@),
    {
        let mut v: Vec<String> = Vec::new();
        v.push(self.staging.clone());
        v.push(self.history.clone());
        v.push(self.backup_root.clone());
        v.push(self.quarantine.clone());
        proof {
            assert(v@.map_values(|s: String| s@) =~= bootstrap_dirs_spec(self@));
        }
        v
    }
}

/// Whether a failure to create a working directory at startup stops the
/// process: only a real failure does, never an existing directory.
pub fn bootstrap_fatal(status: DirStatus) -> (r: bool)
    ensures
        r == !status.usable_spec(),
{
    !status.usable()
}

/// Bootstrapping twice over the same roots asks for the same directories
/// (deriving the layout again from roots that already end with a separator
/// changes nothing), and a directory that the first run created is no error
/// the second time.
pub proof fn bootstrap_is_idempotent(target: Seq<char>, update: Seq<char>, backup: Seq<char>)
    ensures
        layout_of(dir_form(target), dir_form(update), dir_form(backup)) == layout_of(
            target,
            update,
            backup,
        ),
        DirStatus::AlreadyExisted.usable_spec(),
{
}

} // verus!
