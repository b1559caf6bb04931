//! The startup configuration: `key=value` lines naming the process to wait
//! for and the target, update and backup directories.
use vstd::prelude::*;

verus! {

/// The first index at or after `i` that holds `=`, or the length of `s`.
pub open spec fn field_end(s: Seq<char>, i: int) -> int
    decreases s.len() - i,
{
    if i >= s.len() || i < 0 {
        s.len() as int
    } else if s[i] == '=' {
        i
    } else {
        field_end(s, i + 1)
    }
}

/// For a line `key=...`, the text after the first `=` up to the next `=`
/// or the end of the line.
pub open spec fn value_of(line: Seq<char>, key: Seq<char>) -> Option<Seq<char>> {
    if line.len() > key.len() && line.subrange(0, key.len() as int) == key && line[key.len() as int]
        == '=' {
        Some(line.subrange(key.len() as int + 1, field_end(line, key.len() as int + 1)))
    } else {
        None
    }
}

pub open spec fn ends_with_spec(s: Seq<char>, suffix: Seq<char>) -> bool {
    s.len() >= suffix.len() && s.subrange(s.len() - suffix.len(), s.len() as int) == suffix
}

/// The four settings gathered so far.
pub ghost struct DraftView {
    pub process: Option<Seq<char>>,
    pub target: Option<Seq<char>>,
    pub update: Option<Seq<char>>,
    pub backup: Option<Seq<char>>,
}

impl DraftView {
    pub open spec fn complete(self) -> bool {
        self.process is Some && self.target is Some && self.update is Some && self.backup is Some
    }

    /// The settings after one more line, or the process name that is not
    /// an executable's.
    pub open spec fn absorb(self, line: Seq<char>) -> Result<DraftView, Seq<char>> {
        if let Some(v) = value_of(line, "process"@) {
            if ends_with_spec(v, ".exe"@) {
                Ok(DraftView { process: Some(v), ..self })
            } else {
                Err(v)
            }
        } else if let Some(v) = value_of(line, "target_dir"@) {
            Ok(DraftView { target: Some(v), ..self })
        } else if let Some(v) = value_of(line, "update_dir"@) {
            Ok(DraftView { update: Some(v), ..self })
        } else if let Some(v) = value_of(line, "backup_dir"@) {
            Ok(DraftView { backup: Some(v), ..self })
        } else {
            Ok(self)
        }
    }
}

/// The settings that lines `i..` add to `d`; reading stops once all four
/// are known.
pub open spec fn scan_lines(lines: Seq<Seq<char>>, i: int, d: DraftView) -> Result<DraftView, Seq<char>>
    decreases lines.len() - i,
{
    if i >= lines.len() || i < 0 || d.complete() {
        Ok(d)
    } else {
        match d.absorb(lines[i]) {
            Err(v) => Err(v),
            Ok(d2) => scan_lines(lines, i + 1, d2),
        }
    }
}

/// The settings of a configuration file.
#[derive(Debug)]
pub struct Config {
    /// The executable to wait for; its name ends with `.exe`.
    pub process_name: String,
    pub target_dir: String,
    pub update_dir: String,
    pub backup_dir: String,
}

/// Why a configuration cannot be used.
#[derive(Debug)]
pub enum ConfigError {
    /// The process name does not end with `.exe`.
    InvalidProcessName { value: String },
    MissingProcess,
    MissingTargetDir,
    MissingUpdateDir,
    MissingBackupDir,
}

pub ghost enum ConfigErrorView {
    InvalidProcessName { value: Seq<char> },
    MissingProcess,
    MissingTargetDir,
    MissingUpdateDir,
    MissingBackupDir,
}

impl View for ConfigError {
    type V = ConfigErrorView;

    open spec fn view(&self) -> ConfigErrorView {
        match self {
            ConfigError::InvalidProcessName { value } => ConfigErrorView::InvalidProcessName {
                value: value@,
            },
            ConfigError::MissingProcess => ConfigErrorView::MissingProcess,
            ConfigError::MissingTargetDir => ConfigErrorView::MissingTargetDir,
            ConfigError::MissingUpdateDir => ConfigErrorView::MissingUpdateDir,
            ConfigError::MissingBackupDir => ConfigErrorView::MissingBackupDir,
        }
    }
}

impl View for Config {
    type V = DraftView;

    /// The four settings, all present.
    open spec fn view(&self) -> DraftView {
        DraftView {
            process: Some(self.process_name@),
            target: Some(self.target_dir@),
            update: Some(self.update_dir@),
            backup: Some(self.backup_dir@),
        }
    }
}

pub open spec fn empty_draft() -> DraftView {
    DraftView { process: None, target: None, update: None, backup: None }
}

/// What the configuration lines amount to: the settings read until all four
/// are known, or the first error. A later line for a key read before
/// replaces its value; lines with other keys are ignored.
pub open spec fn parse_config_spec(lines: Seq<Seq<char>>) -> Result<DraftView, ConfigErrorView> {
    match scan_lines(lines, 0, empty_draft()) {
        Err(v) => Err(ConfigErrorView::InvalidProcessName { value: v }),
        Ok(d) => if d.process is None {
            Err(ConfigErrorView::MissingProcess)
        } else if d.target is None {
            Err(ConfigErrorView::MissingTargetDir)
        } else if d.update is None {
            Err(ConfigErrorView::MissingUpdateDir)
        } else if d.backup is None {
            Err(ConfigErrorView::MissingBackupDir)
        } else {
            Ok(d)
        },
    }
}

/// Whether `s` ends with `suffix`.
pub fn ends_with(s: &str, suffix: &str) -> (r: bool)
    ensures
        r == ends_with_spec(s@, suffix@),
{
    let n: usize = s.unicode_len();
    let m: usize = suffix.unicode_len();
    if m > n {
        return false;
    }
    let mut j: usize = 0;
    while j < m
        invariant
            n == s@.len(),
            m == suffix@.len(),
            m <= n,
            j <= m,
            forall|k: int| 0 <= k < j ==> s@[n - m + k] == suffix@[k],
        decreases m - j,
    {
        if s.get_char(n - m + j) != suffix.get_char(j) {
            proof {
                assert(s@.subrange(n - m, n as int)[j as int] != suffix@[j as int]);
            }
            return false;
        }
        j = j + 1;
    }
    proof {
        assert(s@.subrange(n - m, n as int) =~= suffix@);
    }
    true
}

/// The value of `key` on `line`, if the line reads `key=...`.
pub fn value_for(line: &str, key: &str) -> (r: Option<String>)
    ensures
        r matches Some(v) ==> value_of(line@, key@) == Some(v@),
        r is None ==> value_of(line@, key@) is None,
{
    let n: usize = line.unicode_len();
    let k: usize = key.unicode_len();
    if n <= k {
        return None;
    }
    let mut j: usize = 0;
    while j < k
        invariant
            n == line@.len(),
            k == key@.len(),
            k < n,
            j <= k,
            forall|i: int| 0 <= i < j ==> line@[i] == key@[i],
        decreases k - j,
    {
        if line.get_char(j) != key.get_char(j) {
            proof {
                assert(line@.subrange(0, k as int)[j as int] != key@[j as int]);
            }
            return None;
        }
        j = j + 1;
    }
    proof {
        assert(line@.subrange(0, k as int) =~= key@);
    }
    if line.get_char(k) != '=' {
        return None;
    }
    let start: usize = k + 1;
    let mut end: usize = start;
    while end < n && line.get_char(end) != '='
        invariant
            n == line@.len(),
            start <= end <= n,
            field_end(line@, start as int) == field_end(line@, end as int),
        decreases n - end,
    {
        end = end + 1;
    }
    let v = String::from_str(line.substring_char(start, end));
    Some(v)
}

struct Draft {
    process: Option<String>,
    target: Option<String>,
    update: Option<String>,
    backup: Option<String>,
}

spec fn opt_view(o: Option<String>) -> Option<Seq<char>> {
    match o {
        Some(s) => Some(s@),
        None => None,
    }
}

impl Draft {
    spec fn view(&self) -> DraftView {
        DraftView {
            process: opt_view(self.process),
            target: opt_view(self.target),
            update: opt_view(self.update),
            backup: opt_view(self.backup),
        }
    }
}

/// Reads the settings from the lines of a configuration file.
pub fn parse_config(lines: &Vec<String>) -> (r: Result<Config, ConfigError>)
    ensures
        r matches Ok(c) ==> parse_config_spec(lines@.map_values(|s: String| s@)) == Ok::<
            DraftView,
            ConfigErrorView,
        >(c@),
        r matches Err(e) ==> parse_config_spec(lines@.map_values(|s: String| s@)) == Err::<
            DraftView,
            ConfigErrorView,
        >(e@),
{
    let ghost ls = lines@.map_values(|s: String| s@);
    let mut d = Draft { process: None, target: None, update: None, backup: None };
    let mut i: usize = 0;
    while i < lines.len() && !(d.process.is_some() && d.target.is_some() && d.update.is_some()
        && d.backup.is_some())
        invariant
            ls == lines@.map_values(|s: String| s@),
            i <= lines@.len(),
            scan_lines(ls, 0, empty_draft()) == scan_lines(ls, i as int, d.view()),
        decreases lines@.len() - i,
    {
        let line = lines[i].as_str();
        proof {
            assert(ls[i as int] == line@);
        }
        if let Some(v) = value_for(line, "process") {
            if !ends_with(v.as_str(), ".exe") {
                return Err(ConfigError::InvalidProcessName { value: v });
            }
            d.process = Some(v);
        } else if let Some(v) = value_for(line, "target_dir") {
            d.target = Some(v);
        } else if let Some(v) = value_for(line, "update_dir") {
            d.update = Some(v);
        } else if let Some(v) = value_for(line, "backup_dir") {
            d.backup = Some(v);
        }
        i = i + 1;
    }
    let Draft { process, target, update, backup } = d;
    match (process, target, update, backup) {
        (None, _, _, _) => Err(ConfigError::MissingProcess),
        (_, None, _, _) => Err(ConfigError::MissingTargetDir),
        (_, _, None, _) => Err(ConfigError::MissingUpdateDir),
        (_, _, _, None) => Err(ConfigError::MissingBackupDir),
        (Some(process_name), Some(target_dir), Some(update_dir), Some(backup_dir)) => Ok(
            Config { process_name, target_dir, update_dir, backup_dir },
        ),
    }
}

} // verus!
