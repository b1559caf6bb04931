//! Wall-clock timestamps: the name of a batch's folders and the prefix of a
//! log line.
use vstd::prelude::*;
use crate::text::{decimal, signed_decimal, push_decimal, push_signed_decimal};

verus! {

/// A local date and time, as the clock reports it, to the second.
#[derive(Clone, Copy, Debug, PartialEq, Eq)]
pub struct Timestamp {
    pub year: i32,
    pub month: u32,
    pub day: u32,
    pub hour: u32,
    pub minute: u32,
    pub second: u32,
}

/// How serious a logged event is.
#[derive(Clone, Copy, Debug, PartialEq, Eq)]
pub enum Severity {
    /// Stops the process before the update loop starts.
    Critical,
    /// Abandons the current archive or entry; the loop goes on.
    Warning,
}

impl Timestamp {
    /// Each field lies in the range of a calendar date and a time of day.
    pub open spec fn wf(&self) -> bool {
        &&& 1 <= self.month <= 12
        &&& 1 <= self.day <= 31
        &&& self.hour < 24
        &&& self.minute < 60
        &&& self.second < 60
    }

    /// `Y-M-D-H-Min-S`, each number in decimal without zero padding.
    pub open spec fn folder_name_spec(&self) -> Seq<char> {
        signed_decimal(self.year as int) + seq!['-'] + decimal(self.month as nat) + seq!['-']
            + decimal(self.day as nat) + seq!['-'] + decimal(self.hour as nat) + seq!['-']
            + decimal(self.minute as nat) + seq!['-'] + decimal(self.second as nat)
    }

    /// `Y/M/D H:Min:S`, each number in decimal without zero padding.
    pub open spec fn log_prefix_spec(&self) -> Seq<char> {
        signed_decimal(self.year as int) + seq!['/'] + decimal(self.month as nat) + seq!['/']
            + decimal(self.day as nat) + seq![' '] + decimal(self.hour as nat) + seq![':']
            + decimal(self.minute as nat) + seq![':'] + decimal(self.second as nat)
    }

    /// The name of the folders that belong to a batch started at this time.
    pub fn folder_name(&self) -> (r: String)
        ensures
            r@ == self.folder_name_spec(),
    {
        let mut out = String::new();
        push_signed_decimal(&mut out, self.year);
        out.push('-');
        push_decimal(&mut out, self.month);
        out.push('-');
        push_decimal(&mut out, self.day);
        out.push('-');
        push_decimal(&mut out, self.hour);
        out.push('-');
        push_decimal(&mut out, self.minute);
        out.push('-');
        push_decimal(&mut out, self.second);
        proof {
            assert(out@ =~= self.folder_name_spec());
        }
        out
    }

    /// The date and time as a log line starts with it.
    pub fn log_prefix(&self) -> (r: String)
        ensures
            r@ == self.log_prefix_spec(),
    {
        let mut out = String::new();
        push_signed_decimal(&mut out, self.year);
        out.push('/');
        push_decimal(&mut out, self.month);
        out.push('/');
        push_decimal(&mut out, self.day);
        out.push(' ');
        push_decimal(&mut out, self.hour);
        out.push(':');
        push_decimal(&mut out, self.minute);
        out.push(':');
        push_decimal(&mut out, self.second);
        proof {
            assert(out@ =~= self.log_prefix_spec());
        }
        out
    }
}

impl Severity {
    /// The letter that marks the severity in the log.
    pub open spec fn letter_spec(&self) -> char {
        match self {
            Severity::Critical => 'E',
            Severity::Warning => 'W',
        }
    }

    /// `E` for a critical event, `W` for a warning.
    pub fn letter(&self) -> (r: char)
        ensures
            r == self.letter_spec(),
    {
        match self {
            Severity::Critical => 'E',
            Severity::Warning => 'W',
        }
    }
}

/// `Y/M/D H:Min:S L: message` and a line break, where `L` is the severity's
/// letter.
pub open spec fn log_line_spec(at: Timestamp, severity: Severity, message: Seq<char>) -> Seq<char> {
    at.log_prefix_spec() + seq![' ', severity.letter_spec(), ':', ' '] + message + seq!['\n']
}

/// The line that records `message` in the log, stamped with `at`.
pub fn log_line(at: Timestamp, severity: Severity, message: &str) -> (r: String)
    ensures
        r@ == log_line_spec(at, severity, message@),
{
    let mut out = at.log_prefix();
    out.push(' ');
    out.push(severity.letter());
    out.push(':');
    out.push(' ');
    out.append(message);
    out.push('\n');
    proof {
        assert(out@ =~= log_line_spec(at, severity, message@));
    }
    out
}

/// Relies on `chrono::Local::now` with the `Datelike` and `Timelike` getters:
/// the month lies in 1..=12, the day in 1..=31, the hour in 0..=23, the
/// minute and the second in 0..=59.
#[verifier::external_body]
pub(crate) fn local_now() -> (r: Timestamp)
    ensures
        r.wf(),
{
    let now = chrono::Local::now();
    Timestamp {
        year: chrono::Datelike::year(&now),
        month: chrono::Datelike::month(&now),
        day: chrono::Datelike::day(&now),
        hour: chrono::Timelike::hour(&now),
        minute: chrono::Timelike::minute(&now),
        second: chrono::Timelike::second(&now),
    }
}

/// The line that records `message` in the log, stamped with the local time
/// now.
pub fn log_line_now(severity: Severity, message: &str) -> (r: String)
    ensures
        exists|at: Timestamp| at.wf() && r@ == log_line_spec(at, severity, message@),
{
    let at = local_now();
    log_line(at, severity, message)
}

} // verus!
