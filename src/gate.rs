//! Waiting for the application to exit before an update is applied.
//!
//! The caller polls the process list; a `Gate` decides, from each report,
//! whether to go on waiting, to tell the user once that an update waits, or
//! to proceed.
use vstd::prelude::*;
use vstd::string::StringSliceAdditionalSpecFns;

verus! {

/// `needle` occurs in `hay` starting at `i`.
pub open spec fn occurs_at(hay: Seq<u8>, needle: Seq<u8>, i: int) -> bool {
    0 <= i && i + needle.len() <= hay.len() && hay.subrange(i, i + needle.len()) == needle
}

/// `needle` occurs somewhere in `hay`.
pub open spec fn contains_bytes(hay: Seq<u8>, needle: Seq<u8>) -> bool {
    exists|i: int| occurs_at(hay, needle, i)
}

/// Whether the process list `listing` mentions the process `name`: a
/// case-sensitive substring test.
pub fn process_listed(listing: &str, name: &str) -> (r: bool)
    ensures
        r == contains_bytes(listing.spec_bytes(), name.spec_bytes()),
{
    let hay = listing.as_bytes();
    let needle = name.as_bytes();
    let n: usize = hay.len();
    let m: usize = needle.len();
    if m > n {
        proof {
            assert forall|i: int| !occurs_at(hay@, needle@, i) by {}
        }
        return false;
    }
    let mut i: usize = 0;
    while i <= n - m
        invariant
            hay@ == listing.spec_bytes(),
            needle@ == name.spec_bytes(),
            n == hay@.len(),
            m == needle@.len(),
            m <= n,
            i <= n - m + 1,
            forall|k: int| 0 <= k < i ==> !occurs_at(hay@, needle@, k),
        decreases n - m + 1 - i,
    {
        let mut j: usize = 0;
        while j < m && hay[i + j] == needle[j]
            invariant
                n == hay@.len(),
                m == needle@.len(),
                i + m <= n,
                j <= m,
                forall|k: int| 0 <= k < j ==> hay@[i + k] == needle@[k],
            decreases m - j,
        {
            j = j + 1;
        }
        if j == m {
            proof {
                assert(hay@.subrange(i as int, i + m) =~= needle@);
                assert(occurs_at(hay@, needle@, i as int));
            }
            return true;
        }
        proof {
            assert(hay@.subrange(i as int, i + m)[j as int] != needle@[j as int]);
        }
        i = i + 1;
    }
    proof {
        assert forall|k: int| !occurs_at(hay@, needle@, k) by {
            if 0 <= k && k + m <= n {
                assert(k < i);
            }
        }
    }
    false
}

/// What to do on one report of the process list.
#[derive(Clone, Copy, Debug, PartialEq, Eq, Structural)]
pub enum GateAction {
    /// The process is gone: apply the update now.
    Proceed,
    /// The process runs: tell the user that an update waits, then poll
    /// again after a pause.
    NotifyAndWait,
    /// The process still runs and the user was told: poll again after a
    /// pause.
    Wait,
}

/// One waiting episode: remembers whether the user was told.
pub struct Gate {
    pub notified: bool,
}

/// The action on a report, for a gate that has or has not told the user.
pub open spec fn gate_action(notified: bool, present: bool) -> GateAction {
    if !present {
        GateAction::Proceed
    } else if notified {
        GateAction::Wait
    } else {
        GateAction::NotifyAndWait
    }
}

/// Whether the user has been told after a report; a report of absence ends
/// the episode.
pub open spec fn gate_next(notified: bool, present: bool) -> bool {
    present
}

/// The actions on a sequence of reports, from a gate in state `notified`.
pub open spec fn gate_trace(notified: bool, reports: Seq<bool>) -> Seq<GateAction>
    decreases reports.len(),
{
    if reports.len() == 0 {
        Seq::empty()
    } else {
        seq![gate_action(notified, reports[0])] + gate_trace(
            gate_next(notified, reports[0]),
            reports.drop_first(),
        )
    }
}

impl Gate {
    /// A gate at the start of a waiting episode.
    pub fn new() -> (r: Gate)
        ensures
            !r.notified,
    {
        Gate { notified: false }
    }

    /// Takes one report: `present` tells whether the process list mentions
    /// the process.
    pub fn observe(&mut self, present: bool) -> (r: GateAction)
        ensures
            r == gate_action(old(self).notified, present),
            final(self).notified == gate_next(old(self).notified, present),
    {
        let r = if !present {
            GateAction::Proceed
        } else if self.notified {
            GateAction::Wait
        } else {
            GateAction::NotifyAndWait
        };
        self.notified = present;
        r
    }
}

proof fn gate_trace_present_then_absent(notified: bool, reports: Seq<bool>, k: int)
    requires
        0 <= k,
        reports.len() == k + 1,
        forall|i: int| 0 <= i < k ==> reports[i],
        !reports[k],
    ensures
        gate_trace(notified, reports).len() == k + 1,
        gate_trace(notified, reports)[k] == GateAction::Proceed,
        forall|i: int|
            0 <= i < k ==> gate_trace(notified, reports)[i] == if i == 0 && !notified {
                GateAction::NotifyAndWait
            } else {
                GateAction::Wait
            },
    decreases k,
{
    let rest = reports.drop_first();
    if k > 0 {
        assert forall|i: int| 0 <= i < k - 1 implies rest[i] by {
            assert(rest[i] == reports[i + 1]);
        }
        assert(!rest[k - 1]);
        gate_trace_present_then_absent(true, rest, k - 1);
        assert(gate_trace(notified, reports) == seq![gate_action(notified, reports[0])]
            + gate_trace(true, rest));
    } else {
        assert(rest.len() == 0);
        assert(gate_trace(false, rest) == Seq::<GateAction>::empty());
        assert(gate_trace(notified, reports) == seq![gate_action(notified, reports[0])]
            + gate_trace(false, rest));
    }
}

/// While the process is reported present, a fresh `Gate` never proceeds and tells
/// the user exactly once, on the first report; on the first report of its
/// absence it proceeds.
pub proof fn gate_notifies_once(reports: Seq<bool>, k: int)
    requires
        0 <= k,
        reports.len() == k + 1,
        forall|i: int| 0 <= i < k ==> reports[i],
        !reports[k],
    ensures
        gate_trace(false, reports).len() == k + 1,
        gate_trace(false, reports)[k] == GateAction::Proceed,
        k > 0 ==> gate_trace(false, reports)[0] == GateAction::NotifyAndWait,
        forall|i: int| 0 < i < k ==> gate_trace(false, reports)[i] == GateAction::Wait,
{
    gate_trace_present_then_absent(false, reports, k);
}

} // verus!
