//! The bounded, time-ordered operational log. Appends evict the oldest
//! entries once the log holds more than its capacity of 500, so readers
//! always see the newest entries, newest-last in storage and newest-first
//! through `read_recent`.

use vstd::prelude::*;

use crate::ext::{fresh_id, now_millis};
use crate::text::format_clock_millis;

verus! {

/// The log's capacity: appends beyond it evict the oldest entries.
pub const MAX_LOGS: usize = 500;

/// Severity of an entry in the operational log.
#[derive(Clone, Copy, Debug, PartialEq, Eq, Structural)]
pub enum LogLevel {
    Info,
    Success,
    Warning,
    Error,
}

/// One entry of the operational log.
pub struct LogEntry {
    pub id: String,
    pub timestamp: String,
    pub level: LogLevel,
    pub message: String,
}

impl Clone for LogEntry {
    /// An exact copy: every field of the clone equals the original's.
    fn clone(&self) -> (r: Self)
        ensures
            r == *self,
    {
        LogEntry {
            id: self.id.clone(),
            timestamp: self.timestamp.clone(),
            level: self.level,
            message: self.message.clone(),
        }
    }
}

/// The newest `cap` elements of `s`, in their original order; all of `s` if
/// it is no longer than `cap`.
pub open spec fn keep_last<T>(s: Seq<T>, cap: int) -> Seq<T> {
    if s.len() <= cap {
        s
    } else {
        s.skip(s.len() - cap)
    }
}

/// Trims the log vector to its newest `MAX_LOGS` entries.
pub fn cap_logs(logs: &mut Vec<LogEntry>) -> (evicted: usize)
    ensures
        final(logs)@ == keep_last(old(logs)@, MAX_LOGS as int),
        final(logs)@.len() <= MAX_LOGS,
        evicted == old(logs)@.len() - final(logs)@.len(),
{
    if logs.len() > MAX_LOGS {
        let excess = logs.len() - MAX_LOGS;
        let tail = logs.split_off(excess);
        *logs = tail;
        proof {
            assert(logs@ =~= keep_last(old(logs)@, MAX_LOGS as int));
        }
        excess
    } else {
        0
    }
}

/// The operational log: bounded, append-only, oldest evicted first.
pub struct LogSink {
    entries: Vec<LogEntry>,
}

impl View for LogSink {
    type V = Seq<LogEntry>;

    closed spec fn view(&self) -> Seq<LogEntry> {
        self.entries@
    }
}

impl LogSink {
    /// The sink never holds more than `MAX_LOGS` entries.
    pub open spec fn wf(&self) -> bool {
        self@.len() <= MAX_LOGS
    }

    /// An empty log.
    pub fn new() -> (s: Self)
        ensures
            s@ == Seq::<LogEntry>::empty(),
            s.wf(),
    {
        LogSink { entries: Vec::new() }
    }

    /// How many entries the log currently holds.
    pub fn len(&self) -> (n: usize)
        ensures
            n == self@.len(),
    {
        self.entries.len()
    }

    /// Appends one prepared entry, evicting the oldest beyond capacity.
    pub fn push_entry(&mut self, e: LogEntry)
        ensures
            final(self)@ == keep_last(old(self)@.push(e), MAX_LOGS as int),
            final(self).wf(),
    {
        self.entries.push(e);
        cap_logs(&mut self.entries);
    }

    /// Appends one entry with the given level and message; the entry's id and
    /// timestamp come from the environment.
    pub fn push(&mut self, level: LogLevel, message: String)
        ensures
            final(self)@.len() > 0,
            final(self)@ == keep_last(old(self)@.push(final(self)@.last()), MAX_LOGS as int),
            final(self)@.last().level == level,
            final(self)@.last().message == message,
            final(self).wf(),
    {
        let now = now_millis();
        let e = LogEntry { id: fresh_id(), timestamp: format_clock_millis(now), level, message };
        self.push_entry(e);
        proof {
            assert(self@.last() == e);
        }
    }

    /// The newest `n` entries (or all, if fewer), newest first.
    pub fn read_recent(&self, n: usize) -> (r: Vec<LogEntry>)
        ensures
            r@.len() == if n <= self@.len() {
                n as int
            } else {
                self@.len() as int
            },
            forall|i: int| 0 <= i < r@.len() ==> r@[i] == self@[self@.len() - 1 - i],
    {
        let mut r: Vec<LogEntry> = Vec::new();
        let total = self.entries.len();
        let count = if n <= total {
            n
        } else {
            total
        };
        let mut i: usize = 0;
        while i < count
            invariant
                i <= count,
                count <= total,
                total == self@.len(),
                r@.len() == i,
                forall|j: int| 0 <= j < i ==> r@[j] == self@[self@.len() - 1 - j],
            decreases count - i,
        {
            r.push(self.entries[total - 1 - i].clone());
            i = i + 1;
        }
        r
    }

    /// Empties the log, reporting how many entries were removed.
    pub fn clear(&mut self) -> (removed: usize)
        ensures
            removed == old(self)@.len(),
            final(self)@ == Seq::<LogEntry>::empty(),
            final(self).wf(),
    {
        let removed = self.entries.len();
        self.entries.clear();
        removed
    }
}

/// Appending to an already-trimmed sequence and trimming again gives the
/// same result as trimming once at the end: eviction composes.
pub proof fn lemma_keep_last_push<T>(s: Seq<T>, e: T, cap: int)
    requires
        cap > 0,
    ensures
        keep_last(keep_last(s, cap).push(e), cap) == keep_last(s.push(e), cap),
{
    assert(keep_last(keep_last(s, cap).push(e), cap) =~= keep_last(s.push(e), cap));
}

/// Retention law: after any append, the log holds at most `MAX_LOGS` entries,
/// what it holds is the newest suffix of what was ever written, and the
/// surviving entries keep their order. Oldest entries are evicted first.
pub proof fn lemma_log_retention<T>(s: Seq<T>, cap: int)
    requires
        cap >= 0,
    ensures
        keep_last(s, cap).len() <= cap || s.len() <= cap,
        keep_last(s, cap).len() == if s.len() <= cap {
            s.len() as int
        } else {
            cap
        },
        forall|i: int|
            0 <= i < keep_last(s, cap).len() ==> keep_last(s, cap)[i] == s[s.len() - keep_last(
                s,
                cap,
            ).len() + i],
{
}

} // verus!
