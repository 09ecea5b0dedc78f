//! The deduplication cache: the set of pair addresses already surfaced,
//! owned by the poller alone. It is capacity-bounded; once it holds more
//! than `MAX_SEEN` addresses it is cleared whole (no partial eviction), and
//! one warning-level log entry reports how many addresses were dropped. The
//! 24-hour pair-age filter is the correctness backstop after a clear.

use vstd::prelude::*;

use crate::logsink::{keep_last, LogLevel, LogSink, MAX_LOGS};
use crate::text::dec_str;

verus! {

/// The cache's capacity: a rotation check clears it once it is exceeded.
pub const MAX_SEEN: usize = 2000;

/// The set of pair addresses already surfaced.
pub struct DedupCache {
    seen: Vec<String>,
}

/// The message of the log entry a rotation emits, reporting the prior size.
pub open spec fn rotation_message(n: nat) -> Seq<char> {
    "Seen-pairs cache rotated - "@ + dec_str(n) + " entries cleared"@
}

impl DedupCache {
    /// The addresses the cache holds, in insertion order.
    pub closed spec fn contents(&self) -> Seq<Seq<char>> {
        self.seen@.map_values(|s: String| s@)
    }

    /// Whether `addr` is marked as seen.
    pub open spec fn spec_seen(&self, addr: Seq<char>) -> bool {
        self.contents().contains(addr)
    }

    /// The cache never stores an address twice.
    pub open spec fn wf(&self) -> bool {
        forall|i: int, j: int|
            0 <= i < j < self.contents().len() ==> self.contents()[i] != self.contents()[j]
    }

    /// An empty cache.
    pub fn new() -> (c: Self)
        ensures
            c.contents() == Seq::<Seq<char>>::empty(),
            c.wf(),
    {
        let c = DedupCache { seen: Vec::new() };
        proof {
            assert(c.contents() =~= Seq::<Seq<char>>::empty());
        }
        c
    }

    /// How many addresses the cache holds.
    pub fn len(&self) -> (n: usize)
        ensures
            n == self.contents().len(),
    {
        self.seen.len()
    }

    /// Whether `addr` has been marked before.
    pub fn seen(&self, addr: &String) -> (b: bool)
        ensures
            b == self.spec_seen(addr@),
    {
        let mut i: usize = 0;
        while i < self.seen.len()
            invariant
                i <= self.seen.len(),
                forall|j: int| 0 <= j < i ==> self.contents()[j] != addr@,
            decreases self.seen.len() - i,
        {
            if self.seen[i] == *addr {
                proof {
                    assert(self.contents()[i as int] == addr@);
                }
                return true;
            }
            i = i + 1;
        }
        proof {
            if self.spec_seen(addr@) {
                let k = choose|k: int| 0 <= k < self.contents().len() && self.contents()[k] == addr@;
                assert(self.contents()[k] != addr@);
            }
        }
        false
    }

    /// Marks `addr` as seen; marking an address already seen changes nothing.
    pub fn mark(&mut self, addr: String)
        requires
            old(self).wf(),
        ensures
            final(self).wf(),
            final(self).spec_seen(addr@),
            forall|a: Seq<char>|
                final(self).spec_seen(a) <==> (old(self).spec_seen(a) || a == addr@),
            final(self).contents().len() == old(self).contents().len() + (if old(
                self,
            ).spec_seen(addr@) {
                0int
            } else {
                1int
            }),
    {
        if !self.seen(&addr) {
            let ghost before = self.contents();
            let ghost a = addr@;
            self.seen.push(addr);
            proof {
                assert(self.contents() =~= before.push(a));
                assert(self.spec_seen(a)) by {
                    assert(self.contents()[before.len() as int] == a);
                }
                assert forall|x: Seq<char>| self.spec_seen(x) implies (before.contains(x) || x
                    == a) by {
                    let k = choose|k: int|
                        0 <= k < self.contents().len() && self.contents()[k] == x;
                    if k < before.len() {
                        assert(before[k] == x);
                    }
                }
                assert forall|x: Seq<char>| before.contains(x) implies self.spec_seen(x) by {
                    let k = choose|k: int| 0 <= k < before.len() && before[k] == x;
                    assert(self.contents()[k] == x);
                }
            }
        }
    }

    /// Clears the cache if it has outgrown its capacity, logging one warning
    /// entry that reports the prior size; otherwise changes nothing.
    pub fn maybe_rotate(&mut self, logs: &mut LogSink) -> (rotated: bool)
        requires
            old(self).wf(),
        ensures
            rotated == (old(self).contents().len() > MAX_SEEN),
            !rotated ==> *final(self) == *old(self) && final(logs)@ == old(logs)@,
            rotated ==> final(self).contents() == Seq::<Seq<char>>::empty(),
            rotated ==> final(logs)@.len() > 0 && final(logs)@ == keep_last(
                old(logs)@.push(final(logs)@.last()),
                MAX_LOGS as int,
            ) && final(logs)@.last().level == LogLevel::Warning
                && final(logs)@.last().message@ == rotation_message(old(self).contents().len()),
            final(self).wf(),
    {
        if self.seen.len() > MAX_SEEN {
            let count = self.seen.len();
            self.seen.clear();
            let mut message: String = "Seen-pairs cache rotated - ".to_owned();
            let count_s = crate::text::u64_to_dec(count as u64);
            message.append(count_s.as_str());
            message.append(" entries cleared");
            proof {
                assert(message@ =~= rotation_message(old(self).contents().len()));
                assert(self.contents() =~= Seq::<Seq<char>>::empty());
            }
            logs.push(LogLevel::Warning, message);
            true
        } else {
            false
        }
    }
}

} // verus!
