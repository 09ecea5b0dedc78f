//! The simulated snipe action: flips the targeted opportunity's status,
//! writes the simulation's log lines, and records one entry in the bounded
//! action-history buffer.

use vstd::prelude::*;

use crate::ext::fresh_id;
use crate::jito::JitoConfig;
use crate::logsink::{keep_last, lemma_keep_last_push, LogEntry, LogLevel, LogSink, MAX_LOGS};
use crate::risk::sat_add;
use crate::stats::NetworkStats;
use crate::store::{first_match, OpportunityStore};
use crate::text::{format_clock_millis, short_addr, shorten_address};

verus! {

/// The action history's capacity: appends beyond it evict the oldest entries.
pub const MAX_HISTORY: usize = 100;

/// One recorded simulated action. SOL amounts are in lamports, the price in
/// nano-USD, the profit-and-loss in basis points.
pub struct SnipeHistoryEntry {
    pub id: String,
    pub timestamp: String,
    pub token_symbol: String,
    pub token_address: String,
    pub action: String,
    pub amount_lamports: u64,
    pub price_usd_nano: u64,
    pub tip_lamports: u64,
    pub bundle_id: String,
    pub block_engine: String,
    pub landing_slot: u64,
    pub status: String,
    pub pnl_bps: i64,
    pub simulation: bool,
}

impl Clone for SnipeHistoryEntry {
    /// An exact copy: every field of the clone equals the original's.
    fn clone(&self) -> (r: Self)
        ensures
            r == *self,
    {
        SnipeHistoryEntry {
            id: self.id.clone(),
            timestamp: self.timestamp.clone(),
            token_symbol: self.token_symbol.clone(),
            token_address: self.token_address.clone(),
            action: self.action.clone(),
            amount_lamports: self.amount_lamports,
            price_usd_nano: self.price_usd_nano,
            tip_lamports: self.tip_lamports,
            bundle_id: self.bundle_id.clone(),
            block_engine: self.block_engine.clone(),
            landing_slot: self.landing_slot,
            status: self.status.clone(),
            pnl_bps: self.pnl_bps,
            simulation: self.simulation,
        }
    }
}

/// The bounded action-history buffer: append-only, oldest evicted first.
pub struct SnipeHistory {
    entries: Vec<SnipeHistoryEntry>,
}

impl View for SnipeHistory {
    type V = Seq<SnipeHistoryEntry>;

    closed spec fn view(&self) -> Seq<SnipeHistoryEntry> {
        self.entries@
    }
}

impl SnipeHistory {
    /// The history never holds more than `MAX_HISTORY` entries.
    pub open spec fn wf(&self) -> bool {
        self@.len() <= MAX_HISTORY
    }

    /// An empty history.
    pub fn new() -> (h: Self)
        ensures
            h@ == Seq::<SnipeHistoryEntry>::empty(),
            h.wf(),
    {
        SnipeHistory { entries: Vec::new() }
    }

    /// How many entries the history currently holds.
    pub fn len(&self) -> (n: usize)
        ensures
            n == self@.len(),
    {
        self.entries.len()
    }

    /// Appends one entry, evicting the oldest beyond capacity.
    pub fn push_entry(&mut self, e: SnipeHistoryEntry)
        ensures
            final(self)@ == keep_last(old(self)@.push(e), MAX_HISTORY as int),
            final(self).wf(),
    {
        self.entries.push(e);
        if self.entries.len() > MAX_HISTORY {
            let excess = self.entries.len() - MAX_HISTORY;
            let tail = self.entries.split_off(excess);
            self.entries = tail;
        }
        proof {
            assert(self@ =~= keep_last(old(self)@.push(e), MAX_HISTORY as int));
        }
    }

    /// The newest `n` entries (or all, if fewer), newest first.
    pub fn read_recent(&self, n: usize) -> (r: Vec<SnipeHistoryEntry>)
        ensures
            r@.len() == if n <= self@.len() {
                n as int
            } else {
                self@.len() as int
            },
            forall|i: int| 0 <= i < r@.len() ==> r@[i] == self@[self@.len() - 1 - i],
    {
        let mut r: Vec<SnipeHistoryEntry> = Vec::new();
        let total = self.entries.len();
        let count = if n <= total {
            n
        } else {
            total
        };
        let mut i: usize = 0;
        while i < count
            invariant
                i <= count,
                count <= total,
                total == self@.len(),
                r@.len() == i,
                forall|j: int| 0 <= j < i ==> r@[j] == self@[self@.len() - 1 - j],
            decreases count - i,
        {
            r.push(self.entries[total - 1 - i].clone());
            i = i + 1;
        }
        r
    }
}

/// What the seven log lines of one simulated snipe must say, in order.
pub open spec fn snipe_log_obeys(app: Seq<LogEntry>, addr: Seq<char>, sig: Seq<char>) -> bool {
    &&& app.len() == 7
    &&& app[0].level == LogLevel::Info && app[0].message@ == "SNIPE initiated -> "@ + short_addr(
        addr,
    )
    &&& app[1].level == LogLevel::Info && app[1].message@ == "Constructing Jito Bundle (1 tx)..."@
    &&& app[2].level == LogLevel::Info && app[2].message@
        == "Estimating optimal tip -> 0.001 SOL"@
    &&& app[3].level == LogLevel::Info && app[3].message@ == "Signing transaction with keypair..."@
    &&& app[4].level == LogLevel::Info && app[4].message@
        == "Submitting to Jito Block Engine (Amsterdam)..."@
    &&& app[5].level == LogLevel::Success && app[5].message@ == "Bundle accepted | Sig: "@ + sig
    &&& app[6].level == LogLevel::Success && app[6].message@
        == "[SIMULATION] No real funds were used."@
}

/// Simulates one snipe of `token_address` at instant `now_ms`: the first
/// matching opportunity (if any) moves from `Detected` to `Sniped`, seven
/// simulation log lines are appended, and one entry joins the action
/// history. Returns the fabricated bundle signature.
pub fn record_snipe(
    store: &mut OpportunityStore,
    logs: &mut LogSink,
    history: &mut SnipeHistory,
    jito: &JitoConfig,
    net: &NetworkStats,
    token_address: &String,
    now_ms: u64,
) -> (sig: String)
    ensures
        // The status transition: a missing address is a silent no-op.
        final(store)@.len() == old(store)@.len(),
        first_match(old(store)@, token_address@) == -1 ==> final(store)@ == old(store)@,
        first_match(old(store)@, token_address@) >= 0 ==> {
            let j = first_match(old(store)@, token_address@);
            &&& forall|i: int| 0 <= i < old(store)@.len() && i != j ==> final(store)@[i] == old(
                store,
            )@[i]
            &&& final(store)@[j] == crate::store::Opportunity {
                status: if old(store)@[j].status == crate::store::OpportunityStatus::Detected {
                    crate::store::OpportunityStatus::Sniped
                } else {
                    old(store)@[j].status
                },
                ..old(store)@[j]
            }
        },
        // The log: exactly the seven simulation lines are appended.
        exists|app: Seq<LogEntry>|
            #![auto]
            final(logs)@ == keep_last(old(logs)@ + app, MAX_LOGS as int) && snipe_log_obeys(
                app,
                token_address@,
                sig@,
            ),
        final(logs).wf(),
        // The history: one new entry, oldest evicted beyond capacity.
        final(history)@.len() > 0,
        final(history)@ == keep_last(
            old(history)@.push(final(history)@.last()),
            MAX_HISTORY as int,
        ),
        ({
            let e = final(history)@.last();
            &&& e.timestamp@ == crate::text::clock_millis_str(now_ms as nat)
            &&& e.token_symbol@ == token_address@.take(
                if token_address@.len() < 6 {
                    token_address@.len() as int
                } else {
                    6
                },
            )
            &&& e.token_address == *token_address
            &&& e.action@ == "BUY"@
            &&& e.amount_lamports == 100_000_000
            &&& e.price_usd_nano == 0
            &&& e.tip_lamports == jito.tip_min_lamports
            &&& e.bundle_id@ == sig@
            &&& e.block_engine == jito.block_engine
            &&& e.landing_slot == sat_add(net.current_slot, 2)
            &&& e.status@ == "LANDED"@
            &&& e.pnl_bps == 0
            &&& e.simulation == true
        }),
        final(history).wf(),
{
    // Flip the opportunity's status, if it is still in the store.
    store.mark_sniped(token_address);

    // Fabricate a short bundle signature from two fresh identifiers.
    let id_a = fresh_id();
    let id_b = fresh_id();
    let mut sig = id_a.as_str().substring_char(0, 8).to_owned();
    sig.append("..");
    let head_b = id_b.as_str().substring_char(0, 8);
    sig.append(head_b);

    // The seven simulation log lines.
    let short = shorten_address(token_address.as_str());
    let ghost log0 = logs@;
    let mut m0: String = "SNIPE initiated -> ".to_owned();
    m0.append(short.as_str());
    logs.push(LogLevel::Info, m0);
    let ghost app1 = seq![logs@.last()];
    proof {
        assert(logs@ == keep_last(log0 + app1, MAX_LOGS as int)) by {
            assert(log0.push(app1[0]) =~= log0 + app1);
        }
    }

    logs.push(LogLevel::Info, "Constructing Jito Bundle (1 tx)...".to_owned());
    let ghost app2 = app1.push(logs@.last());
    proof {
        lemma_keep_last_push(log0 + app1, app2[1], MAX_LOGS as int);
        assert((log0 + app1).push(app2[1]) =~= log0 + app2);
    }

    logs.push(LogLevel::Info, "Estimating optimal tip -> 0.001 SOL".to_owned());
    let ghost app3 = app2.push(logs@.last());
    proof {
        lemma_keep_last_push(log0 + app2, app3[2], MAX_LOGS as int);
        assert((log0 + app2).push(app3[2]) =~= log0 + app3);
    }

    logs.push(LogLevel::Info, "Signing transaction with keypair...".to_owned());
    let ghost app4 = app3.push(logs@.last());
    proof {
        lemma_keep_last_push(log0 + app3, app4[3], MAX_LOGS as int);
        assert((log0 + app3).push(app4[3]) =~= log0 + app4);
    }

    logs.push(LogLevel::Info, "Submitting to Jito Block Engine (Amsterdam)...".to_owned());
    let ghost app5 = app4.push(logs@.last());
    proof {
        lemma_keep_last_push(log0 + app4, app5[4], MAX_LOGS as int);
        assert((log0 + app4).push(app5[4]) =~= log0 + app5);
    }

    let mut m5: String = "Bundle accepted | Sig: ".to_owned();
    m5.append(sig.as_str());
    logs.push(LogLevel::Success, m5);
    let ghost app6 = app5.push(logs@.last());
    proof {
        lemma_keep_last_push(log0 + app5, app6[5], MAX_LOGS as int);
        assert((log0 + app5).push(app6[5]) =~= log0 + app6);
    }

    logs.push(LogLevel::Success, "[SIMULATION] No real funds were used.".to_owned());
    let ghost app7 = app6.push(logs@.last());
    proof {
        lemma_keep_last_push(log0 + app6, app7[6], MAX_LOGS as int);
        assert((log0 + app6).push(app7[6]) =~= log0 + app7);
        assert(snipe_log_obeys(app7, token_address@, sig@));
    }

    // One bounded history entry.
    let addr_len = token_address.as_str().unicode_len();
    let sym_len = if addr_len < 6 {
        addr_len
    } else {
        6
    };
    let entry = SnipeHistoryEntry {
        id: fresh_id(),
        timestamp: format_clock_millis(now_ms),
        token_symbol: token_address.as_str().substring_char(0, sym_len).to_owned(),
        token_address: token_address.clone(),
        action: "BUY".to_owned(),
        amount_lamports: 100_000_000,
        price_usd_nano: 0,
        tip_lamports: jito.tip_min_lamports,
        bundle_id: sig.clone(),
        block_engine: jito.block_engine.clone(),
        landing_slot: net.current_slot.saturating_add(2),
        status: "LANDED".to_owned(),
        pnl_bps: 0,
        simulation: true,
    };
    history.push_entry(entry);
    proof {
        assert(history@.last() == entry);
        assert(entry.token_symbol@ =~= token_address@.take(sym_len as int));
    }
    sig
}

} // verus!
