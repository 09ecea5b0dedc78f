//! The opportunity store: the bounded, most-recent-first collection of
//! currently known opportunities. Only the poller writes it (a full
//! new-list-then-swap per cycle); consumers read snapshots and may flip one
//! opportunity's lifecycle status by token address.

use vstd::prelude::*;

use crate::risk::{opt_risk_like, RiskScore};

verus! {

/// The store's capacity: merges truncate to this many newest opportunities.
pub const STORE_CAP: usize = 50;

/// Lifecycle status of an opportunity. `Detected` is the initial state and
/// may move to `Sniped`; `Missed` is a reserved terminal state this core
/// never assigns. No transition leaves `Sniped` or `Missed`.
#[derive(Clone, Copy, Debug, PartialEq, Eq, Structural)]
pub enum OpportunityStatus {
    Detected,
    Sniped,
    Missed,
}

/// One detected pair, fully populated. USD amounts are in cents, the token
/// price in nano-USD, price changes in basis points, times in epoch
/// milliseconds.
pub struct Opportunity {
    pub id: String,
    pub token_name: String,
    pub token_symbol: String,
    pub token_address: String,
    pub pair_address: String,
    pub dex_id: String,
    pub price_usd_nano: u64,
    pub liquidity_usd_cents: u64,
    pub volume_h24_cents: u64,
    pub volume_h6_cents: u64,
    pub volume_h1_cents: u64,
    pub price_change_m5_bps: i64,
    pub price_change_h1_bps: i64,
    pub price_change_h6_bps: i64,
    pub price_change_h24_bps: i64,
    pub market_cap_cents: u64,
    pub fdv_cents: u64,
    pub txns_h1_buys: u64,
    pub txns_h1_sells: u64,
    pub txns_h24_buys: u64,
    pub txns_h24_sells: u64,
    pub pair_created_at_ms: u64,
    pub detected_at: String,
    pub detected_at_ms: u64,
    pub status: OpportunityStatus,
    pub risk_score: Option<RiskScore>,
}

/// Two opportunities carry the same content (the risk assessment compared by
/// its content, not its identity).
pub open spec fn opp_like(a: Opportunity, b: Opportunity) -> bool {
    &&& a.id == b.id
    &&& a.token_name == b.token_name
    &&& a.token_symbol == b.token_symbol
    &&& a.token_address == b.token_address
    &&& a.pair_address == b.pair_address
    &&& a.dex_id == b.dex_id
    &&& a.price_usd_nano == b.price_usd_nano
    &&& a.liquidity_usd_cents == b.liquidity_usd_cents
    &&& a.volume_h24_cents == b.volume_h24_cents
    &&& a.volume_h6_cents == b.volume_h6_cents
    &&& a.volume_h1_cents == b.volume_h1_cents
    &&& a.price_change_m5_bps == b.price_change_m5_bps
    &&& a.price_change_h1_bps == b.price_change_h1_bps
    &&& a.price_change_h6_bps == b.price_change_h6_bps
    &&& a.price_change_h24_bps == b.price_change_h24_bps
    &&& a.market_cap_cents == b.market_cap_cents
    &&& a.fdv_cents == b.fdv_cents
    &&& a.txns_h1_buys == b.txns_h1_buys
    &&& a.txns_h1_sells == b.txns_h1_sells
    &&& a.txns_h24_buys == b.txns_h24_buys
    &&& a.txns_h24_sells == b.txns_h24_sells
    &&& a.pair_created_at_ms == b.pair_created_at_ms
    &&& a.detected_at == b.detected_at
    &&& a.detected_at_ms == b.detected_at_ms
    &&& a.status == b.status
    &&& opt_risk_like(a.risk_score, b.risk_score)
}

impl Clone for Opportunity {
    /// An exact copy of the opportunity's content.
    fn clone(&self) -> (r: Self)
        ensures
            opp_like(r, *self),
    {
        Opportunity {
            id: self.id.clone(),
            token_name: self.token_name.clone(),
            token_symbol: self.token_symbol.clone(),
            token_address: self.token_address.clone(),
            pair_address: self.pair_address.clone(),
            dex_id: self.dex_id.clone(),
            price_usd_nano: self.price_usd_nano,
            liquidity_usd_cents: self.liquidity_usd_cents,
            volume_h24_cents: self.volume_h24_cents,
            volume_h6_cents: self.volume_h6_cents,
            volume_h1_cents: self.volume_h1_cents,
            price_change_m5_bps: self.price_change_m5_bps,
            price_change_h1_bps: self.price_change_h1_bps,
            price_change_h6_bps: self.price_change_h6_bps,
            price_change_h24_bps: self.price_change_h24_bps,
            market_cap_cents: self.market_cap_cents,
            fdv_cents: self.fdv_cents,
            txns_h1_buys: self.txns_h1_buys,
            txns_h1_sells: self.txns_h1_sells,
            txns_h24_buys: self.txns_h24_buys,
            txns_h24_sells: self.txns_h24_sells,
            pair_created_at_ms: self.pair_created_at_ms,
            detected_at: self.detected_at.clone(),
            detected_at_ms: self.detected_at_ms,
            status: self.status,
            risk_score: match &self.risk_score {
                Option::Some(r) => Option::Some(r.clone()),
                Option::None => Option::None,
            },
        }
    }
}

/// The store's contents after merging `new` in front of `old_items` and
/// truncating to capacity: the newest `STORE_CAP` of `new + old_items`.
pub open spec fn merged(new: Seq<Opportunity>, old_items: Seq<Opportunity>) -> Seq<Opportunity> {
    let all = new + old_items;
    if all.len() <= STORE_CAP {
        all
    } else {
        all.take(STORE_CAP as int)
    }
}

/// Detection timestamps never increase along the sequence: newest first.
pub open spec fn sorted_desc(s: Seq<Opportunity>) -> bool {
    forall|i: int, j: int|
        0 <= i < j < s.len() ==> s[i].detected_at_ms >= s[j].detected_at_ms
}

/// The index of the first opportunity whose token address is `addr`, or -1.
pub open spec fn first_match(s: Seq<Opportunity>, addr: Seq<char>) -> int
    decreases s.len(),
{
    if s.len() == 0 {
        -1
    } else if s[0].token_address@ == addr {
        0
    } else {
        let r = first_match(s.drop_first(), addr);
        if r == -1 {
            -1
        } else {
            r + 1
        }
    }
}

/// What `first_match` finds: a valid index of the first matching
/// opportunity, or -1 when no opportunity matches.
pub proof fn lemma_first_match_props(s: Seq<Opportunity>, addr: Seq<char>)
    ensures
        -1 <= first_match(s, addr) < s.len(),
        first_match(s, addr) >= 0 ==> s[first_match(s, addr)].token_address@ == addr,
        first_match(s, addr) >= 0 ==> forall|j: int|
            0 <= j < first_match(s, addr) ==> s[j].token_address@ != addr,
        first_match(s, addr) == -1 ==> forall|j: int|
            0 <= j < s.len() ==> s[j].token_address@ != addr,
    decreases s.len(),
{
    if s.len() > 0 && s[0].token_address@ != addr {
        let t = s.drop_first();
        lemma_first_match_props(t, addr);
        let r = first_match(t, addr);
        if r >= 0 {
            assert(s[r + 1] == t[r]);
            assert forall|j: int| 0 <= j < r + 1 implies s[j].token_address@ != addr by {
                if j > 0 {
                    assert(s[j] == t[j - 1]);
                }
            }
        } else {
            assert forall|j: int| 0 <= j < s.len() implies s[j].token_address@ != addr by {
                if j > 0 {
                    assert(s[j] == t[j - 1]);
                }
            }
        }
    }
}

/// The opportunity store.
pub struct OpportunityStore {
    items: Vec<Opportunity>,
}

impl View for OpportunityStore {
    type V = Seq<Opportunity>;

    closed spec fn view(&self) -> Seq<Opportunity> {
        self.items@
    }
}

impl OpportunityStore {
    /// The store never holds more than `STORE_CAP` opportunities.
    pub open spec fn wf(&self) -> bool {
        self@.len() <= STORE_CAP
    }

    /// An empty store.
    pub fn new() -> (s: Self)
        ensures
            s@ == Seq::<Opportunity>::empty(),
            s.wf(),
    {
        OpportunityStore { items: Vec::new() }
    }

    /// How many opportunities the store currently holds.
    pub fn len(&self) -> (n: usize)
        ensures
            n == self@.len(),
    {
        self.items.len()
    }

    /// A read-only reference to the opportunity at `i`, newest first.
    pub fn get(&self, i: usize) -> (o: &Opportunity)
        requires
            i < self@.len(),
        ensures
            *o == self@[i as int],
    {
        &self.items[i]
    }

    /// Replaces the contents with the new opportunities prepended to the old
    /// ones, truncated to the newest `STORE_CAP`: one atomic swap as far as
    /// readers are concerned.
    pub fn merge_new(&mut self, new_opps: Vec<Opportunity>)
        ensures
            final(self)@ == merged(new_opps@, old(self)@),
            final(self).wf(),
    {
        let mut combined = new_opps;
        combined.append(&mut self.items);
        combined.truncate(STORE_CAP);
        self.items = combined;
        proof {
            assert(self@ =~= merged(new_opps@, old(self)@));
        }
    }

    /// Snapshot of the whole store, newest first.
    pub fn snapshot(&self) -> (r: Vec<Opportunity>)
        ensures
            r@.len() == self@.len(),
            forall|i: int| 0 <= i < r@.len() ==> opp_like(#[trigger] r@[i], self@[i]),
    {
        let mut r: Vec<Opportunity> = Vec::new();
        let mut i: usize = 0;
        while i < self.items.len()
            invariant
                i <= self.items.len(),
                r@.len() == i,
                forall|j: int| 0 <= j < i ==> opp_like(#[trigger] r@[j], self@[j]),
            decreases self.items.len() - i,
        {
            r.push(self.items[i].clone());
            i = i + 1;
        }
        r
    }

    /// Flips the first opportunity with the given token address from
    /// `Detected` to `Sniped`. An address with no matching opportunity is a
    /// no-op, not an error; an opportunity already out of `Detected` keeps
    /// its status.
    pub fn mark_sniped(&mut self, token_address: &String) -> (found: bool)
        ensures
            found == (first_match(old(self)@, token_address@) >= 0),
            !found ==> final(self)@ == old(self)@,
            found ==> {
                let j = first_match(old(self)@, token_address@);
                &&& final(self)@.len() == old(self)@.len()
                &&& forall|i: int| 0 <= i < old(self)@.len() && i != j ==> final(self)@[i] == old(
                    self,
                )@[i]
                &&& final(self)@[j] == Opportunity {
                    status: if old(self)@[j].status == OpportunityStatus::Detected {
                        OpportunityStatus::Sniped
                    } else {
                        old(self)@[j].status
                    },
                    ..old(self)@[j]
                }
            },
            final(self)@.len() == old(self)@.len(),
            final(self).wf() == old(self).wf(),
    {
        proof {
            lemma_first_match_props(self@, token_address@);
        }
        let mut i: usize = 0;
        while i < self.items.len()
            invariant
                i <= self.items.len(),
                self@ == old(self)@,
                forall|j: int| 0 <= j < i ==> self@[j].token_address@ != token_address@,
            decreases self.items.len() - i,
        {
            if self.items[i].token_address == *token_address {
                proof {
                    lemma_first_match_props(self@, token_address@);
                    assert(first_match(old(self)@, token_address@) == i);
                }
                let current = self.items[i].status;
                if current == OpportunityStatus::Detected {
                    self.items[i].status = OpportunityStatus::Sniped;
                }
                proof {
                    assert(self@ =~= old(self)@.update(
                        i as int,
                        Opportunity {
                            status: if old(self)@[i as int].status
                                == OpportunityStatus::Detected {
                                OpportunityStatus::Sniped
                            } else {
                                old(self)@[i as int].status
                            },
                            ..old(self)@[i as int]
                        },
                    ));
                }
                return true;
            }
            i = i + 1;
        }
        proof {
            lemma_first_match_props(self@, token_address@);
        }
        false
    }

    /// The stored price (nano-USD) of the first opportunity with the given
    /// token address, if any.
    pub fn price_nano_for(&self, token_address: &String) -> (r: Option<u64>)
        ensures
            r is Some <==> first_match(self@, token_address@) >= 0,
            r is Some ==> r->0 == self@[first_match(self@, token_address@)].price_usd_nano,
    {
        proof {
            lemma_first_match_props(self@, token_address@);
        }
        let mut i: usize = 0;
        while i < self.items.len()
            invariant
                i <= self.items.len(),
                forall|j: int| 0 <= j < i ==> self@[j].token_address@ != token_address@,
            decreases self.items.len() - i,
        {
            if self.items[i].token_address == *token_address {
                proof {
                    lemma_first_match_props(self@, token_address@);
                    assert(first_match(self@, token_address@) == i);
                }
                return Some(self.items[i].price_usd_nano);
            }
            i = i + 1;
        }
        proof {
            lemma_first_match_props(self@, token_address@);
        }
        None
    }
}

/// Store law: however many cycles have run, a merge leaves at most
/// `STORE_CAP` opportunities, and if the incoming batch and the prior
/// contents are each newest-first and the batch is no older than anything
/// stored, the merged store is newest-first throughout.
pub proof fn lemma_merge_bounded_ordered(new: Seq<Opportunity>, old_items: Seq<Opportunity>)
    requires
        sorted_desc(new),
        sorted_desc(old_items),
        forall|i: int, j: int|
            0 <= i < new.len() && 0 <= j < old_items.len() ==> new[i].detected_at_ms
                >= old_items[j].detected_at_ms,
    ensures
        merged(new, old_items).len() <= STORE_CAP,
        sorted_desc(merged(new, old_items)),
{
    let all = new + old_items;
    assert(sorted_desc(all)) by {
        assert forall|i: int, j: int| 0 <= i < j < all.len() implies all[i].detected_at_ms
            >= all[j].detected_at_ms by {
            if j < new.len() {
                assert(all[i] == new[i] && all[j] == new[j]);
            } else if i >= new.len() {
                assert(all[i] == old_items[i - new.len()] && all[j] == old_items[j - new.len()]);
            } else {
                assert(all[i] == new[i] && all[j] == old_items[j - new.len()]);
            }
        }
    }
    if all.len() > STORE_CAP {
        assert forall|i: int, j: int|
            0 <= i < j < merged(new, old_items).len() implies merged(
            new,
            old_items,
        )[i].detected_at_ms >= merged(new, old_items)[j].detected_at_ms by {
            assert(merged(new, old_items)[i] == all[i]);
            assert(merged(new, old_items)[j] == all[j]);
        }
    }
}

} // verus!
