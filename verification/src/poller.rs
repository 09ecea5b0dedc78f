//! The poller: the orchestrator of the fetch-filter-score-merge-log cycle.
//! The fetch itself (a network call) happens outside this library; one cycle
//! of everything after it — filtering against the target chain, the dedup
//! cache, the 24-hour age window and the liquidity floor, capping the
//! accepted batch, scoring, merging into the store, and logging — is
//! `run_cycle`, a function of the fetch outcome, the shared state, and the
//! current time.

use vstd::prelude::*;

use crate::dedup::{rotation_message, DedupCache, MAX_SEEN};
use crate::ext::fresh_id;
use crate::feed::PairCandidate;
use crate::logsink::{keep_last, lemma_keep_last_push, LogEntry, LogLevel, LogSink, MAX_LOGS};
use crate::risk::{
    compute_risk_score, flags_obey, level_str, sat_sub, spec_flags, spec_score,
};
use crate::store::{
    merged, sorted_desc, Opportunity, OpportunityStatus, OpportunityStore, STORE_CAP,
};
use crate::text::{
    clock_str, dec_str, format_clock, format_price_nano, price_str, short_addr, shorten_address,
};

verus! {

/// Milliseconds in 24 hours: the age window a candidate must fall in.
pub const DAY_MS: u64 = 86_400_000;

/// The liquidity floor, in USD cents: a candidate must be strictly above it.
pub const MIN_LIQUIDITY_CENTS: u64 = 50_000;

/// The poller's policy constants: which chain to accept, which keywords to
/// rotate through, how many candidates to accept per cycle, and how long to
/// sleep between cycles.
pub struct PollerConfig {
    pub target_chain: String,
    pub keywords: Vec<String>,
    pub accept_cap: usize,
    pub poll_interval_secs: u64,
}

/// The default policy: the solana chain, eight meme-flavoured search
/// keywords, five accepted candidates per cycle, a ten-second cadence.
pub fn default_config() -> (c: PollerConfig)
    ensures
        c.target_chain@ == "solana"@,
        c.keywords@.len() == 8,
        c.keywords@[0]@ == "pump"@,
        c.keywords@[1]@ == "moon"@,
        c.keywords@[2]@ == "sol"@,
        c.keywords@[3]@ == "doge"@,
        c.keywords@[4]@ == "pepe"@,
        c.keywords@[5]@ == "inu"@,
        c.keywords@[6]@ == "cat"@,
        c.keywords@[7]@ == "meme"@,
        c.accept_cap == 5,
        c.poll_interval_secs == 10,
{
    let mut keywords: Vec<String> = Vec::new();
    keywords.push("pump".to_owned());
    keywords.push("moon".to_owned());
    keywords.push("sol".to_owned());
    keywords.push("doge".to_owned());
    keywords.push("pepe".to_owned());
    keywords.push("inu".to_owned());
    keywords.push("cat".to_owned());
    keywords.push("meme".to_owned());
    PollerConfig {
        target_chain: "solana".to_owned(),
        keywords,
        accept_cap: 5,
        poll_interval_secs: 10,
    }
}

/// What one fetch attempt produced: decoded candidates, a network failure,
/// or a malformed response. The two failure kinds are distinct and both
/// non-fatal to the poller.
pub enum FetchOutcome {
    Pairs(Vec<PairCandidate>),
    NetworkError(String),
    DecodeError(String),
}

/// Whether one candidate clears the filter: on the target chain, not yet
/// seen, created within the last 24 hours (by saturating subtraction, so a
/// future-stamped creation time cannot underflow), and strictly above the
/// liquidity floor.
pub open spec fn candidate_passes(
    c: PairCandidate,
    cache: DedupCache,
    chain: Seq<char>,
    now_ms: u64,
) -> bool {
    &&& c.chain_id@ == chain
    &&& !cache.spec_seen(c.pair_address@)
    &&& sat_sub(now_ms, c.pair_created_at_ms) < DAY_MS
    &&& c.liquidity_usd_cents > MIN_LIQUIDITY_CENTS
}

/// The candidates one cycle accepts: the first `cap` that clear the filter,
/// in source order.
pub open spec fn spec_accepted(
    cands: Seq<PairCandidate>,
    cache: DedupCache,
    chain: Seq<char>,
    now_ms: u64,
    cap: nat,
) -> Seq<PairCandidate>
    decreases cands.len(),
{
    if cands.len() == 0 || cap == 0 {
        Seq::empty()
    } else if candidate_passes(cands[0], cache, chain, now_ms) {
        seq![cands[0]] + spec_accepted(cands.drop_first(), cache, chain, now_ms, (cap - 1) as nat)
    } else {
        spec_accepted(cands.drop_first(), cache, chain, now_ms, cap)
    }
}

/// The accepted batch is never larger than the cap, and every accepted
/// candidate clears the filter.
pub proof fn lemma_accepted_props(
    cands: Seq<PairCandidate>,
    cache: DedupCache,
    chain: Seq<char>,
    now_ms: u64,
    cap: nat,
)
    ensures
        spec_accepted(cands, cache, chain, now_ms, cap).len() <= cap,
        forall|i: int|
            0 <= i < spec_accepted(cands, cache, chain, now_ms, cap).len()
                ==> candidate_passes(
                #[trigger] spec_accepted(cands, cache, chain, now_ms, cap)[i],
                cache,
                chain,
                now_ms,
            ),
    decreases cands.len(),
{
    if cands.len() > 0 && cap > 0 {
        if candidate_passes(cands[0], cache, chain, now_ms) {
            lemma_accepted_props(cands.drop_first(), cache, chain, now_ms, (cap - 1) as nat);
        } else {
            lemma_accepted_props(cands.drop_first(), cache, chain, now_ms, cap);
        }
    }
}

/// Dedup law: an address already marked in the cache is never accepted
/// again by the filter, in this or any later cycle, until the cache is
/// rotated (cleared).
pub proof fn lemma_marked_never_reaccepted(
    cands: Seq<PairCandidate>,
    cache: DedupCache,
    chain: Seq<char>,
    now_ms: u64,
    cap: nat,
    addr: Seq<char>,
)
    requires
        cache.spec_seen(addr),
    ensures
        forall|i: int|
            0 <= i < spec_accepted(cands, cache, chain, now_ms, cap).len() ==> (
            #[trigger] spec_accepted(cands, cache, chain, now_ms, cap)[i]).pair_address@ != addr,
{
    lemma_accepted_props(cands, cache, chain, now_ms, cap);
}

/// Extending the scanned sequence by one candidate extends the accepted
/// batch by that candidate exactly when the batch is still under the cap
/// and the candidate clears the filter.
pub proof fn lemma_accepted_snoc(
    cands: Seq<PairCandidate>,
    c: PairCandidate,
    cache: DedupCache,
    chain: Seq<char>,
    now_ms: u64,
    cap: nat,
)
    ensures
        spec_accepted(cands.push(c), cache, chain, now_ms, cap) == if spec_accepted(
            cands,
            cache,
            chain,
            now_ms,
            cap,
        ).len() < cap && candidate_passes(c, cache, chain, now_ms) {
            spec_accepted(cands, cache, chain, now_ms, cap).push(c)
        } else {
            spec_accepted(cands, cache, chain, now_ms, cap)
        },
    decreases cands.len(),
{
    lemma_accepted_props(cands, cache, chain, now_ms, cap);
    let s1 = cands.push(c);
    if cap == 0 {
        assert(spec_accepted(s1, cache, chain, now_ms, cap) =~= spec_accepted(
            cands,
            cache,
            chain,
            now_ms,
            cap,
        ));
    } else if cands.len() == 0 {
        assert(s1[0] == c);
        assert(s1.drop_first() =~= Seq::<PairCandidate>::empty());
        assert(spec_accepted(s1.drop_first(), cache, chain, now_ms, (cap - 1) as nat)
            =~= Seq::<PairCandidate>::empty());
        if candidate_passes(c, cache, chain, now_ms) {
            assert(spec_accepted(s1, cache, chain, now_ms, cap) == seq![c] + spec_accepted(
                s1.drop_first(),
                cache,
                chain,
                now_ms,
                (cap - 1) as nat,
            ));
            assert(seq![c] + spec_accepted(s1.drop_first(), cache, chain, now_ms, (cap - 1) as nat)
                =~= spec_accepted(cands, cache, chain, now_ms, cap).push(c));
        } else {
            assert(spec_accepted(Seq::<PairCandidate>::empty(), cache, chain, now_ms, cap)
                =~= Seq::<PairCandidate>::empty());
            assert(spec_accepted(s1, cache, chain, now_ms, cap) =~= spec_accepted(
                cands,
                cache,
                chain,
                now_ms,
                cap,
            ));
        }
    } else {
        let d = cands.drop_first();
        assert(s1[0] == cands[0]);
        assert(s1.drop_first() =~= d.push(c));
        if candidate_passes(cands[0], cache, chain, now_ms) {
            lemma_accepted_snoc(d, c, cache, chain, now_ms, (cap - 1) as nat);
            lemma_accepted_props(d, cache, chain, now_ms, (cap - 1) as nat);
            assert(spec_accepted(s1, cache, chain, now_ms, cap) == seq![cands[0]] + spec_accepted(
                d.push(c),
                cache,
                chain,
                now_ms,
                (cap - 1) as nat,
            ));
            assert(spec_accepted(cands, cache, chain, now_ms, cap) == seq![cands[0]]
                + spec_accepted(d, cache, chain, now_ms, (cap - 1) as nat));
            if spec_accepted(d, cache, chain, now_ms, (cap - 1) as nat).len() < (cap - 1) as nat
                && candidate_passes(c, cache, chain, now_ms) {
                assert(seq![cands[0]] + spec_accepted(d, cache, chain, now_ms, (cap - 1) as nat).push(
                    c,
                ) =~= spec_accepted(cands, cache, chain, now_ms, cap).push(c));
            }
        } else {
            lemma_accepted_snoc(d, c, cache, chain, now_ms, cap);
        }
    }
}

/// What a freshly built opportunity takes from its candidate: every feed
/// field copied, detection stamped at `now_ms`, status `Detected`, and a
/// risk assessment computed exactly by the scorer's rules. Only the fresh
/// identifier is unconstrained beyond its shape.
pub open spec fn opp_from_candidate(o: Opportunity, c: PairCandidate, now_ms: u64) -> bool {
    &&& o.token_name == c.token_name
    &&& o.token_symbol == c.token_symbol
    &&& o.token_address == c.token_address
    &&& o.pair_address == c.pair_address
    &&& o.dex_id == c.dex_id
    &&& o.price_usd_nano == c.price_usd_nano
    &&& o.liquidity_usd_cents == c.liquidity_usd_cents
    &&& o.volume_h24_cents == c.volume_h24_cents
    &&& o.volume_h6_cents == c.volume_h6_cents
    &&& o.volume_h1_cents == c.volume_h1_cents
    &&& o.price_change_m5_bps == c.price_change_m5_bps
    &&& o.price_change_h1_bps == c.price_change_h1_bps
    &&& o.price_change_h6_bps == c.price_change_h6_bps
    &&& o.price_change_h24_bps == c.price_change_h24_bps
    &&& o.market_cap_cents == c.market_cap_cents
    &&& o.fdv_cents == c.fdv_cents
    &&& o.txns_h1_buys == c.txns_h1_buys
    &&& o.txns_h1_sells == c.txns_h1_sells
    &&& o.txns_h24_buys == c.txns_h24_buys
    &&& o.txns_h24_sells == c.txns_h24_sells
    &&& o.pair_created_at_ms == c.pair_created_at_ms
    &&& o.detected_at@ == clock_str(now_ms as nat)
    &&& o.detected_at_ms == now_ms
    &&& o.status == OpportunityStatus::Detected
    &&& match o.risk_score {
        Option::Some(r) => {
            &&& r.score as int == spec_score(c, now_ms)
            &&& r.level@ == level_str(spec_score(c, now_ms))
            &&& flags_obey(r.flags@, spec_flags(c, now_ms))
        },
        Option::None => false,
    }
    &&& o.id@.len() == 36
}

/// Builds the opportunity for one accepted candidate at instant `now_ms`.
pub fn build_opportunity(c: &PairCandidate, now_ms: u64) -> (o: Opportunity)
    ensures
        opp_from_candidate(o, *c, now_ms),
{
    let risk = compute_risk_score(c, now_ms);
    Opportunity {
        id: fresh_id(),
        token_name: c.token_name.clone(),
        token_symbol: c.token_symbol.clone(),
        token_address: c.token_address.clone(),
        pair_address: c.pair_address.clone(),
        dex_id: c.dex_id.clone(),
        price_usd_nano: c.price_usd_nano,
        liquidity_usd_cents: c.liquidity_usd_cents,
        volume_h24_cents: c.volume_h24_cents,
        volume_h6_cents: c.volume_h6_cents,
        volume_h1_cents: c.volume_h1_cents,
        price_change_m5_bps: c.price_change_m5_bps,
        price_change_h1_bps: c.price_change_h1_bps,
        price_change_h6_bps: c.price_change_h6_bps,
        price_change_h24_bps: c.price_change_h24_bps,
        market_cap_cents: c.market_cap_cents,
        fdv_cents: c.fdv_cents,
        txns_h1_buys: c.txns_h1_buys,
        txns_h1_sells: c.txns_h1_sells,
        txns_h24_buys: c.txns_h24_buys,
        txns_h24_sells: c.txns_h24_sells,
        pair_created_at_ms: c.pair_created_at_ms,
        detected_at: format_clock(now_ms),
        detected_at_ms: now_ms,
        status: OpportunityStatus::Detected,
        risk_score: Some(risk),
    }
}

/// The success log line announcing one accepted pair: symbol, venue,
/// liquidity, price, shortened address.
pub open spec fn new_pool_message(c: PairCandidate) -> Seq<char> {
    "NEW POOL: "@ + c.token_symbol@ + " ("@ + c.dex_id@ + ") | Liq $"@ + dec_str(
        (c.liquidity_usd_cents / 100) as nat,
    ) + " | $"@ + price_str(c.price_usd_nano as nat) + " | "@ + short_addr(c.token_address@)
}

fn build_pool_message(c: &PairCandidate) -> (s: String)
    ensures
        s@ == new_pool_message(*c),
{
    let mut s: String = "NEW POOL: ".to_owned();
    s.append(c.token_symbol.as_str());
    s.append(" (");
    s.append(c.dex_id.as_str());
    s.append(") | Liq $");
    let liq = crate::text::u64_to_dec(c.liquidity_usd_cents / 100);
    s.append(liq.as_str());
    s.append(" | $");
    let price = format_price_nano(c.price_usd_nano);
    s.append(price.as_str());
    s.append(" | ");
    let addr = shorten_address(c.token_address.as_str());
    s.append(addr.as_str());
    proof {
        assert(s@ =~= new_pool_message(*c));
    }
    s
}

/// No two candidates of the batch share a pair address.
pub open spec fn distinct_addresses(s: Seq<PairCandidate>) -> bool {
    forall|i: int, j: int|
        0 <= i < j < s.len() ==> s[i].pair_address@ != s[j].pair_address@
}

/// What one successful cycle appends to the log, described as the appended
/// batch `app`: `logs1` is `logs0` plus `app`, trimmed to capacity; one idle
/// line when nothing was accepted, else one success line per accepted
/// candidate; and, when the cache rotated, one final warning line, whose
/// message reports the prior cache size `prior` (exact whenever the accepted
/// addresses are pairwise distinct, `distinct`).
pub open spec fn cycle_log_matches(
    logs0: Seq<LogEntry>,
    logs1: Seq<LogEntry>,
    app: Seq<LogEntry>,
    acc: Seq<PairCandidate>,
    rotated: bool,
    prior: nat,
    distinct: bool,
) -> bool {
    &&& logs1 == keep_last(logs0 + app, MAX_LOGS as int)
    &&& app.len() == (if acc.len() == 0 {
        1int
    } else {
        acc.len() + (if rotated {
            1int
        } else {
            0int
        })
    })
    &&& (acc.len() == 0 ==> app[0].level == LogLevel::Info && app[0].message@
        == "No new opportunities this cycle. Watching..."@)
    &&& (forall|i: int|
        0 <= i < acc.len() ==> (#[trigger] app[i]).level == LogLevel::Success && app[i].message@
            == new_pool_message(acc[i]))
    &&& (rotated ==> app[app.len() - 1].level == LogLevel::Warning)
    &&& (rotated && distinct ==> app[app.len() - 1].message@ == rotation_message(prior))
}

/// Everything one successful cycle commits, relating the poller, the store,
/// and the log before (`pre`, `store0`, `logs0`) and after (`post`,
/// `store1`, `logs1`) the cycle ran on the decoded candidates `cands` at
/// instant `now_ms`, with `r` the accepted count and whether the cache rotated:
/// exactly the first capped batch of filter-clearing candidates is accepted,
/// none of them previously marked; the store becomes those opportunities
/// (scored and stamped) in front of the old ones, truncated to capacity;
/// the accepted addresses are marked unless the cache rotated; the log grew
/// by the cycle's lines; and newest-first order is preserved.
pub open spec fn cycle_commits(
    pre: Poller,
    post: Poller,
    store0: Seq<Opportunity>,
    store1: Seq<Opportunity>,
    logs0: Seq<LogEntry>,
    logs1: Seq<LogEntry>,
    cands: Seq<PairCandidate>,
    now_ms: u64,
    r: (usize, bool),
) -> bool {
    let acc = spec_accepted(
        cands,
        pre.dedup,
        pre.config.target_chain@,
        now_ms,
        pre.config.accept_cap as nat,
    );
    &&& r.0 == acc.len()
    &&& forall|i: int|
        0 <= i < acc.len() ==> !pre.dedup.spec_seen((#[trigger] acc[i]).pair_address@)
    &&& store1.len() == (if acc.len() + store0.len() <= STORE_CAP {
        (acc.len() + store0.len()) as int
    } else {
        STORE_CAP as int
    })
    &&& forall|i: int|
        0 <= i < acc.len() && i < store1.len() ==> opp_from_candidate(
            #[trigger] store1[i],
            acc[i],
            now_ms,
        )
    &&& forall|i: int| acc.len() <= i < store1.len() ==> store1[i] == store0[i - acc.len()]
    &&& (!r.1 ==> forall|a: Seq<char>|
        #![auto]
        post.dedup.spec_seen(a) <==> (pre.dedup.spec_seen(a) || exists|i: int|
            0 <= i < acc.len() && acc[i].pair_address@ == a))
    &&& (r.1 ==> post.dedup.contents().len() == 0)
    &&& (r.1 ==> pre.dedup.contents().len() + acc.len() > MAX_SEEN)
    &&& (distinct_addresses(acc) ==> (r.1 <==> pre.dedup.contents().len() + acc.len()
        > MAX_SEEN))
    &&& exists|app: Seq<LogEntry>|
        #[trigger] cycle_log_matches(
            logs0,
            logs1,
            app,
            acc,
            r.1,
            (pre.dedup.contents().len() + acc.len()) as nat,
            distinct_addresses(acc),
        )
    &&& ((sorted_desc(store0) && (store0.len() > 0 ==> now_ms >= store0[0].detected_at_ms))
        ==> sorted_desc(store1))
}

/// Assembles the parts of one successful cycle's commitment, with `app` the
/// witness for the appended log lines.
proof fn lemma_cycle_commits_intro(
    pre: Poller,
    post: Poller,
    store0: Seq<Opportunity>,
    store1: Seq<Opportunity>,
    logs0: Seq<LogEntry>,
    logs1: Seq<LogEntry>,
    cands: Seq<PairCandidate>,
    now_ms: u64,
    r: (usize, bool),
    app: Seq<LogEntry>,
)
    requires
        ({
            let acc = spec_accepted(
                cands,
                pre.dedup,
                pre.config.target_chain@,
                now_ms,
                pre.config.accept_cap as nat,
            );
            &&& r.0 == acc.len()
            &&& forall|i: int|
                0 <= i < acc.len() ==> !pre.dedup.spec_seen((#[trigger] acc[i]).pair_address@)
            &&& store1.len() == (if acc.len() + store0.len() <= STORE_CAP {
                (acc.len() + store0.len()) as int
            } else {
                STORE_CAP as int
            })
            &&& forall|i: int|
                0 <= i < acc.len() && i < store1.len() ==> opp_from_candidate(
                    #[trigger] store1[i],
                    acc[i],
                    now_ms,
                )
            &&& forall|i: int| acc.len() <= i < store1.len() ==> store1[i] == store0[i - acc.len()]
            &&& (!r.1 ==> forall|a: Seq<char>|
                #![auto]
                post.dedup.spec_seen(a) <==> (pre.dedup.spec_seen(a) || exists|i: int|
                    0 <= i < acc.len() && acc[i].pair_address@ == a))
            &&& (r.1 ==> post.dedup.contents().len() == 0)
            &&& (r.1 ==> pre.dedup.contents().len() + acc.len() > MAX_SEEN)
            &&& (distinct_addresses(acc) ==> (r.1 <==> pre.dedup.contents().len() + acc.len()
                > MAX_SEEN))
            &&& cycle_log_matches(
                logs0,
                logs1,
                app,
                acc,
                r.1,
                (pre.dedup.contents().len() + acc.len()) as nat,
                distinct_addresses(acc),
            )
            &&& ((sorted_desc(store0) && (store0.len() > 0 ==> now_ms >= store0[0].detected_at_ms))
                ==> sorted_desc(store1))
        }),
    ensures
        cycle_commits(pre, post, store0, store1, logs0, logs1, cands, now_ms, r),
{
}

/// The poller's state: its policy, its private dedup cache, and the rotating
/// index into the keyword list.
pub struct Poller {
    pub config: PollerConfig,
    pub dedup: DedupCache,
    pub query_idx: usize,
}

impl Poller {
    /// Where the keyword rotation currently stands.
    pub open spec fn idx(&self) -> int {
        self.query_idx as int
    }

    /// The poller is well-formed: at least one keyword, the rotation index
    /// in range, and the dedup cache duplicate-free and within capacity.
    pub open spec fn wf(&self) -> bool {
        &&& self.config.keywords@.len() > 0
        &&& 0 <= self.idx() < self.config.keywords@.len()
        &&& self.dedup.wf()
        &&& self.dedup.contents().len() <= MAX_SEEN
    }

    /// A fresh poller: rotation at the first keyword, nothing seen yet.
    pub fn new(config: PollerConfig) -> (p: Self)
        requires
            config.keywords@.len() > 0,
        ensures
            p.wf(),
            p.config == config,
            p.idx() == 0,
            p.dedup.contents() == Seq::<Seq<char>>::empty(),
    {
        Poller { config, dedup: DedupCache::new(), query_idx: 0 }
    }

    /// The next search keyword, round-robin over the configured list.
    pub fn next_keyword(&mut self) -> (kw: String)
        requires
            old(self).wf(),
        ensures
            final(self).wf(),
            kw == old(self).config.keywords@[old(self).idx()],
            final(self).idx() == (old(self).idx() + 1) % (old(self).config.keywords@.len() as int),
            final(self).config == old(self).config,
            final(self).dedup == old(self).dedup,
    {
        let n = self.config.keywords.len();
        let kw = self.config.keywords[self.query_idx].clone();
        self.query_idx = (self.query_idx + 1) % n;
        kw
    }

    /// The candidates this cycle accepts: on the target chain, unseen,
    /// young enough, liquid enough, capped, source order preserved.
    pub fn filter_candidates(&self, cands: &Vec<PairCandidate>, now_ms: u64) -> (accepted: Vec<
        PairCandidate,
    >)
        ensures
            accepted@ == spec_accepted(
                cands@,
                self.dedup,
                self.config.target_chain@,
                now_ms,
                self.config.accept_cap as nat,
            ),
    {
        let ghost chain = self.config.target_chain@;
        let ghost cap = self.config.accept_cap as nat;
        let mut accepted: Vec<PairCandidate> = Vec::new();
        let mut i: usize = 0;
        proof {
            assert(cands@.take(0) =~= Seq::<PairCandidate>::empty());
        }
        while i < cands.len()
            invariant
                i <= cands.len(),
                accepted@ == spec_accepted(
                    cands@.take(i as int),
                    self.dedup,
                    chain,
                    now_ms,
                    cap,
                ),
                chain == self.config.target_chain@,
                cap == self.config.accept_cap as nat,
            decreases cands.len() - i,
        {
            proof {
                lemma_accepted_props(cands@.take(i as int), self.dedup, chain, now_ms, cap);
                lemma_accepted_snoc(
                    cands@.take(i as int),
                    cands@[i as int],
                    self.dedup,
                    chain,
                    now_ms,
                    cap,
                );
                assert(cands@.take(i as int).push(cands@[i as int]) =~= cands@.take(i as int + 1));
            }
            let c = &cands[i];
            if accepted.len() < self.config.accept_cap && c.chain_id == self.config.target_chain
                && !self.dedup.seen(&c.pair_address) && now_ms.saturating_sub(c.pair_created_at_ms)
                < DAY_MS && c.liquidity_usd_cents > MIN_LIQUIDITY_CENTS {
                accepted.push(c.clone());
            }
            i = i + 1;
        }
        proof {
            assert(cands@.take(cands@.len() as int) =~= cands@);
        }
        accepted
    }

    /// The committing half of one cycle, after a successful fetch: filter
    /// the candidates, mark and score the accepted ones, merge them into the
    /// store, log one line per acceptance (or one idle line), and check the
    /// cache rotation.
    #[verifier::rlimit(100)]
    #[verifier::spinoff_prover]
    fn cycle_with_pairs(
        &mut self,
        cands: &Vec<PairCandidate>,
        store: &mut OpportunityStore,
        logs: &mut LogSink,
        now_ms: u64,
    ) -> (r: (usize, bool))
        requires
            old(self).wf(),
            old(store).wf(),
            old(logs).wf(),
        ensures
            final(self).wf(),
            final(store).wf(),
            final(logs).wf(),
            final(self).config == old(self).config,
            final(self).query_idx == old(self).query_idx,
            cycle_commits(
                *old(self),
                *final(self),
                old(store)@,
                final(store)@,
                old(logs)@,
                final(logs)@,
                cands@,
                now_ms,
                r,
            ),
    {
        let ghost self0 = *self;
        let ghost store0 = store@;
        let ghost log0 = logs@;
        let ghost cache0 = self.dedup;
        let ghost chain = self.config.target_chain@;
        let ghost cap = self.config.accept_cap as nat;
        let accepted = self.filter_candidates(cands, now_ms);
        let ghost acc = accepted@;
        proof {
            lemma_accepted_props(cands@, cache0, chain, now_ms, cap);
        }
        let k = accepted.len();
        if k == 0 {
            logs.push(LogLevel::Info, "No new opportunities this cycle. Watching...".to_owned());
            let ghost app_w = seq![logs@.last()];
            proof {
                assert(log0.push(app_w[0]) =~= log0 + app_w);
                assert(logs@ == keep_last(log0 + app_w, MAX_LOGS as int));
            }
            let rotated = self.dedup.maybe_rotate(logs);
            proof {
                assert(!rotated);
                assert(logs@ == keep_last(log0 + app_w, MAX_LOGS as int));
                assert forall|a: Seq<char>| #![auto] self.dedup.spec_seen(a) <==> (
                cache0.spec_seen(a) || exists|i: int|
                    0 <= i < acc.len() && acc[i].pair_address@ == a) by {
                    if exists|i: int| 0 <= i < acc.len() && acc[i].pair_address@ == a {
                        assert(acc.len() == 0);
                    }
                }
                assert(cycle_log_matches(
                    log0,
                    logs@,
                    app_w,
                    acc,
                    rotated,
                    (cache0.contents().len() + acc.len()) as nat,
                    distinct_addresses(acc),
                ));
                lemma_cycle_commits_intro(
                    self0,
                    *self,
                    store0,
                    store@,
                    log0,
                    logs@,
                    cands@,
                    now_ms,
                    (0usize, rotated),
                    app_w,
                );
            }
            (0, rotated)
        } else {
            // Mark every accepted address and build its opportunity.
            let mut new_opps: Vec<Opportunity> = Vec::new();
            let mut i: usize = 0;
            while i < accepted.len()
                invariant
                    i <= accepted@.len(),
                    acc == accepted@,
                    cache0.wf(),
                    cache0.contents().len() <= MAX_SEEN,
                    forall|j: int|
                        0 <= j < acc.len() ==> !cache0.spec_seen(
                            (#[trigger] acc[j]).pair_address@,
                        ),
                    new_opps@.len() == i,
                    forall|j: int|
                        0 <= j < i ==> opp_from_candidate(
                            #[trigger] new_opps@[j],
                            accepted@[j],
                            now_ms,
                        ),
                    self.dedup.wf(),
                    self.config == old(self).config,
                    self.query_idx == old(self).query_idx,
                    forall|a: Seq<char>|
                        #![auto]
                        self.dedup.spec_seen(a) <==> (cache0.spec_seen(a) || exists|j: int|
                            0 <= j < i && accepted@[j].pair_address@ == a),
                    self.dedup.contents().len() <= cache0.contents().len() + i,
                    distinct_addresses(acc) ==> self.dedup.contents().len()
                        == cache0.contents().len() + i,
                decreases accepted.len() - i,
            {
                let ghost seen_before = self.dedup;
                let c = &accepted[i];
                self.dedup.mark(c.pair_address.clone());
                proof {
                    let ghost ai = acc[i as int].pair_address@;
                    if distinct_addresses(acc) {
                        assert(!seen_before.spec_seen(ai)) by {
                            if exists|j: int| 0 <= j < i && accepted@[j].pair_address@ == ai {
                                let j = choose|j: int|
                                    0 <= j < i && accepted@[j].pair_address@ == ai;
                                assert(acc[j].pair_address@ != acc[i as int].pair_address@);
                            }
                        }
                    }
                    assert forall|a: Seq<char>| #![auto] self.dedup.spec_seen(a) <==> (
                    cache0.spec_seen(a) || exists|j: int|
                        0 <= j < i + 1 && accepted@[j].pair_address@ == a) by {
                        if self.dedup.spec_seen(a) {
                            if seen_before.spec_seen(a) {
                                if !cache0.spec_seen(a) {
                                    let j = choose|j: int|
                                        0 <= j < i && accepted@[j].pair_address@ == a;
                                    assert(0 <= j < i + 1 && accepted@[j].pair_address@ == a);
                                }
                            } else {
                                assert(a == ai);
                                assert(accepted@[i as int].pair_address@ == a);
                            }
                        }
                        if cache0.spec_seen(a) {
                            assert(seen_before.spec_seen(a));
                        }
                        if exists|j: int| 0 <= j < i + 1 && accepted@[j].pair_address@ == a {
                            let j = choose|j: int|
                                0 <= j < i + 1 && accepted@[j].pair_address@ == a;
                            if j < i {
                                assert(seen_before.spec_seen(a));
                            } else {
                                assert(a == ai);
                            }
                        }
                    }
                }
                let o = build_opportunity(c, now_ms);
                new_opps.push(o);
                i = i + 1;
            }
            let ghost new_ops = new_opps@;
            let ghost premark = self.dedup;

            // Store first, then the log, as the lock order demands.
            store.merge_new(new_opps);
            proof {
                if sorted_desc(old(store)@) && (old(store)@.len() == 0 || now_ms >= old(
                    store,
                )@[0].detected_at_ms) {
                    crate::store::lemma_merge_bounded_ordered(new_ops, old(store)@);
                }
            }

            // One success line per accepted opportunity.
            let ghost mut app_w: Seq<LogEntry> = Seq::empty();
            proof {
                assert(log0 + app_w =~= log0);
                assert(logs@ == keep_last(log0 + app_w, MAX_LOGS as int));
            }
            let mut j: usize = 0;
            while j < accepted.len()
                invariant
                    j <= accepted@.len(),
                    acc == accepted@,
                    app_w.len() == j,
                    logs@ == keep_last(log0 + app_w, MAX_LOGS as int),
                    forall|t: int|
                        0 <= t < j ==> (#[trigger] app_w[t]).level == LogLevel::Success
                            && app_w[t].message@ == new_pool_message(accepted@[t]),
                decreases accepted.len() - j,
            {
                let msg = build_pool_message(&accepted[j]);
                logs.push(LogLevel::Success, msg);
                proof {
                    lemma_keep_last_push(log0 + app_w, logs@.last(), MAX_LOGS as int);
                    assert((log0 + app_w).push(logs@.last()) =~= log0 + app_w.push(logs@.last()));
                    app_w = app_w.push(logs@.last());
                }
                j = j + 1;
            }

            // Rotation check, last.
            let rotated = self.dedup.maybe_rotate(logs);
            proof {
                if rotated {
                    lemma_keep_last_push(log0 + app_w, logs@.last(), MAX_LOGS as int);
                    assert((log0 + app_w).push(logs@.last()) =~= log0 + app_w.push(logs@.last()));
                    app_w = app_w.push(logs@.last());
                    assert(premark.contents().len() > MAX_SEEN);
                }
                assert(logs@ == keep_last(log0 + app_w, MAX_LOGS as int));
                assert(cycle_log_matches(
                    log0,
                    logs@,
                    app_w,
                    acc,
                    rotated,
                    (cache0.contents().len() + acc.len()) as nat,
                    distinct_addresses(acc),
                ));
                assert(store@ == merged(new_ops, old(store)@));
                assert(store@.len() == (if acc.len() + old(store)@.len() <= STORE_CAP {
                    (acc.len() + old(store)@.len()) as int
                } else {
                    STORE_CAP as int
                }));
                assert forall|t: int| 0 <= t < acc.len() && t < store@.len() implies
                    opp_from_candidate(#[trigger] store@[t], acc[t], now_ms) by {
                    assert(store@[t] == (new_ops + old(store)@)[t]);
                    assert((new_ops + old(store)@)[t] == new_ops[t]);
                }
                assert forall|t: int| acc.len() <= t < store@.len() implies store@[t] == old(
                    store,
                )@[t - acc.len()] by {
                    assert(store@[t] == (new_ops + old(store)@)[t]);
                }
                assert(!rotated ==> forall|a: Seq<char>|
                    #![auto]
                    self.dedup.spec_seen(a) <==> (cache0.spec_seen(a) || exists|t: int|
                        0 <= t < acc.len() && acc[t].pair_address@ == a));
                assert(rotated ==> cache0.contents().len() + acc.len() > MAX_SEEN);
                assert(distinct_addresses(acc) ==> (rotated <==> cache0.contents().len()
                    + acc.len() > MAX_SEEN));
                lemma_cycle_commits_intro(
                    self0,
                    *self,
                    store0,
                    store@,
                    log0,
                    logs@,
                    cands@,
                    now_ms,
                    (k, rotated),
                    app_w,
                );
            }
            (k, rotated)
        }
    }

    /// One full cycle after the fetch: on decoded candidates, filter, mark,
    /// score, merge, log, and check the cache rotation; on a failed fetch,
    /// log one entry and commit nothing. Returns how many candidates were
    /// accepted and whether the dedup cache was rotated.
    pub fn run_cycle(
        &mut self,
        outcome: FetchOutcome,
        store: &mut OpportunityStore,
        logs: &mut LogSink,
        now_ms: u64,
    ) -> (r: (usize, bool))
        requires
            old(self).wf(),
            old(store).wf(),
            old(logs).wf(),
        ensures
            final(self).wf(),
            final(store).wf(),
            final(logs).wf(),
            final(self).config == old(self).config,
            final(self).query_idx == old(self).query_idx,
            // A failed fetch: one log entry, nothing else committed.
            (outcome is NetworkError || outcome is DecodeError) ==> {
                &&& r.0 == 0 && r.1 == false
                &&& final(store)@ == old(store)@
                &&& final(self).dedup == old(self).dedup
                &&& final(logs)@.len() > 0
                &&& final(logs)@ == keep_last(
                    old(logs)@.push(final(logs)@.last()),
                    MAX_LOGS as int,
                )
            },
            (outcome matches FetchOutcome::NetworkError(m) ==> final(logs)@.last().level
                == LogLevel::Error && final(logs)@.last().message@ == "Network error: "@ + m@),
            (outcome matches FetchOutcome::DecodeError(m) ==> final(logs)@.last().level
                == LogLevel::Warning && final(logs)@.last().message@ == "Parse error: "@ + m@),
            // A successful fetch.
            (outcome matches FetchOutcome::Pairs(cands) ==> cycle_commits(
                *old(self),
                *final(self),
                old(store)@,
                final(store)@,
                old(logs)@,
                final(logs)@,
                cands@,
                now_ms,
                r,
            )),
    {
        match outcome {
            FetchOutcome::NetworkError(m) => {
                let mut msg: String = "Network error: ".to_owned();
                msg.append(m.as_str());
                logs.push(LogLevel::Error, msg);
                let rotated = self.dedup.maybe_rotate(logs);
                (0, rotated)
            },
            FetchOutcome::DecodeError(m) => {
                let mut msg: String = "Parse error: ".to_owned();
                msg.append(m.as_str());
                logs.push(LogLevel::Warning, msg);
                let rotated = self.dedup.maybe_rotate(logs);
                (0, rotated)
            },
            FetchOutcome::Pairs(cands) => self.cycle_with_pairs(&cands, store, logs, now_ms),
        }
    }
}

} // verus!
