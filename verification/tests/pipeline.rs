use sniper_core::dedup::DedupCache;
use sniper_core::feed::PairCandidate;
use sniper_core::logsink::{cap_logs, LogEntry, LogLevel, LogSink};
use sniper_core::poller::{default_config, FetchOutcome, Poller};
use sniper_core::store::{Opportunity, OpportunityStatus, OpportunityStore};

const NOW: u64 = 200_000_000;
const HOUR: u64 = 3_600_000;

fn pair(addr: &str, chain: &str, liquidity_cents: u64, created_ms: u64) -> PairCandidate {
    PairCandidate {
        chain_id: chain.to_string(),
        dex_id: "raydium".to_string(),
        pair_address: addr.to_string(),
        token_address: format!("token-of-{}", addr),
        token_name: "Test Token".to_string(),
        token_symbol: "TST".to_string(),
        price_usd_nano: 1_234,
        liquidity_usd_cents: liquidity_cents,
        volume_h24_cents: 0,
        volume_h6_cents: 0,
        volume_h1_cents: 600_000,
        price_change_m5_bps: 0,
        price_change_h1_bps: 0,
        price_change_h6_bps: 0,
        price_change_h24_bps: 0,
        market_cap_cents: 0,
        fdv_cents: 0,
        txns_h1_buys: 40,
        txns_h1_sells: 20,
        txns_h24_buys: 0,
        txns_h24_sells: 0,
        pair_created_at_ms: created_ms,
    }
}

fn good_pair(addr: &str) -> PairCandidate {
    pair(addr, "solana", 1_500_000, NOW - 2 * HOUR)
}

fn fresh_poller() -> Poller {
    Poller::new(default_config())
}

#[test]
fn accepts_a_good_pair_end_to_end() {
    let mut p = fresh_poller();
    let mut store = OpportunityStore::new();
    let mut logs = LogSink::new();
    let (n, rotated) = p.run_cycle(
        FetchOutcome::Pairs(vec![good_pair("addr-1")]),
        &mut store,
        &mut logs,
        NOW,
    );
    assert_eq!(n, 1);
    assert!(!rotated);
    assert_eq!(store.len(), 1);
    let o = store.get(0);
    assert_eq!(o.pair_address, "addr-1");
    assert_eq!(o.token_symbol, "TST");
    assert!(matches!(o.status, OpportunityStatus::Detected));
    assert_eq!(o.detected_at_ms, NOW);
    assert_eq!(o.id.len(), 36);
    let risk = o.risk_score.as_ref().unwrap();
    assert_eq!(risk.score, 85);
    assert_eq!(risk.level, "SAFE");
    // one success line was logged for the new pool
    let recent = logs.read_recent(1);
    assert!(matches!(recent[0].level, LogLevel::Success));
    assert!(recent[0].message.starts_with("NEW POOL: TST (raydium) | Liq $15000 | $0.000001234 | "));
    assert_eq!(recent[0].id.len(), 36);
}

#[test]
fn scenario_c_old_pair_filtered_out() {
    // created 25 hours in the past: filtered out entirely
    let mut p = fresh_poller();
    let mut store = OpportunityStore::new();
    let mut logs = LogSink::new();
    let old = pair("addr-old", "solana", 1_500_000, NOW - 25 * HOUR);
    let (n, _) = p.run_cycle(FetchOutcome::Pairs(vec![old]), &mut store, &mut logs, NOW);
    assert_eq!(n, 0);
    assert_eq!(store.len(), 0);
    let recent = logs.read_recent(1);
    assert!(matches!(recent[0].level, LogLevel::Info));
    assert_eq!(recent[0].message, "No new opportunities this cycle. Watching...");
}

#[test]
fn scenario_d_seen_pair_not_duplicated() {
    // the raw feed keeps returning the pair; it is accepted only once
    let mut p = fresh_poller();
    let mut store = OpportunityStore::new();
    let mut logs = LogSink::new();
    let (n1, _) = p.run_cycle(
        FetchOutcome::Pairs(vec![good_pair("addr-dup")]),
        &mut store,
        &mut logs,
        NOW,
    );
    let (n2, _) = p.run_cycle(
        FetchOutcome::Pairs(vec![good_pair("addr-dup")]),
        &mut store,
        &mut logs,
        NOW + 10_000,
    );
    assert_eq!(n1, 1);
    assert_eq!(n2, 0);
    assert_eq!(store.len(), 1);
}

#[test]
fn wrong_chain_filtered_out() {
    let mut p = fresh_poller();
    let mut store = OpportunityStore::new();
    let mut logs = LogSink::new();
    let eth = pair("addr-eth", "ethereum", 1_500_000, NOW - 2 * HOUR);
    let (n, _) = p.run_cycle(FetchOutcome::Pairs(vec![eth]), &mut store, &mut logs, NOW);
    assert_eq!(n, 0);
    assert_eq!(store.len(), 0);
}

#[test]
fn liquidity_must_be_strictly_above_500() {
    let mut p = fresh_poller();
    let mut store = OpportunityStore::new();
    let mut logs = LogSink::new();
    let at_bound = pair("addr-500", "solana", 50_000, NOW - 2 * HOUR);
    let above = pair("addr-501", "solana", 50_001, NOW - 2 * HOUR);
    let (n, _) = p.run_cycle(
        FetchOutcome::Pairs(vec![at_bound, above]),
        &mut store,
        &mut logs,
        NOW,
    );
    assert_eq!(n, 1);
    assert_eq!(store.get(0).pair_address, "addr-501");
}

#[test]
fn accepts_at_most_five_per_cycle() {
    let mut p = fresh_poller();
    let mut store = OpportunityStore::new();
    let mut logs = LogSink::new();
    let cands: Vec<_> = (0..7).map(|i| good_pair(&format!("addr-{}", i))).collect();
    let (n, _) = p.run_cycle(FetchOutcome::Pairs(cands), &mut store, &mut logs, NOW);
    assert_eq!(n, 5);
    assert_eq!(store.len(), 5);
    // earliest-matching-first, prepended most-recent-first keeps source order
    assert_eq!(store.get(0).pair_address, "addr-0");
    assert_eq!(store.get(4).pair_address, "addr-4");
}

#[test]
fn store_never_exceeds_fifty_and_newest_first() {
    let mut p = fresh_poller();
    let mut store = OpportunityStore::new();
    let mut logs = LogSink::new();
    for cycle in 0..12 {
        let cands: Vec<_> = (0..5)
            .map(|i| good_pair(&format!("addr-{}-{}", cycle, i)))
            .collect();
        let now = NOW + cycle * 10_000;
        let (n, _) = p.run_cycle(FetchOutcome::Pairs(cands), &mut store, &mut logs, now);
        assert_eq!(n, 5);
        assert!(store.len() <= 50);
    }
    assert_eq!(store.len(), 50);
    // newest first: detection timestamps never increase down the list
    let snap = store.snapshot();
    for w in snap.windows(2) {
        assert!(w[0].detected_at_ms >= w[1].detected_at_ms);
    }
    // the newest batch is in front, the two oldest batches were truncated
    assert_eq!(snap[0].pair_address, "addr-11-0");
    assert_eq!(snap[49].pair_address, "addr-2-4");
}

#[test]
fn network_error_logs_and_commits_nothing() {
    let mut p = fresh_poller();
    let mut store = OpportunityStore::new();
    let mut logs = LogSink::new();
    let (n, rotated) = p.run_cycle(
        FetchOutcome::NetworkError("connection refused".to_string()),
        &mut store,
        &mut logs,
        NOW,
    );
    assert_eq!(n, 0);
    assert!(!rotated);
    assert_eq!(store.len(), 0);
    assert_eq!(logs.len(), 1);
    let recent = logs.read_recent(1);
    assert!(matches!(recent[0].level, LogLevel::Error));
    assert_eq!(recent[0].message, "Network error: connection refused");
}

#[test]
fn decode_error_logs_a_warning() {
    let mut p = fresh_poller();
    let mut store = OpportunityStore::new();
    let mut logs = LogSink::new();
    let (n, _) = p.run_cycle(
        FetchOutcome::DecodeError("missing field".to_string()),
        &mut store,
        &mut logs,
        NOW,
    );
    assert_eq!(n, 0);
    assert_eq!(store.len(), 0);
    let recent = logs.read_recent(1);
    assert!(matches!(recent[0].level, LogLevel::Warning));
    assert_eq!(recent[0].message, "Parse error: missing field");
}

#[test]
fn keywords_rotate_round_robin() {
    let mut p = fresh_poller();
    let expected = ["pump", "moon", "sol", "doge", "pepe", "inu", "cat", "meme", "pump"];
    for kw in expected {
        assert_eq!(p.next_keyword(), kw);
    }
}

#[test]
fn dedup_marks_and_remembers() {
    let mut cache = DedupCache::new();
    assert!(!cache.seen(&"a".to_string()));
    cache.mark("a".to_string());
    assert!(cache.seen(&"a".to_string()));
    cache.mark("a".to_string());
    assert_eq!(cache.len(), 1);
    cache.mark("b".to_string());
    assert_eq!(cache.len(), 2);
}

#[test]
fn dedup_rotation_at_2001_distinct_addresses() {
    let mut cache = DedupCache::new();
    let mut logs = LogSink::new();
    for i in 0..2000 {
        cache.mark(format!("addr-{}", i));
    }
    assert_eq!(cache.len(), 2000);
    // at capacity: no rotation yet
    assert!(!cache.maybe_rotate(&mut logs));
    assert_eq!(logs.len(), 0);
    // the 2001st distinct address tips it over
    cache.mark("addr-2000".to_string());
    assert_eq!(cache.len(), 2001);
    assert!(cache.maybe_rotate(&mut logs));
    assert_eq!(cache.len(), 0);
    assert_eq!(logs.len(), 1);
    let recent = logs.read_recent(1);
    assert!(matches!(recent[0].level, LogLevel::Warning));
    assert_eq!(recent[0].message, "Seen-pairs cache rotated - 2001 entries cleared");
    // previously seen addresses are fresh again after the clear
    assert!(!cache.seen(&"addr-0".to_string()));
}

#[test]
fn log_sink_keeps_the_newest_500() {
    let mut logs = LogSink::new();
    for i in 0..505 {
        logs.push(LogLevel::Info, format!("entry {}", i));
    }
    assert_eq!(logs.len(), 500);
    let recent = logs.read_recent(500);
    // newest first
    assert_eq!(recent[0].message, "entry 504");
    // the oldest five were evicted first
    assert_eq!(recent[499].message, "entry 5");
}

#[test]
fn read_recent_is_newest_first_and_bounded() {
    let mut logs = LogSink::new();
    for i in 0..10 {
        logs.push(LogLevel::Info, format!("m{}", i));
    }
    let recent = logs.read_recent(3);
    assert_eq!(recent.len(), 3);
    assert_eq!(recent[0].message, "m9");
    assert_eq!(recent[1].message, "m8");
    assert_eq!(recent[2].message, "m7");
    let all = logs.read_recent(100);
    assert_eq!(all.len(), 10);
}

#[test]
fn clear_reports_how_many_were_removed() {
    let mut logs = LogSink::new();
    for i in 0..7 {
        logs.push(LogLevel::Info, format!("m{}", i));
    }
    assert_eq!(logs.clear(), 7);
    assert_eq!(logs.len(), 0);
}

#[test]
fn cap_logs_trims_a_raw_vector() {
    let mut v: Vec<LogEntry> = (0..503)
        .map(|i| LogEntry {
            id: format!("id-{}", i),
            timestamp: "00:00:00.000".to_string(),
            level: LogLevel::Info,
            message: format!("m{}", i),
        })
        .collect();
    let evicted = cap_logs(&mut v);
    assert_eq!(evicted, 3);
    assert_eq!(v.len(), 500);
    assert_eq!(v[0].message, "m3");
    assert_eq!(v[499].message, "m502");
}

fn opportunity(addr: &str, status: OpportunityStatus) -> Opportunity {
    Opportunity {
        id: "x".to_string(),
        token_name: "n".to_string(),
        token_symbol: "s".to_string(),
        token_address: addr.to_string(),
        pair_address: format!("pair-of-{}", addr),
        dex_id: "raydium".to_string(),
        price_usd_nano: 5,
        liquidity_usd_cents: 0,
        volume_h24_cents: 0,
        volume_h6_cents: 0,
        volume_h1_cents: 0,
        price_change_m5_bps: 0,
        price_change_h1_bps: 0,
        price_change_h6_bps: 0,
        price_change_h24_bps: 0,
        market_cap_cents: 0,
        fdv_cents: 0,
        txns_h1_buys: 0,
        txns_h1_sells: 0,
        txns_h24_buys: 0,
        txns_h24_sells: 0,
        pair_created_at_ms: 0,
        detected_at: "00:00:00".to_string(),
        detected_at_ms: 0,
        status,
        risk_score: None,
    }
}

#[test]
fn detected_to_sniped_succeeds_when_address_exists() {
    let mut store = OpportunityStore::new();
    store.merge_new(vec![opportunity("tok-a", OpportunityStatus::Detected)]);
    assert!(store.mark_sniped(&"tok-a".to_string()));
    assert!(matches!(store.get(0).status, OpportunityStatus::Sniped));
}

#[test]
fn transition_for_missing_address_is_a_noop() {
    let mut store = OpportunityStore::new();
    store.merge_new(vec![opportunity("tok-a", OpportunityStatus::Detected)]);
    assert!(!store.mark_sniped(&"tok-unknown".to_string()));
    assert!(matches!(store.get(0).status, OpportunityStatus::Detected));
    assert_eq!(store.len(), 1);
}

#[test]
fn no_transition_out_of_sniped_or_missed() {
    let mut store = OpportunityStore::new();
    store.merge_new(vec![
        opportunity("tok-m", OpportunityStatus::Missed),
        opportunity("tok-s", OpportunityStatus::Sniped),
    ]);
    assert!(store.mark_sniped(&"tok-m".to_string()));
    assert!(store.mark_sniped(&"tok-s".to_string()));
    assert!(matches!(store.get(0).status, OpportunityStatus::Missed));
    assert!(matches!(store.get(1).status, OpportunityStatus::Sniped));
}

#[test]
fn price_lookup_finds_first_match() {
    let mut store = OpportunityStore::new();
    let mut o = opportunity("tok-a", OpportunityStatus::Detected);
    o.price_usd_nano = 42;
    store.merge_new(vec![o]);
    assert_eq!(store.price_nano_for(&"tok-a".to_string()), Some(42));
    assert_eq!(store.price_nano_for(&"tok-b".to_string()), None);
}

#[test]
fn empty_feed_logs_one_idle_line() {
    let mut p = fresh_poller();
    let mut store = OpportunityStore::new();
    let mut logs = LogSink::new();
    let (n, rotated) = p.run_cycle(FetchOutcome::Pairs(vec![]), &mut store, &mut logs, NOW);
    assert_eq!(n, 0);
    assert!(!rotated);
    assert_eq!(store.len(), 0);
    assert_eq!(logs.len(), 1);
    let recent = logs.read_recent(1);
    assert!(matches!(recent[0].level, LogLevel::Info));
    assert_eq!(recent[0].message, "No new opportunities this cycle. Watching...");
}

#[test]
fn same_address_twice_in_one_batch_passes_the_filter_twice() {
    // The dedup filter checks addresses against the cache as it stood before
    // the cycle, so a response repeating one address yields two acceptances
    // within that cycle; the next cycle rejects the address.
    let mut p = fresh_poller();
    let mut store = OpportunityStore::new();
    let mut logs = LogSink::new();
    let (n1, _) = p.run_cycle(
        FetchOutcome::Pairs(vec![good_pair("addr-twin"), good_pair("addr-twin")]),
        &mut store,
        &mut logs,
        NOW,
    );
    assert_eq!(n1, 2);
    assert_eq!(store.len(), 2);
    let (n2, _) = p.run_cycle(
        FetchOutcome::Pairs(vec![good_pair("addr-twin")]),
        &mut store,
        &mut logs,
        NOW + 10_000,
    );
    assert_eq!(n2, 0);
    assert_eq!(store.len(), 2);
}
