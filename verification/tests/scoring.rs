use sniper_core::feed::{normalize_pair, PairCandidate, RawPairData};
use sniper_core::risk::compute_risk_score;
use sniper_core::text::{
    format_clock, format_clock_millis, format_price_nano, shorten_address, u64_to_dec,
    u64_zero_padded,
};

fn candidate(
    liquidity_cents: u64,
    volume_h1_cents: u64,
    buys: u64,
    sells: u64,
    created_ms: u64,
    fdv_cents: u64,
) -> PairCandidate {
    PairCandidate {
        chain_id: "solana".to_string(),
        dex_id: "raydium".to_string(),
        pair_address: "PairAddress1111111111111111111111".to_string(),
        token_address: "TokenAddress222222222222222222222".to_string(),
        token_name: "Test Token".to_string(),
        token_symbol: "TST".to_string(),
        price_usd_nano: 1_234,
        liquidity_usd_cents: liquidity_cents,
        volume_h24_cents: 0,
        volume_h6_cents: 0,
        volume_h1_cents,
        price_change_m5_bps: 0,
        price_change_h1_bps: 0,
        price_change_h6_bps: 0,
        price_change_h24_bps: 0,
        market_cap_cents: 0,
        fdv_cents,
        txns_h1_buys: buys,
        txns_h1_sells: sells,
        txns_h24_buys: 0,
        txns_h24_sells: 0,
        pair_created_at_ms: created_ms,
    }
}

const NOW: u64 = 100_000_000;
const HOUR: u64 = 3_600_000;

#[test]
fn scenario_a_safe_85() {
    // liquidity $15,000, volume-1h $6,000, 40 buys / 20 sells, 2h old, fdv $1M
    let p = candidate(1_500_000, 600_000, 40, 20, NOW - 2 * HOUR, 100_000_000);
    let r = compute_risk_score(&p, NOW);
    assert_eq!(r.score, 85);
    assert_eq!(r.level, "SAFE");
    assert_eq!(r.flags.len(), 3);
    assert!(r.flags.iter().all(|f| f.passed));
}

#[test]
fn scenario_b_critical_5() {
    // liquidity $800, no volume, no txns, 30 minutes old, fdv 0
    let p = candidate(80_000, 0, 0, 0, NOW - 30 * 60_000, 0);
    let r = compute_risk_score(&p, NOW);
    assert_eq!(r.score, 5);
    assert_eq!(r.level, "CRITICAL");
    assert_eq!(r.flags.len(), 3);
    assert!(r.flags.iter().all(|f| !f.passed));
}

#[test]
fn score_exactly_80_is_safe() {
    // +15 liquidity, +10 volume, +10 txns, +10 age>6h, -15 fdv => 80
    let p = candidate(1_500_000, 600_000, 40, 20, NOW - 7 * HOUR, 20_000_000_000);
    let r = compute_risk_score(&p, NOW);
    assert_eq!(r.score, 80);
    assert_eq!(r.level, "SAFE");
    assert_eq!(r.flags.len(), 5);
}

#[test]
fn score_exactly_60_is_caution() {
    // +15 liquidity, +10 volume, -25 sell block, +10 age => 60
    let p = candidate(1_500_000, 600_000, 10, 0, NOW - 7 * HOUR, 0);
    let r = compute_risk_score(&p, NOW);
    assert_eq!(r.score, 60);
    assert_eq!(r.level, "CAUTION");
}

#[test]
fn mid_score_is_danger() {
    // +5 liquidity, 0 volume points, no txn flag, -10 age => 45
    let p = candidate(200_000, 100_000, 1, 1, NOW - 10 * 60_000, 0);
    let r = compute_risk_score(&p, NOW);
    assert_eq!(r.score, 45);
    assert_eq!(r.level, "DANGER");
}

#[test]
fn score_clamped_at_zero() {
    // -20 liquidity, -15 volume, -25 sell block, -10 age, -15 fdv => -35 -> 0
    let p = candidate(0, 0, 10, 0, NOW, 20_000_000_000);
    let r = compute_risk_score(&p, NOW);
    assert_eq!(r.score, 0);
    assert_eq!(r.level, "CRITICAL");
    assert_eq!(r.flags.len(), 5);
}

#[test]
fn scoring_is_deterministic() {
    let p1 = candidate(1_500_000, 600_000, 40, 20, NOW - 2 * HOUR, 100_000_000);
    let p2 = candidate(1_500_000, 600_000, 40, 20, NOW - 2 * HOUR, 100_000_000);
    let r1 = compute_risk_score(&p1, NOW);
    // Interleave an unrelated call: prior state must not matter.
    let _ = compute_risk_score(&candidate(0, 0, 0, 0, 0, 0), NOW);
    let r2 = compute_risk_score(&p2, NOW);
    assert_eq!(r1.score, r2.score);
    assert_eq!(r1.level, r2.level);
    assert_eq!(r1.flags.len(), r2.flags.len());
    for (a, b) in r1.flags.iter().zip(r2.flags.iter()) {
        assert_eq!(a.name, b.name);
        assert_eq!(a.severity, b.severity);
        assert_eq!(a.description, b.description);
        assert_eq!(a.passed, b.passed);
    }
}

#[test]
fn flag_order_and_content() {
    let p = candidate(1_500_000, 600_000, 40, 20, NOW - 2 * HOUR, 100_000_000);
    let r = compute_risk_score(&p, NOW);
    assert_eq!(r.flags[0].name, "Liquidity");
    assert_eq!(r.flags[0].severity, "info");
    assert_eq!(r.flags[0].description, "Liquidity $15000 - sufficient for trading");
    assert_eq!(r.flags[1].name, "Volume");
    assert_eq!(r.flags[1].severity, "info");
    assert_eq!(r.flags[1].description, "Vol 1h $6000 - active trading");
    assert_eq!(r.flags[2].name, "Txn Activity");
    // 60 transactions, buy ratio 40*100/60 = 66%
    assert_eq!(r.flags[2].description, "60 txns 1h, buy ratio 66%");
}

#[test]
fn sell_block_flag_fires() {
    let p = candidate(1_500_000, 600_000, 10, 0, NOW - 2 * HOUR, 0);
    let r = compute_risk_score(&p, NOW);
    assert_eq!(r.score, 50);
    let f = r.flags.iter().find(|f| f.name == "Sell Block").unwrap();
    assert_eq!(f.severity, "danger");
    assert!(!f.passed);
}

#[test]
fn future_created_pair_counts_as_new() {
    // A creation time after `now` must not underflow: age is zero.
    let p = candidate(1_500_000, 600_000, 40, 20, NOW + HOUR, 0);
    let r = compute_risk_score(&p, NOW);
    let f = r.flags.iter().find(|f| f.name == "Pool Age").unwrap();
    assert_eq!(f.severity, "warning");
}

#[test]
fn normalize_fills_absent_fields_with_zero() {
    let raw = RawPairData {
        chain_id: "solana".to_string(),
        dex_id: "orca".to_string(),
        pair_address: "p".to_string(),
        token_address: "t".to_string(),
        token_name: "n".to_string(),
        token_symbol: "s".to_string(),
        price_usd_nano: None,
        liquidity_usd_cents: None,
        volume_h24_cents: None,
        volume_h6_cents: None,
        volume_h1_cents: None,
        price_change_m5_bps: None,
        price_change_h1_bps: None,
        price_change_h6_bps: None,
        price_change_h24_bps: None,
        market_cap_cents: None,
        fdv_cents: None,
        txns_h1_buys: None,
        txns_h1_sells: None,
        txns_h24_buys: None,
        txns_h24_sells: None,
        pair_created_at_ms: None,
    };
    let c = normalize_pair(raw);
    assert_eq!(c.chain_id, "solana");
    assert_eq!(c.price_usd_nano, 0);
    assert_eq!(c.liquidity_usd_cents, 0);
    assert_eq!(c.volume_h1_cents, 0);
    assert_eq!(c.price_change_h24_bps, 0);
    assert_eq!(c.fdv_cents, 0);
    assert_eq!(c.txns_h1_buys, 0);
    assert_eq!(c.pair_created_at_ms, 0);
}

#[test]
fn normalize_keeps_present_fields() {
    let raw = RawPairData {
        chain_id: "solana".to_string(),
        dex_id: "orca".to_string(),
        pair_address: "p".to_string(),
        token_address: "t".to_string(),
        token_name: "n".to_string(),
        token_symbol: "s".to_string(),
        price_usd_nano: Some(7),
        liquidity_usd_cents: Some(8),
        volume_h24_cents: Some(9),
        volume_h6_cents: Some(10),
        volume_h1_cents: Some(11),
        price_change_m5_bps: Some(-12),
        price_change_h1_bps: Some(13),
        price_change_h6_bps: Some(-14),
        price_change_h24_bps: Some(15),
        market_cap_cents: Some(16),
        fdv_cents: Some(17),
        txns_h1_buys: Some(18),
        txns_h1_sells: Some(19),
        txns_h24_buys: Some(20),
        txns_h24_sells: Some(21),
        pair_created_at_ms: Some(22),
    };
    let c = normalize_pair(raw);
    assert_eq!(c.price_usd_nano, 7);
    assert_eq!(c.price_change_m5_bps, -12);
    assert_eq!(c.txns_h24_sells, 21);
    assert_eq!(c.pair_created_at_ms, 22);
}

#[test]
fn decimal_rendering() {
    assert_eq!(u64_to_dec(0), "0");
    assert_eq!(u64_to_dec(7), "7");
    assert_eq!(u64_to_dec(12345), "12345");
    assert_eq!(u64_to_dec(u64::MAX), "18446744073709551615");
}

#[test]
fn zero_padding() {
    assert_eq!(u64_zero_padded(5, 3), "005");
    assert_eq!(u64_zero_padded(123, 3), "123");
    assert_eq!(u64_zero_padded(1234, 3), "1234");
}

#[test]
fn clock_formatting() {
    assert_eq!(format_clock(0), "00:00:00");
    // 12:34:56.789 into a day
    let ms = (12 * 3600 + 34 * 60 + 56) * 1000 + 789;
    assert_eq!(format_clock(ms), "12:34:56");
    assert_eq!(format_clock_millis(ms), "12:34:56.789");
    // wraps modulo 24 hours
    assert_eq!(format_clock(ms + 86_400_000), "12:34:56");
}

#[test]
fn price_formatting() {
    assert_eq!(format_price_nano(0), "0.000000000");
    assert_eq!(format_price_nano(1_234), "0.000001234");
    assert_eq!(format_price_nano(2_500_000_000), "2.500000000");
}

#[test]
fn address_shortening() {
    assert_eq!(shorten_address("abcdefghijkl"), "abcdef..ijkl");
    assert_eq!(shorten_address("abcdefghij"), "abcdef..ghij");
    assert_eq!(shorten_address("short"), "short");
}
