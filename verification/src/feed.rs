//! The feed-side data model. The transport layer decodes the market-data
//! feed's response and hands over one `RawPairData` per pair record, with an
//! `Option` wherever the feed may omit a field. `normalize_pair` turns that
//! into a fully populated `PairCandidate`, defaulting every absent numeric
//! field to zero, so the rest of the pipeline works on total values.
//!
//! Monetary amounts are fixed-point integers: USD amounts in cents, token
//! prices in nano-USD (10^-9 USD), price changes in basis points.

use vstd::prelude::*;

verus! {

/// One pair record as the feed reports it, optional fields kept optional.
pub struct RawPairData {
    pub chain_id: String,
    pub dex_id: String,
    pub pair_address: String,
    pub token_address: String,
    pub token_name: String,
    pub token_symbol: String,
    pub price_usd_nano: Option<u64>,
    pub liquidity_usd_cents: Option<u64>,
    pub volume_h24_cents: Option<u64>,
    pub volume_h6_cents: Option<u64>,
    pub volume_h1_cents: Option<u64>,
    pub price_change_m5_bps: Option<i64>,
    pub price_change_h1_bps: Option<i64>,
    pub price_change_h6_bps: Option<i64>,
    pub price_change_h24_bps: Option<i64>,
    pub market_cap_cents: Option<u64>,
    pub fdv_cents: Option<u64>,
    pub txns_h1_buys: Option<u64>,
    pub txns_h1_sells: Option<u64>,
    pub txns_h24_buys: Option<u64>,
    pub txns_h24_sells: Option<u64>,
    pub pair_created_at_ms: Option<u64>,
}

/// One candidate pair with every numeric field present; absent fields of the
/// raw record become zero.
pub struct PairCandidate {
    pub chain_id: String,
    pub dex_id: String,
    pub pair_address: String,
    pub token_address: String,
    pub token_name: String,
    pub token_symbol: String,
    pub price_usd_nano: u64,
    pub liquidity_usd_cents: u64,
    pub volume_h24_cents: u64,
    pub volume_h6_cents: u64,
    pub volume_h1_cents: u64,
    pub price_change_m5_bps: i64,
    pub price_change_h1_bps: i64,
    pub price_change_h6_bps: i64,
    pub price_change_h24_bps: i64,
    pub market_cap_cents: u64,
    pub fdv_cents: u64,
    pub txns_h1_buys: u64,
    pub txns_h1_sells: u64,
    pub txns_h24_buys: u64,
    pub txns_h24_sells: u64,
    pub pair_created_at_ms: u64,
}

/// The value an optional numeric feed field normalizes to.
pub open spec fn or_zero_u64(v: Option<u64>) -> u64 {
    match v {
        Some(x) => x,
        None => 0,
    }
}

/// The value an optional signed feed field normalizes to.
pub open spec fn or_zero_i64(v: Option<i64>) -> i64 {
    match v {
        Some(x) => x,
        None => 0,
    }
}

fn unwrap_u64(v: Option<u64>) -> (r: u64)
    ensures
        r == or_zero_u64(v),
{
    match v {
        Some(x) => x,
        None => 0,
    }
}

fn unwrap_i64(v: Option<i64>) -> (r: i64)
    ensures
        r == or_zero_i64(v),
{
    match v {
        Some(x) => x,
        None => 0,
    }
}

/// Fills every absent numeric field of a raw pair record with zero; a missing
/// optional field never rejects the record.
pub fn normalize_pair(raw: RawPairData) -> (c: PairCandidate)
    ensures
        c.chain_id == raw.chain_id,
        c.dex_id == raw.dex_id,
        c.pair_address == raw.pair_address,
        c.token_address == raw.token_address,
        c.token_name == raw.token_name,
        c.token_symbol == raw.token_symbol,
        c.price_usd_nano == or_zero_u64(raw.price_usd_nano),
        c.liquidity_usd_cents == or_zero_u64(raw.liquidity_usd_cents),
        c.volume_h24_cents == or_zero_u64(raw.volume_h24_cents),
        c.volume_h6_cents == or_zero_u64(raw.volume_h6_cents),
        c.volume_h1_cents == or_zero_u64(raw.volume_h1_cents),
        c.price_change_m5_bps == or_zero_i64(raw.price_change_m5_bps),
        c.price_change_h1_bps == or_zero_i64(raw.price_change_h1_bps),
        c.price_change_h6_bps == or_zero_i64(raw.price_change_h6_bps),
        c.price_change_h24_bps == or_zero_i64(raw.price_change_h24_bps),
        c.market_cap_cents == or_zero_u64(raw.market_cap_cents),
        c.fdv_cents == or_zero_u64(raw.fdv_cents),
        c.txns_h1_buys == or_zero_u64(raw.txns_h1_buys),
        c.txns_h1_sells == or_zero_u64(raw.txns_h1_sells),
        c.txns_h24_buys == or_zero_u64(raw.txns_h24_buys),
        c.txns_h24_sells == or_zero_u64(raw.txns_h24_sells),
        c.pair_created_at_ms == or_zero_u64(raw.pair_created_at_ms),
{
    PairCandidate {
        chain_id: raw.chain_id,
        dex_id: raw.dex_id,
        pair_address: raw.pair_address,
        token_address: raw.token_address,
        token_name: raw.token_name,
        token_symbol: raw.token_symbol,
        price_usd_nano: unwrap_u64(raw.price_usd_nano),
        liquidity_usd_cents: unwrap_u64(raw.liquidity_usd_cents),
        volume_h24_cents: unwrap_u64(raw.volume_h24_cents),
        volume_h6_cents: unwrap_u64(raw.volume_h6_cents),
        volume_h1_cents: unwrap_u64(raw.volume_h1_cents),
        price_change_m5_bps: unwrap_i64(raw.price_change_m5_bps),
        price_change_h1_bps: unwrap_i64(raw.price_change_h1_bps),
        price_change_h6_bps: unwrap_i64(raw.price_change_h6_bps),
        price_change_h24_bps: unwrap_i64(raw.price_change_h24_bps),
        market_cap_cents: unwrap_u64(raw.market_cap_cents),
        fdv_cents: unwrap_u64(raw.fdv_cents),
        txns_h1_buys: unwrap_u64(raw.txns_h1_buys),
        txns_h1_sells: unwrap_u64(raw.txns_h1_sells),
        txns_h24_buys: unwrap_u64(raw.txns_h24_buys),
        txns_h24_sells: unwrap_u64(raw.txns_h24_sells),
        pair_created_at_ms: unwrap_u64(raw.pair_created_at_ms),
    }
}

impl Clone for PairCandidate {
    /// An exact copy: every field of the clone equals the original's.
    fn clone(&self) -> (r: Self)
        ensures
            r == *self,
    {
        PairCandidate {
            chain_id: self.chain_id.clone(),
            dex_id: self.dex_id.clone(),
            pair_address: self.pair_address.clone(),
            token_address: self.token_address.clone(),
            token_name: self.token_name.clone(),
            token_symbol: self.token_symbol.clone(),
            price_usd_nano: self.price_usd_nano,
            liquidity_usd_cents: self.liquidity_usd_cents,
            volume_h24_cents: self.volume_h24_cents,
            volume_h6_cents: self.volume_h6_cents,
            volume_h1_cents: self.volume_h1_cents,
            price_change_m5_bps: self.price_change_m5_bps,
            price_change_h1_bps: self.price_change_h1_bps,
            price_change_h6_bps: self.price_change_h6_bps,
            price_change_h24_bps: self.price_change_h24_bps,
            market_cap_cents: self.market_cap_cents,
            fdv_cents: self.fdv_cents,
            txns_h1_buys: self.txns_h1_buys,
            txns_h1_sells: self.txns_h1_sells,
            txns_h24_buys: self.txns_h24_buys,
            txns_h24_sells: self.txns_h24_sells,
            pair_created_at_ms: self.pair_created_at_ms,
        }
    }
}

} // verus!
