//! The simulated trading-engine configuration: a pass-through mutable record
//! consumers may read and replace. SOL amounts are in lamports (10^-9 SOL).

use vstd::prelude::*;

verus! {

/// Configuration of the bundle-submission engine.
pub struct JitoConfig {
    pub tip_min_lamports: u64,
    pub tip_max_lamports: u64,
    pub block_engine: String,
    pub tip_strategy: String,
    pub max_txns_per_bundle: u8,
    pub slippage_bps: u64,
    pub anti_sandwich: bool,
    pub compute_unit_limit: u32,
    pub priority_fee_micro_lamports: u64,
}

impl Clone for JitoConfig {
    /// An exact copy: every field of the clone equals the original's.
    fn clone(&self) -> (r: Self)
        ensures
            r == *self,
    {
        JitoConfig {
            tip_min_lamports: self.tip_min_lamports,
            tip_max_lamports: self.tip_max_lamports,
            block_engine: self.block_engine.clone(),
            tip_strategy: self.tip_strategy.clone(),
            max_txns_per_bundle: self.max_txns_per_bundle,
            slippage_bps: self.slippage_bps,
            anti_sandwich: self.anti_sandwich,
            compute_unit_limit: self.compute_unit_limit,
            priority_fee_micro_lamports: self.priority_fee_micro_lamports,
        }
    }
}

impl Default for JitoConfig {
    /// The starting configuration: a 0.0001 to 0.005 SOL tip band, dynamic
    /// tips through the amsterdam block engine, one transaction per bundle,
    /// 1% slippage, anti-sandwich protection on.
    fn default() -> (c: Self)
        ensures
            c.tip_min_lamports == 100_000,
            c.tip_max_lamports == 5_000_000,
            c.block_engine@ == "amsterdam"@,
            c.tip_strategy@ == "dynamic"@,
            c.max_txns_per_bundle == 1,
            c.slippage_bps == 100,
            c.anti_sandwich == true,
            c.compute_unit_limit == 200_000,
            c.priority_fee_micro_lamports == 5_000,
    {
        JitoConfig {
            tip_min_lamports: 100_000,
            tip_max_lamports: 5_000_000,
            block_engine: "amsterdam".to_owned(),
            tip_strategy: "dynamic".to_owned(),
            max_txns_per_bundle: 1,
            slippage_bps: 100,
            anti_sandwich: true,
            compute_unit_limit: 200_000,
            priority_fee_micro_lamports: 5_000,
        }
    }
}

} // verus!
