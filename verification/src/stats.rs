//! The simulated network-statistics record and its periodic update step.
//! Throughput, the fee estimate, and the congestion label move together;
//! the chain position advances by a fixed increment with the epoch derived
//! from it; the reference price drifts within a clamped band. The step is a
//! pure function of the previous record and the current time.

use vstd::prelude::*;

use crate::text::{clock_str, format_clock};

verus! {

/// How far the chain position advances per update.
pub const SLOT_STEP: u64 = 75;

/// How many slots one epoch spans.
pub const SLOTS_PER_EPOCH: u64 = 432_000;

/// The simulated network statistics. The reference price is in USD cents.
pub struct NetworkStats {
    pub tps: u64,
    pub current_slot: u64,
    pub epoch: u64,
    pub priority_fee_estimate: u64,
    pub congestion_level: String,
    pub active_validators: u64,
    pub sol_price_cents: u64,
    pub last_updated: String,
}

impl Clone for NetworkStats {
    /// An exact copy: every field of the clone equals the original's.
    fn clone(&self) -> (r: Self)
        ensures
            r == *self,
    {
        NetworkStats {
            tps: self.tps,
            current_slot: self.current_slot,
            epoch: self.epoch,
            priority_fee_estimate: self.priority_fee_estimate,
            congestion_level: self.congestion_level.clone(),
            active_validators: self.active_validators,
            sol_price_cents: self.sol_price_cents,
            last_updated: self.last_updated.clone(),
        }
    }
}

impl Default for NetworkStats {
    /// The starting record; the update timestamp is empty until the first
    /// update step runs.
    fn default() -> (s: Self)
        ensures
            s.tps == 3200,
            s.current_slot == 290_000_000,
            s.epoch == 600,
            s.priority_fee_estimate == 5_000,
            s.congestion_level@ == "medium"@,
            s.active_validators == 1_900,
            s.sol_price_cents == 14_000,
            s.last_updated@ == Seq::<char>::empty(),
    {
        NetworkStats {
            tps: 3200,
            current_slot: 290_000_000,
            epoch: 600,
            priority_fee_estimate: 5_000,
            congestion_level: "medium".to_owned(),
            active_validators: 1_900,
            sol_price_cents: 14_000,
            last_updated: String::new(),
        }
    }
}

/// The throughput drift for the second `now_secs`: a value in
/// {-300, ..., 300} stepped by hundreds.
pub open spec fn tps_delta(now_secs: u64) -> int {
    ((now_secs % 7) - 3) * 100
}

/// The next throughput: the old value plus the drift, clamped to the
/// realistic band [2000, 5000].
pub open spec fn tps_step(tps: u64, now_secs: u64) -> u64 {
    let t = tps + tps_delta(now_secs);
    if t < 2000 {
        2000
    } else if t > 5000 {
        5000
    } else {
        t as u64
    }
}

/// The priority-fee estimate tier for a throughput value.
pub open spec fn fee_for_tps(tps: u64) -> u64 {
    if tps <= 2500 {
        50_000
    } else if tps <= 3500 {
        10_000
    } else if tps <= 4500 {
        5_000
    } else {
        1_000
    }
}

/// The congestion label tier for a throughput value.
pub open spec fn congestion_for_tps(tps: u64) -> Seq<char> {
    if tps <= 2500 {
        "high"@
    } else if tps <= 3500 {
        "medium"@
    } else {
        "low"@
    }
}

/// The price drift for the second `now_secs`: a value in
/// {-30, -15, 0, 15, 30} cents.
pub open spec fn price_delta(now_secs: u64) -> int {
    ((now_secs % 5) - 2) * 15
}

/// The next reference price: the old value plus the drift, clamped to the
/// band [13000, 16000] cents.
pub open spec fn price_step(cents: u64, now_secs: u64) -> u64 {
    let p = cents + price_delta(now_secs);
    if p < 13_000 {
        13_000
    } else if p > 16_000 {
        16_000
    } else {
        p as u64
    }
}

/// One update step at instant `now_ms`: deterministic in the old record and
/// the time; fee and congestion always match the new throughput, and the
/// epoch always matches the new chain position.
pub fn update_network_stats(stats: &mut NetworkStats, now_ms: u64)
    ensures
        final(stats).tps == tps_step(old(stats).tps, now_ms / 1000),
        final(stats).current_slot == crate::risk::sat_add(old(stats).current_slot, SLOT_STEP),
        final(stats).epoch == final(stats).current_slot / SLOTS_PER_EPOCH,
        final(stats).priority_fee_estimate == fee_for_tps(final(stats).tps),
        final(stats).congestion_level@ == congestion_for_tps(final(stats).tps),
        final(stats).active_validators == old(stats).active_validators,
        final(stats).sol_price_cents == price_step(old(stats).sol_price_cents, now_ms / 1000),
        final(stats).last_updated@ == clock_str(now_ms as nat),
{
    let now_secs = now_ms / 1000;

    let m7 = now_secs % 7;
    let moved = if m7 >= 3 {
        stats.tps.saturating_add((m7 - 3) * 100)
    } else {
        stats.tps.saturating_sub((3 - m7) * 100)
    };
    stats.tps = if moved < 2000 {
        2000
    } else if moved > 5000 {
        5000
    } else {
        moved
    };
    assert(stats.tps == tps_step(old(stats).tps, now_secs));

    stats.current_slot = stats.current_slot.saturating_add(SLOT_STEP);
    stats.epoch = stats.current_slot / SLOTS_PER_EPOCH;

    stats.priority_fee_estimate = if stats.tps <= 2500 {
        50_000
    } else if stats.tps <= 3500 {
        10_000
    } else if stats.tps <= 4500 {
        5_000
    } else {
        1_000
    };

    stats.congestion_level = if stats.tps <= 2500 {
        "high".to_owned()
    } else if stats.tps <= 3500 {
        "medium".to_owned()
    } else {
        "low".to_owned()
    };

    let m5 = now_secs % 5;
    let drifted = if m5 >= 2 {
        stats.sol_price_cents.saturating_add((m5 - 2) * 15)
    } else {
        stats.sol_price_cents.saturating_sub((2 - m5) * 15)
    };
    stats.sol_price_cents = if drifted < 13_000 {
        13_000
    } else if drifted > 16_000 {
        16_000
    } else {
        drifted
    };
    assert(stats.sol_price_cents == price_step(old(stats).sol_price_cents, now_secs));

    stats.last_updated = format_clock(now_ms);
}

} // verus!
