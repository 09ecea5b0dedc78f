//! The risk scorer: a pure function from a pair snapshot and the current time
//! to a risk assessment. The score starts at 50, each rule that fires adds or
//! subtracts its points and appends one flag, and the final score is clamped
//! to [0, 100]. The qualitative level is derived from the clamped score.

use vstd::prelude::*;

use crate::feed::PairCandidate;
use crate::text::dec_str;

verus! {

/// Liquidity above this (USD cents) counts as sufficient for trading.
pub const LIQ_HIGH_CENTS: u64 = 1_000_000;

/// Liquidity above this (USD cents) still counts as tradable, with slippage.
pub const LIQ_LOW_CENTS: u64 = 100_000;

/// One-hour volume above this (USD cents) counts as active trading.
pub const VOL_ACTIVE_CENTS: u64 = 500_000;

/// A fully-diluted valuation above this (USD cents) is unrealistically high.
pub const FDV_RED_CENTS: u64 = 10_000_000_000;

/// Milliseconds in one hour.
pub const HOUR_MS: u64 = 3_600_000;

/// One named finding of the risk scorer.
pub struct RiskFlag {
    pub name: String,
    pub severity: String,
    pub description: String,
    pub passed: bool,
}

/// A full risk assessment: clamped score, derived level, ordered flags.
pub struct RiskScore {
    pub score: u8,
    pub level: String,
    pub flags: Vec<RiskFlag>,
}

impl Clone for RiskFlag {
    /// An exact copy: every field of the clone equals the original's.
    fn clone(&self) -> (r: Self)
        ensures
            r == *self,
    {
        RiskFlag {
            name: self.name.clone(),
            severity: self.severity.clone(),
            description: self.description.clone(),
            passed: self.passed,
        }
    }
}

/// Two assessments carry the same content: equal score, level, and flags.
pub open spec fn risk_like(a: RiskScore, b: RiskScore) -> bool {
    &&& a.score == b.score
    &&& a.level == b.level
    &&& a.flags@ == b.flags@
}

/// Both absent, or both present with the same content.
pub open spec fn opt_risk_like(a: Option<RiskScore>, b: Option<RiskScore>) -> bool {
    match (a, b) {
        (Option::None, Option::None) => true,
        (Option::Some(x), Option::Some(y)) => risk_like(x, y),
        _ => false,
    }
}

impl Clone for RiskScore {
    /// An exact copy of the assessment's content.
    fn clone(&self) -> (r: Self)
        ensures
            risk_like(r, *self),
    {
        let mut flags: Vec<RiskFlag> = Vec::new();
        let mut i: usize = 0;
        while i < self.flags.len()
            invariant
                i <= self.flags.len(),
                flags@ =~= self.flags@.take(i as int),
            decreases self.flags.len() - i,
        {
            flags.push(self.flags[i].clone());
            i = i + 1;
        }
        proof {
            assert(flags@ =~= self.flags@);
        }
        RiskScore { score: self.score, level: self.level.clone(), flags }
    }
}

/// `a - b`, stopping at zero.
pub open spec fn sat_sub(a: u64, b: u64) -> u64 {
    if a >= b {
        (a - b) as u64
    } else {
        0
    }
}

/// `a + b`, stopping at the largest representable value.
pub open spec fn sat_add(a: u64, b: u64) -> u64 {
    if a + b > u64::MAX {
        u64::MAX
    } else {
        (a + b) as u64
    }
}

/// The pair's age in whole hours at instant `now_ms`; a creation time in the
/// future counts as age zero.
pub open spec fn age_hours(created_ms: u64, now_ms: u64) -> u64 {
    sat_sub(now_ms, created_ms) / HOUR_MS
}

/// The points the liquidity rule contributes.
pub open spec fn liq_points(l: u64) -> int {
    if l > LIQ_HIGH_CENTS {
        15
    } else if l > LIQ_LOW_CENTS {
        5
    } else {
        -20
    }
}

/// The points the one-hour-volume rule contributes.
pub open spec fn vol_points(v: u64) -> int {
    if v > VOL_ACTIVE_CENTS {
        10
    } else if v > 0 {
        0
    } else {
        -15
    }
}

/// The points the one-hour-transaction rule contributes.
pub open spec fn txn_points(buys: u64, sells: u64) -> int {
    if buys + sells > 50 {
        10
    } else if sells == 0 && buys > 5 {
        -25
    } else {
        0
    }
}

/// The points the pair-age rule contributes.
pub open spec fn age_points(created_ms: u64, now_ms: u64) -> int {
    if age_hours(created_ms, now_ms) < 1 {
        -10
    } else if age_hours(created_ms, now_ms) > 6 {
        10
    } else {
        0
    }
}

/// The points the fully-diluted-valuation rule contributes.
pub open spec fn fdv_points(f: u64) -> int {
    if f > FDV_RED_CENTS {
        -15
    } else {
        0
    }
}

/// The additive score before clamping.
pub open spec fn raw_score(p: PairCandidate, now_ms: u64) -> int {
    50 + liq_points(p.liquidity_usd_cents) + vol_points(p.volume_h1_cents) + txn_points(
        p.txns_h1_buys,
        p.txns_h1_sells,
    ) + age_points(p.pair_created_at_ms, now_ms) + fdv_points(p.fdv_cents)
}

/// The final score: the raw score clamped to [0, 100].
pub open spec fn spec_score(p: PairCandidate, now_ms: u64) -> int {
    let s = raw_score(p, now_ms);
    if s < 0 {
        0
    } else if s > 100 {
        100
    } else {
        s
    }
}

/// The qualitative level for a clamped score.
pub open spec fn level_str(score: int) -> Seq<char> {
    if score >= 80 {
        "SAFE"@
    } else if score >= 60 {
        "CAUTION"@
    } else if score >= 30 {
        "DANGER"@
    } else {
        "CRITICAL"@
    }
}

/// What one flag must hold: name, severity, description, whether it passed.
pub open spec fn flag_obeys(f: RiskFlag, t: (Seq<char>, Seq<char>, Seq<char>, bool)) -> bool {
    &&& f.name@ == t.0
    &&& f.severity@ == t.1
    &&& f.description@ == t.2
    &&& f.passed == t.3
}

/// Every flag of `fs`, in order, matches the descriptor at its index in `ts`.
pub open spec fn flags_obey(fs: Seq<RiskFlag>, ts: Seq<(Seq<char>, Seq<char>, Seq<char>, bool)>) -> bool {
    &&& fs.len() == ts.len()
    &&& forall|i: int| 0 <= i < fs.len() ==> flag_obeys(#[trigger] fs[i], ts[i])
}

/// The liquidity rule's flag (always present).
pub open spec fn liq_flag(l: u64) -> (Seq<char>, Seq<char>, Seq<char>, bool) {
    if l > LIQ_HIGH_CENTS {
        (
            "Liquidity"@,
            "info"@,
            "Liquidity $"@ + dec_str((l / 100) as nat) + " - sufficient for trading"@,
            true,
        )
    } else if l > LIQ_LOW_CENTS {
        (
            "Liquidity"@,
            "warning"@,
            "Liquidity $"@ + dec_str((l / 100) as nat) + " - low, high slippage risk"@,
            false,
        )
    } else {
        (
            "Liquidity"@,
            "danger"@,
            "Liquidity $"@ + dec_str((l / 100) as nat) + " - critical, possible honeypot"@,
            false,
        )
    }
}

/// The volume rule's flag (always present).
pub open spec fn vol_flag(v: u64) -> (Seq<char>, Seq<char>, Seq<char>, bool) {
    if v > VOL_ACTIVE_CENTS {
        ("Volume"@, "info"@, "Vol 1h $"@ + dec_str((v / 100) as nat) + " - active trading"@, true)
    } else if v > 0 {
        ("Volume"@, "warning"@, "Vol 1h $"@ + dec_str((v / 100) as nat) + " - low activity"@, false)
    } else {
        ("Volume"@, "danger"@, "No trading volume - possible honeypot"@, false)
    }
}

/// The transaction rule's flags (zero or one). Counts saturate rather than
/// wrap, which cannot change whether the 50-transaction bar is passed.
pub open spec fn txn_flags(buys: u64, sells: u64) -> Seq<(Seq<char>, Seq<char>, Seq<char>, bool)> {
    if buys + sells > 50 {
        seq![
            (
                "Txn Activity"@,
                "info"@,
                dec_str(sat_add(buys, sells) as nat) + " txns 1h, buy ratio "@ + dec_str(
                    ((buys * 100) / sat_add(buys, sells) as int) as nat,
                ) + "%"@,
                true,
            ),
        ]
    } else if sells == 0 && buys > 5 {
        seq![
            (
                "Sell Block"@,
                "danger"@,
                "No sells detected - possible honeypot (can't sell)"@,
                false,
            ),
        ]
    } else {
        Seq::empty()
    }
}

/// The pair-age rule's flags (zero or one).
pub open spec fn age_flags(created_ms: u64, now_ms: u64) -> Seq<
    (Seq<char>, Seq<char>, Seq<char>, bool),
> {
    if age_hours(created_ms, now_ms) < 1 {
        seq![("Pool Age"@, "warning"@, "Pool < 1h old - very new, higher risk"@, false)]
    } else if age_hours(created_ms, now_ms) > 6 {
        seq![
            (
                "Pool Age"@,
                "info"@,
                "Pool "@ + dec_str(age_hours(created_ms, now_ms) as nat)
                    + "h old - survived initial period"@,
                true,
            ),
        ]
    } else {
        Seq::empty()
    }
}

/// The fully-diluted-valuation rule's flags (zero or one).
pub open spec fn fdv_flags(f: u64) -> Seq<(Seq<char>, Seq<char>, Seq<char>, bool)> {
    if f > FDV_RED_CENTS {
        seq![
            (
                "FDV"@,
                "danger"@,
                "FDV $"@ + dec_str((f / 100_000_000) as nat) + "M - unrealistically high"@,
                false,
            ),
        ]
    } else {
        Seq::empty()
    }
}

/// All flags of the assessment, in the fixed rule order.
pub open spec fn spec_flags(p: PairCandidate, now_ms: u64) -> Seq<
    (Seq<char>, Seq<char>, Seq<char>, bool),
> {
    seq![liq_flag(p.liquidity_usd_cents)] + seq![vol_flag(p.volume_h1_cents)] + txn_flags(
        p.txns_h1_buys,
        p.txns_h1_sells,
    ) + age_flags(p.pair_created_at_ms, now_ms) + fdv_flags(p.fdv_cents)
}

fn mk_flag(name: &str, severity: &str, description: String, passed: bool) -> (f: RiskFlag)
    ensures
        f.name@ == name@,
        f.severity@ == severity@,
        f.description@ == description@,
        f.passed == passed,
{
    RiskFlag { name: name.to_owned(), severity: severity.to_owned(), description, passed }
}

fn dollars_desc(prefix: &str, cents: u64, suffix: &str) -> (s: String)
    ensures
        s@ == prefix@ + dec_str((cents / 100) as nat) + suffix@,
{
    let mut s = prefix.to_owned();
    let amount = crate::text::u64_to_dec(cents / 100);
    s.append(amount.as_str());
    s.append(suffix);
    s
}

/// Computes the risk assessment for a pair snapshot at instant `now_ms`.
/// Deterministic: the result is a function of the two arguments alone, and
/// the score is always within [0, 100].
pub fn compute_risk_score(p: &PairCandidate, now_ms: u64) -> (r: RiskScore)
    ensures
        r.score as int == spec_score(*p, now_ms),
        0 <= r.score <= 100,
        r.level@ == level_str(spec_score(*p, now_ms)),
        flags_obey(r.flags@, spec_flags(*p, now_ms)),
{
    let mut flags: Vec<RiskFlag> = Vec::new();
    let mut score: i32 = 50;

    // Liquidity.
    let l = p.liquidity_usd_cents;
    if l > LIQ_HIGH_CENTS {
        score = score + 15;
        flags.push(mk_flag("Liquidity", "info", dollars_desc("Liquidity $", l, " - sufficient for trading"), true));
    } else if l > LIQ_LOW_CENTS {
        score = score + 5;
        flags.push(mk_flag("Liquidity", "warning", dollars_desc("Liquidity $", l, " - low, high slippage risk"), false));
    } else {
        score = score - 20;
        flags.push(mk_flag("Liquidity", "danger", dollars_desc("Liquidity $", l, " - critical, possible honeypot"), false));
    }
    assert(flags_obey(flags@, seq![liq_flag(l)]));
    assert(score == 50 + liq_points(l));

    // One-hour volume.
    let v = p.volume_h1_cents;
    if v > VOL_ACTIVE_CENTS {
        score = score + 10;
        flags.push(mk_flag("Volume", "info", dollars_desc("Vol 1h $", v, " - active trading"), true));
    } else if v > 0 {
        flags.push(mk_flag("Volume", "warning", dollars_desc("Vol 1h $", v, " - low activity"), false));
    } else {
        score = score - 15;
        flags.push(mk_flag("Volume", "danger", "No trading volume - possible honeypot".to_owned(), false));
    }
    assert(flags_obey(flags@, seq![liq_flag(l)] + seq![vol_flag(v)]));
    assert(score == 50 + liq_points(l) + vol_points(v));

    // One-hour transactions.
    let buys = p.txns_h1_buys;
    let sells = p.txns_h1_sells;
    let total = buys.saturating_add(sells);
    if total > 50 {
        score = score + 10;
        let ratio = ((buys as u128) * 100 / (total as u128)) as u64;
        proof {
            assert(buys <= total);
            assert((buys as int) * 100 / (sat_add(buys, sells) as int) <= 100) by {
                assert((buys as int) * 100 <= (total as int) * 100) by (nonlinear_arith)
                    requires
                        buys <= total,
                ;
                assert((total as int) * 100 / (total as int) == 100) by (nonlinear_arith)
                    requires
                        total > 50,
                ;
                assert((buys as int) * 100 / (total as int) <= (total as int) * 100 / (
                total as int)) by (nonlinear_arith)
                    requires
                        (buys as int) * 100 <= (total as int) * 100,
                        total > 50,
                ;
            }
        }
        let mut desc = crate::text::u64_to_dec(total);
        desc.append(" txns 1h, buy ratio ");
        let ratio_s = crate::text::u64_to_dec(ratio);
        desc.append(ratio_s.as_str());
        desc.append("%");
        proof {
            assert(desc@ =~= dec_str(sat_add(buys, sells) as nat) + " txns 1h, buy ratio "@
                + dec_str(((buys * 100) / sat_add(buys, sells) as int) as nat) + "%"@);
        }
        flags.push(mk_flag("Txn Activity", "info", desc, true));
    } else if sells == 0 && buys > 5 {
        score = score - 25;
        flags.push(mk_flag("Sell Block", "danger", "No sells detected - possible honeypot (can't sell)".to_owned(), false));
    }
    assert(flags_obey(flags@, seq![liq_flag(l)] + seq![vol_flag(v)] + txn_flags(buys, sells)));
    assert(score == 50 + liq_points(l) + vol_points(v) + txn_points(buys, sells));

    // Pair age.
    let age_h = now_ms.saturating_sub(p.pair_created_at_ms) / HOUR_MS;
    assert(age_h == age_hours(p.pair_created_at_ms, now_ms));
    if age_h < 1 {
        score = score - 10;
        flags.push(mk_flag("Pool Age", "warning", "Pool < 1h old - very new, higher risk".to_owned(), false));
    } else if age_h > 6 {
        score = score + 10;
        let mut desc: String = "Pool ".to_owned();
        let hours_s = crate::text::u64_to_dec(age_h);
        desc.append(hours_s.as_str());
        desc.append("h old - survived initial period");
        flags.push(mk_flag("Pool Age", "info", desc, true));
    }
    assert(flags_obey(
        flags@,
        seq![liq_flag(l)] + seq![vol_flag(v)] + txn_flags(buys, sells) + age_flags(
            p.pair_created_at_ms,
            now_ms,
        ),
    ));

    // Fully-diluted valuation.
    let f = p.fdv_cents;
    if f > FDV_RED_CENTS {
        score = score - 15;
        let mut desc: String = "FDV $".to_owned();
        let millions_s = crate::text::u64_to_dec(f / 100_000_000);
        desc.append(millions_s.as_str());
        desc.append("M - unrealistically high");
        flags.push(mk_flag("FDV", "danger", desc, false));
    }
    assert(flags_obey(flags@, spec_flags(*p, now_ms)));
    assert(score == raw_score(*p, now_ms));

    // Clamp and map to a level.
    let clamped: u8 = if score < 0 {
        0
    } else if score > 100 {
        100
    } else {
        score as u8
    };
    let level: String = if clamped >= 80 {
        "SAFE".to_owned()
    } else if clamped >= 60 {
        "CAUTION".to_owned()
    } else if clamped >= 30 {
        "DANGER".to_owned()
    } else {
        "CRITICAL".to_owned()
    };
    RiskScore { score: clamped, level, flags }
}

/// Risk scoring is deterministic and pure: identical pair snapshots and
/// instants give the identical score, level, and flag sequence.
pub proof fn lemma_risk_scoring_deterministic(
    p1: PairCandidate,
    p2: PairCandidate,
    now1: u64,
    now2: u64,
)
    requires
        p1 == p2,
        now1 == now2,
    ensures
        spec_score(p1, now1) == spec_score(p2, now2),
        level_str(spec_score(p1, now1)) == level_str(spec_score(p2, now2)),
        spec_flags(p1, now1) == spec_flags(p2, now2),
{
}

/// The final score is always clamped to [0, 100].
pub proof fn lemma_score_clamped(p: PairCandidate, now_ms: u64)
    ensures
        0 <= spec_score(p, now_ms) <= 100,
{
}

/// The level boundaries are exact: 80 is the lowest SAFE score, 60 the
/// lowest CAUTION, 30 the lowest DANGER, and 29 and below are CRITICAL.
pub proof fn lemma_level_boundaries()
    ensures
        level_str(100) == "SAFE"@,
        level_str(80) == "SAFE"@,
        level_str(79) == "CAUTION"@,
        level_str(60) == "CAUTION"@,
        level_str(59) == "DANGER"@,
        level_str(30) == "DANGER"@,
        level_str(29) == "CRITICAL"@,
        level_str(0) == "CRITICAL"@,
{
}

} // verus!
