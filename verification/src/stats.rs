//! Per-playout results and batch aggregation.
//!
//! `SimResult` is the append-only record of one playout.  Counters are plain
//! totals; quantities marked "micro" are fixed-point micro-units.

use vstd::prelude::*;
use crate::SCALE;

verus! {

/// Accumulated counters and totals for one completed playout.
#[derive(Clone, Copy, PartialEq, Eq, Structural, Debug)]
pub struct SimResult {
    /// Stage index the playout ended on.
    pub final_stage: u32,
    /// Simulated time at the last drained event, micro-seconds.
    pub elapsed_time: u64,
    pub kills: u64,
    /// Damage dealt to enemies, micro.
    pub damage: u64,
    /// Damage the hunter received after mitigation, micro.
    pub damage_taken: u64,
    /// Loot accumulated over cleared stages, micro.
    pub total_loot: u64,
    pub attacks: u64,
    pub crits: u64,
    /// Damage added by critical strikes over their base hits, micro.
    pub extra_damage_from_crits: u64,
    pub multistrikes: u64,
    /// Damage added by multistrikes, micro.
    pub extra_damage_from_ms: u64,
    pub evades: u64,
    /// Health restored by regeneration ticks, micro.
    pub regenerated_hp: u64,
    /// Health restored by lifesteal, micro.
    pub lifesteal: u64,
    /// Damage absorbed by the hunter's mitigation, micro.
    pub mitigated_damage: u64,
    pub effect_procs: u64,
    /// Stun time inflicted on enemies, micro-seconds.
    pub stun_duration_inflicted: u64,
    /// Health restored by the reactive barrier, micro.
    pub helltouch_barrier: u64,
    pub helltouch_kills: u64,
    pub trample_kills: u64,
    pub medusa_kills: u64,
    pub trickster_evades: u64,
    pub echo_bullets: u64,
    /// Health restored by on-kill advantage procs, micro.
    pub unfair_advantage_healing: u64,
    /// Health restored by on-kill hunt procs, micro.
    pub life_of_the_hunt_healing: u64,
}

impl SimResult {
    /// The all-zero record a playout starts from.
    pub open spec fn zeroed() -> SimResult {
        SimResult {
            final_stage: 0,
            elapsed_time: 0,
            kills: 0,
            damage: 0,
            damage_taken: 0,
            total_loot: 0,
            attacks: 0,
            crits: 0,
            extra_damage_from_crits: 0,
            multistrikes: 0,
            extra_damage_from_ms: 0,
            evades: 0,
            regenerated_hp: 0,
            lifesteal: 0,
            mitigated_damage: 0,
            effect_procs: 0,
            stun_duration_inflicted: 0,
            helltouch_barrier: 0,
            helltouch_kills: 0,
            trample_kills: 0,
            medusa_kills: 0,
            trickster_evades: 0,
            echo_bullets: 0,
            unfair_advantage_healing: 0,
            life_of_the_hunt_healing: 0,
        }
    }
}

impl Default for SimResult {
    fn default() -> (r: SimResult)
        ensures
            r == SimResult::zeroed(),
    {
        SimResult {
            final_stage: 0,
            elapsed_time: 0,
            kills: 0,
            damage: 0,
            damage_taken: 0,
            total_loot: 0,
            attacks: 0,
            crits: 0,
            extra_damage_from_crits: 0,
            multistrikes: 0,
            extra_damage_from_ms: 0,
            evades: 0,
            regenerated_hp: 0,
            lifesteal: 0,
            mitigated_damage: 0,
            effect_procs: 0,
            stun_duration_inflicted: 0,
            helltouch_barrier: 0,
            helltouch_kills: 0,
            trample_kills: 0,
            medusa_kills: 0,
            trickster_evades: 0,
            echo_bullets: 0,
            unfair_advantage_healing: 0,
            life_of_the_hunt_healing: 0,
        }
    }
}

// ---------------------------------------------------------------------------
// Batch aggregation.

/// Clamp a nonnegative mathematical integer into `u64`.
pub open spec fn clamp64(x: int) -> int {
    if x > u64::MAX {
        u64::MAX as int
    } else {
        x
    }
}

/// Sum of final stages.
pub open spec fn sum_stages(s: Seq<SimResult>) -> int
    decreases s.len(),
{
    if s.len() == 0 {
        0
    } else {
        sum_stages(s.drop_last()) + s.last().final_stage
    }
}

/// Sum of elapsed times, micro-seconds.
pub open spec fn sum_time(s: Seq<SimResult>) -> int
    decreases s.len(),
{
    if s.len() == 0 {
        0
    } else {
        sum_time(s.drop_last()) + s.last().elapsed_time
    }
}

/// Sum of loot totals, micro.
pub open spec fn sum_loot(s: Seq<SimResult>) -> int
    decreases s.len(),
{
    if s.len() == 0 {
        0
    } else {
        sum_loot(s.drop_last()) + s.last().total_loot
    }
}

/// Loot per hour of one playout, micro: total loot over elapsed hours,
/// zero for a playout that took no time.
pub open spec fn loot_per_hour(r: SimResult) -> int {
    if r.elapsed_time > 0 {
        clamp64(r.total_loot * 3_600_000_000 / (r.elapsed_time as int))
    } else {
        0
    }
}

/// Sum of per-playout loot rates, micro.
pub open spec fn sum_lph(s: Seq<SimResult>) -> int
    decreases s.len(),
{
    if s.len() == 0 {
        0
    } else {
        sum_lph(s.drop_last()) + loot_per_hour(s.last())
    }
}

/// Sum of damage dealt, micro.
pub open spec fn sum_damage(s: Seq<SimResult>) -> int
    decreases s.len(),
{
    if s.len() == 0 {
        0
    } else {
        sum_damage(s.drop_last()) + s.last().damage
    }
}

/// Sum of damage taken, micro.
pub open spec fn sum_damage_taken(s: Seq<SimResult>) -> int
    decreases s.len(),
{
    if s.len() == 0 {
        0
    } else {
        sum_damage_taken(s.drop_last()) + s.last().damage_taken
    }
}

/// Sum of mitigated damage, micro.
pub open spec fn sum_mitigated(s: Seq<SimResult>) -> int
    decreases s.len(),
{
    if s.len() == 0 {
        0
    } else {
        sum_mitigated(s.drop_last()) + s.last().mitigated_damage
    }
}

/// Sum of lifesteal healing, micro.
pub open spec fn sum_lifesteal(s: Seq<SimResult>) -> int
    decreases s.len(),
{
    if s.len() == 0 {
        0
    } else {
        sum_lifesteal(s.drop_last()) + s.last().lifesteal
    }
}

/// Sum of attack counts.
pub open spec fn sum_attacks(s: Seq<SimResult>) -> int
    decreases s.len(),
{
    if s.len() == 0 {
        0
    } else {
        sum_attacks(s.drop_last()) + s.last().attacks
    }
}

/// Sum of crit counts.
pub open spec fn sum_crits(s: Seq<SimResult>) -> int
    decreases s.len(),
{
    if s.len() == 0 {
        0
    } else {
        sum_crits(s.drop_last()) + s.last().crits
    }
}

/// Sum of kill counts.
pub open spec fn sum_kills(s: Seq<SimResult>) -> int
    decreases s.len(),
{
    if s.len() == 0 {
        0
    } else {
        sum_kills(s.drop_last()) + s.last().kills
    }
}

/// Sum of evade counts.
pub open spec fn sum_evades(s: Seq<SimResult>) -> int
    decreases s.len(),
{
    if s.len() == 0 {
        0
    } else {
        sum_evades(s.drop_last()) + s.last().evades
    }
}

/// Sum of effect-proc counts.
pub open spec fn sum_effect_procs(s: Seq<SimResult>) -> int
    decreases s.len(),
{
    if s.len() == 0 {
        0
    } else {
        sum_effect_procs(s.drop_last()) + s.last().effect_procs
    }
}

/// Sum of inflicted stun durations, micro-seconds.
pub open spec fn sum_stun(s: Seq<SimResult>) -> int
    decreases s.len(),
{
    if s.len() == 0 {
        0
    } else {
        sum_stun(s.drop_last()) + s.last().stun_duration_inflicted
    }
}

/// How many playouts ended on a stage strictly above `t`.
pub open spec fn count_over(s: Seq<SimResult>, t: u32) -> int
    decreases s.len(),
{
    if s.len() == 0 {
        0
    } else {
        count_over(s.drop_last(), t) + (if s.last().final_stage > t {
            1int
        } else {
            0int
        })
    }
}

/// How many playouts ended exactly on a boss stage.
pub open spec fn count_boss_deaths(s: Seq<SimResult>) -> int
    decreases s.len(),
{
    if s.len() == 0 {
        0
    } else {
        count_boss_deaths(s.drop_last()) + (if s.last().final_stage % 100 == 0
            && s.last().final_stage > 0 {
            1int
        } else {
            0int
        })
    }
}

/// Smallest final stage of a nonempty batch.
pub open spec fn stage_min(s: Seq<SimResult>) -> int
    decreases s.len(),
{
    if s.len() <= 1 {
        if s.len() == 0 {
            0
        } else {
            s.last().final_stage as int
        }
    } else if (s.last().final_stage as int) < stage_min(s.drop_last()) {
        s.last().final_stage as int
    } else {
        stage_min(s.drop_last())
    }
}

/// Largest final stage of a nonempty batch.
pub open spec fn stage_max(s: Seq<SimResult>) -> int
    decreases s.len(),
{
    if s.len() <= 1 {
        if s.len() == 0 {
            0
        } else {
            s.last().final_stage as int
        }
    } else if (s.last().final_stage as int) > stage_max(s.drop_last()) {
        s.last().final_stage as int
    } else {
        stage_max(s.drop_last())
    }
}

/// Sum of squared deviations of the scaled stages from `avg` (micro), with
/// the mathematically exact sum clamped into `u128`.
pub open spec fn sum_sq_dev(s: Seq<SimResult>, avg: int) -> int
    decreases s.len(),
{
    if s.len() == 0 {
        0
    } else {
        let d = s.last().final_stage * SCALE - avg;
        let partial = sum_sq_dev(s.drop_last(), avg) + d * d;
        if partial > u128::MAX {
            u128::MAX as int
        } else {
            partial
        }
    }
}

/// Splitting a scaled quotient at the divisor: the whole part scales
/// through, the remainder is scaled and divided on its own.
proof fn lemma_scaled_div(total: int, n: int)
    requires
        n > 0,
        total >= 0,
    ensures
        total * (SCALE as int) / n == (total / n) * (SCALE as int) + (total % n) * (SCALE as int)
            / n,
{
    let s = SCALE as int;
    let q = total / n;
    let rem = total % n;
    vstd::arithmetic::div_mod::lemma_fundamental_div_mod(total, n);
    let r2 = rem * s;
    let q2 = r2 / n;
    let rem2 = r2 % n;
    vstd::arithmetic::div_mod::lemma_fundamental_div_mod(r2, n);
    vstd::arithmetic::div_mod::lemma_mod_division_less_than_divisor(r2, n);
    assert(total * s == n * (q * s + q2) + rem2) by (nonlinear_arith)
        requires
            total == n * q + rem,
            r2 == rem * s,
            r2 == n * q2 + rem2,
    ;
    vstd::arithmetic::div_mod::lemma_div_multiples_vanish_fancy(q * s + q2, rem2, n);
}

/// Mean of micro-valued totals: `total / n`, clamped into `u64`.
fn avg_plain(total: u128, n: u64) -> (r: u64)
    requires
        n > 0,
    ensures
        r as int == clamp64(total as int / n as int),
{
    let q = total / (n as u128);
    if q > u64::MAX as u128 {
        u64::MAX
    } else {
        q as u64
    }
}

/// Mean of counter totals, scaled to micro: `total * SCALE / n`, clamped.
fn avg_scaled(total: u128, n: u64) -> (r: u64)
    requires
        n > 0,
    ensures
        r as int == clamp64(total as int * SCALE / n as int),
{
    let q = total / (n as u128);
    let rem = total % (n as u128);
    proof {
        lemma_scaled_div(total as int, n as int);
        vstd::arithmetic::div_mod::lemma_mod_division_less_than_divisor(
            total as int,
            n as int,
        );
    }
    if q > u64::MAX as u128 {
        proof {
            assert((q as int) * (SCALE as int) >= q as int) by (nonlinear_arith)
                requires
                    q >= 0,
            ;
            assert((rem as int) * (SCALE as int) / (n as int) >= 0);
        }
        u64::MAX
    } else {
        proof {
            assert((q as int) * (SCALE as int) <= 0xFFFF_FFFF_FFFF_FFFFint * 1_000_000int)
                by (nonlinear_arith)
                requires
                    0 <= q <= 0xFFFF_FFFF_FFFF_FFFFu128,
            ;
            assert((rem as int) * (SCALE as int) < 0x1_0000_0000_0000_0000int * 1_000_000int)
                by (nonlinear_arith)
                requires
                    0 <= rem < 0x1_0000_0000_0000_0000u128,
            ;
        }
        let whole = q * (SCALE as u128);
        let part = (rem * (SCALE as u128)) / (n as u128);
        proof {
            vstd::arithmetic::div_mod::lemma_div_nonincreasing(
                (rem as int) * (SCALE as int),
                n as int,
            );
        }
        let val = whole + part;
        if val > u64::MAX as u128 {
            u64::MAX
        } else {
            val as u64
        }
    }
}

/// A share out of `n`, in micro: `count * SCALE / n`, always at most `SCALE`.
fn rate_of(count: u64, n: u64) -> (r: u64)
    requires
        0 < n,
        count <= n,
    ensures
        r as int == count * SCALE / n as int,
        r <= SCALE,
{
    proof {
        vstd::arithmetic::mul::lemma_mul_inequality(count as int, n as int, SCALE as int);
        vstd::arithmetic::div_mod::lemma_div_is_ordered(
            (count as int) * (SCALE as int),
            (n as int) * (SCALE as int),
            n as int,
        );
        vstd::arithmetic::div_mod::lemma_div_multiples_vanish(SCALE as int, n as int);
        assert((n as int) * (SCALE as int) == (SCALE as int) * (n as int))
            by (nonlinear_arith);
    }
    (((count as u128) * (SCALE as u128)) / (n as u128)) as u64
}

/// Integer square root over the full `u128` range.
fn isqrt(v: u128) -> (r: u64)
    ensures
        (r as int) * (r as int) <= v < (r as int + 1) * (r as int + 1),
{
    let mut lo: u128 = 0;
    let mut hi: u128 = 0x1_0000_0000_0000_0000;
    proof {
        assert((0x1_0000_0000_0000_0000int) * (0x1_0000_0000_0000_0000int)
            == 0x1_0000_0000_0000_0000_0000_0000_0000_0000int) by (nonlinear_arith);
    }
    while lo + 1 < hi
        invariant
            lo < hi <= 0x1_0000_0000_0000_0000u128,
            (lo as int) * (lo as int) <= v,
            (v as int) < (hi as int) * (hi as int),
        decreases hi - lo,
    {
        let mid = lo + (hi - lo) / 2;
        proof {
            assert(mid * mid <= u128::MAX) by (nonlinear_arith)
                requires
                    mid < 0x1_0000_0000_0000_0000u128,
            ;
        }
        let sq = mid * mid;
        if sq <= v {
            lo = mid;
        } else {
            hi = mid;
        }
    }
    lo as u64
}

/// The bounds every stage obeys bound the batch's stage total.
proof fn lemma_sum_stage_bounds(s: Seq<SimResult>)
    requires
        s.len() > 0,
    ensures
        s.len() * stage_min(s) <= sum_stages(s) <= s.len() * stage_max(s),
    decreases s.len(),
{
    if s.len() == 1 {
        assert(s.drop_last().len() == 0);
        assert(sum_stages(s.drop_last()) == 0);
        assert(sum_stages(s) == s.last().final_stage as int);
        assert(s.len() * stage_min(s) == stage_min(s)) by (nonlinear_arith)
            requires
                s.len() == 1,
        ;
        assert(s.len() * stage_max(s) == stage_max(s)) by (nonlinear_arith)
            requires
                s.len() == 1,
        ;
    } else {
        let dl = s.drop_last();
        lemma_sum_stage_bounds(dl);
        let m = stage_min(s);
        let mx = stage_max(s);
        assert(m <= stage_min(dl) && m <= s.last().final_stage as int);
        assert(mx >= stage_max(dl) && mx >= s.last().final_stage as int);
        vstd::arithmetic::mul::lemma_mul_inequality(m, stage_min(dl), dl.len() as int);
        vstd::arithmetic::mul::lemma_mul_inequality(stage_max(dl), mx, dl.len() as int);
        assert(s.len() * m == dl.len() * m + m) by (nonlinear_arith)
            requires
                s.len() == dl.len() + 1,
        ;
        assert(s.len() * mx == dl.len() * mx + mx) by (nonlinear_arith)
            requires
                s.len() == dl.len() + 1,
        ;
        assert(dl.len() as int * m == m * dl.len()) by (nonlinear_arith);
        assert(dl.len() as int * mx == mx * dl.len()) by (nonlinear_arith);
        assert(m * dl.len() == dl.len() * m) by (nonlinear_arith);
        assert(stage_min(dl) * dl.len() == dl.len() * stage_min(dl)) by (nonlinear_arith);
        assert(stage_max(dl) * dl.len() == dl.len() * stage_max(dl)) by (nonlinear_arith);
        assert(mx * dl.len() == dl.len() * mx) by (nonlinear_arith);
    }
}

/// Read-only reduction of a batch of playout records: means, spread, and
/// milestone pass-rates.  Fractional fields are fixed-point micro-units.
#[derive(Clone, Copy, PartialEq, Eq, Structural, Debug)]
pub struct AggregatedStats {
    pub runs: u64,
    /// Mean final stage, micro.
    pub avg_stage: u64,
    /// Standard deviation of the final stage, micro.
    pub std_stage: u64,
    pub min_stage: u32,
    pub max_stage: u32,
    /// Mean elapsed time, micro-seconds.
    pub avg_time: u64,
    /// Mean loot, micro.
    pub avg_loot: u64,
    /// Mean loot per simulated hour, micro.
    pub avg_loot_per_hour: u64,
    pub avg_damage: u64,
    pub avg_damage_taken: u64,
    pub avg_mitigated: u64,
    pub avg_lifesteal: u64,
    /// Mean attack count, micro.
    pub avg_attacks: u64,
    pub avg_crits: u64,
    pub avg_kills: u64,
    pub avg_evades: u64,
    pub avg_effect_procs: u64,
    pub avg_stun_duration: u64,
    /// Share of playouts that did not end exactly on a boss stage, micro.
    pub survival_rate: u64,
    /// Share of playouts whose final stage passed each boss checkpoint,
    /// micro.
    pub boss1_survival: u64,
    pub boss2_survival: u64,
    pub boss3_survival: u64,
    pub boss4_survival: u64,
    pub boss5_survival: u64,
}

impl AggregatedStats {
    /// Reduce a batch of playout records to summary statistics.  Every mean
    /// is the floored fixed-point quotient of the field's batch total; the
    /// milestone pass-rates are exactly the fraction of playouts whose final
    /// stage passed each boss checkpoint; and the mean stage always lies
    /// between the extreme stages.
    pub fn from_results(results: &Vec<SimResult>) -> (stats: AggregatedStats)
        ensures
            results@.len() == 0 ==> stats == AggregatedStats::zeroed(),
            results@.len() > 0 ==> {
                let s = results@;
                let n = s.len() as int;
                &&& stats.runs == n
                &&& stats.min_stage as int == stage_min(s)
                &&& stats.max_stage as int == stage_max(s)
                &&& stats.avg_stage as int == clamp64(sum_stages(s) * SCALE / n)
                &&& stage_min(s) * SCALE <= stats.avg_stage as int <= stage_max(s) * SCALE
                &&& stats.avg_time as int == clamp64(sum_time(s) / n)
                &&& stats.avg_loot as int == clamp64(sum_loot(s) / n)
                &&& stats.avg_loot_per_hour as int == clamp64(sum_lph(s) / n)
                &&& stats.avg_damage as int == clamp64(sum_damage(s) / n)
                &&& stats.avg_damage_taken as int == clamp64(sum_damage_taken(s) / n)
                &&& stats.avg_mitigated as int == clamp64(sum_mitigated(s) / n)
                &&& stats.avg_lifesteal as int == clamp64(sum_lifesteal(s) / n)
                &&& stats.avg_attacks as int == clamp64(sum_attacks(s) * SCALE / n)
                &&& stats.avg_crits as int == clamp64(sum_crits(s) * SCALE / n)
                &&& stats.avg_kills as int == clamp64(sum_kills(s) * SCALE / n)
                &&& stats.avg_evades as int == clamp64(sum_evades(s) * SCALE / n)
                &&& stats.avg_effect_procs as int == clamp64(sum_effect_procs(s) * SCALE / n)
                &&& stats.avg_stun_duration as int == clamp64(sum_stun(s) / n)
                &&& stats.survival_rate as int == (n - count_boss_deaths(s)) * SCALE / n
                &&& stats.boss1_survival as int == count_over(s, 100) * SCALE / n
                &&& stats.boss2_survival as int == count_over(s, 200) * SCALE / n
                &&& stats.boss3_survival as int == count_over(s, 300) * SCALE / n
                &&& stats.boss4_survival as int == count_over(s, 400) * SCALE / n
                &&& stats.boss5_survival as int == count_over(s, 500) * SCALE / n
                &&& (stats.std_stage as int) * (stats.std_stage as int) <= sum_sq_dev(
                    s,
                    stats.avg_stage as int,
                ) / n
                &&& sum_sq_dev(s, stats.avg_stage as int) / n < (stats.std_stage as int + 1) * (
                stats.std_stage as int + 1)
            },
    {
        let n = results.len();
        if n == 0 {
            return AggregatedStats {
                runs: 0,
                avg_stage: 0,
                std_stage: 0,
                min_stage: 0,
                max_stage: 0,
                avg_time: 0,
                avg_loot: 0,
                avg_loot_per_hour: 0,
                avg_damage: 0,
                avg_damage_taken: 0,
                avg_mitigated: 0,
                avg_lifesteal: 0,
                avg_attacks: 0,
                avg_crits: 0,
                avg_kills: 0,
                avg_evades: 0,
                avg_effect_procs: 0,
                avg_stun_duration: 0,
                survival_rate: 0,
                boss1_survival: 0,
                boss2_survival: 0,
                boss3_survival: 0,
                boss4_survival: 0,
                boss5_survival: 0,
            };
        }
        let n64 = n as u64;
        let mut s_stage: u128 = 0;
        let mut s_time: u128 = 0;
        let mut s_loot: u128 = 0;
        let mut s_lph: u128 = 0;
        let mut s_damage: u128 = 0;
        let mut s_taken: u128 = 0;
        let mut s_mit: u128 = 0;
        let mut s_steal: u128 = 0;
        let mut s_attacks: u128 = 0;
        let mut s_crits: u128 = 0;
        let mut s_kills: u128 = 0;
        let mut s_evades: u128 = 0;
        let mut s_procs: u128 = 0;
        let mut s_stun: u128 = 0;
        let mut c_boss: u64 = 0;
        let mut c1: u64 = 0;
        let mut c2: u64 = 0;
        let mut c3: u64 = 0;
        let mut c4: u64 = 0;
        let mut c5: u64 = 0;
        let mut mn: u32 = 0;
        let mut mx: u32 = 0;
        let mut i: usize = 0;
        while i < n
            invariant
                n == results@.len(),
                i <= n,
                s_stage as int == sum_stages(results@.subrange(0, i as int)),
                s_time as int == sum_time(results@.subrange(0, i as int)),
                s_loot as int == sum_loot(results@.subrange(0, i as int)),
                s_lph as int == sum_lph(results@.subrange(0, i as int)),
                s_damage as int == sum_damage(results@.subrange(0, i as int)),
                s_taken as int == sum_damage_taken(results@.subrange(0, i as int)),
                s_mit as int == sum_mitigated(results@.subrange(0, i as int)),
                s_steal as int == sum_lifesteal(results@.subrange(0, i as int)),
                s_attacks as int == sum_attacks(results@.subrange(0, i as int)),
                s_crits as int == sum_crits(results@.subrange(0, i as int)),
                s_kills as int == sum_kills(results@.subrange(0, i as int)),
                s_evades as int == sum_evades(results@.subrange(0, i as int)),
                s_procs as int == sum_effect_procs(results@.subrange(0, i as int)),
                s_stun as int == sum_stun(results@.subrange(0, i as int)),
                s_stage as int <= (i as int) * 0xFFFF_FFFF_FFFF_FFFFint,
                s_time as int <= (i as int) * 0xFFFF_FFFF_FFFF_FFFFint,
                s_loot as int <= (i as int) * 0xFFFF_FFFF_FFFF_FFFFint,
                s_lph as int <= (i as int) * 0xFFFF_FFFF_FFFF_FFFFint,
                s_damage as int <= (i as int) * 0xFFFF_FFFF_FFFF_FFFFint,
                s_taken as int <= (i as int) * 0xFFFF_FFFF_FFFF_FFFFint,
                s_mit as int <= (i as int) * 0xFFFF_FFFF_FFFF_FFFFint,
                s_steal as int <= (i as int) * 0xFFFF_FFFF_FFFF_FFFFint,
                s_attacks as int <= (i as int) * 0xFFFF_FFFF_FFFF_FFFFint,
                s_crits as int <= (i as int) * 0xFFFF_FFFF_FFFF_FFFFint,
                s_kills as int <= (i as int) * 0xFFFF_FFFF_FFFF_FFFFint,
                s_evades as int <= (i as int) * 0xFFFF_FFFF_FFFF_FFFFint,
                s_procs as int <= (i as int) * 0xFFFF_FFFF_FFFF_FFFFint,
                s_stun as int <= (i as int) * 0xFFFF_FFFF_FFFF_FFFFint,
                c_boss as int == count_boss_deaths(results@.subrange(0, i as int)),
                c1 as int == count_over(results@.subrange(0, i as int), 100),
                c2 as int == count_over(results@.subrange(0, i as int), 200),
                c3 as int == count_over(results@.subrange(0, i as int), 300),
                c4 as int == count_over(results@.subrange(0, i as int), 400),
                c5 as int == count_over(results@.subrange(0, i as int), 500),
                c_boss <= i && c1 <= i && c2 <= i && c3 <= i && c4 <= i && c5 <= i,
                i > 0 ==> mn as int == stage_min(results@.subrange(0, i as int)),
                i > 0 ==> mx as int == stage_max(results@.subrange(0, i as int)),
            decreases n - i,
        {
            let ghost pre = results@.subrange(0, i as int);
            let ghost post = results@.subrange(0, i as int + 1);
            proof {
                assert(post.drop_last() =~= pre);
                assert(post.last() == results@[i as int]);
                assert((i as int) * 0xFFFF_FFFF_FFFF_FFFFint + 0xFFFF_FFFF_FFFF_FFFFint == (
                i as int + 1) * 0xFFFF_FFFF_FFFF_FFFFint) by (nonlinear_arith);
            }
            let r = results[i];
            let lph: u64 = if r.elapsed_time > 0 {
                proof {
                    assert((r.total_loot as int) * 3_600_000_000int <= u128::MAX)
                        by (nonlinear_arith)
                        requires
                            r.total_loot <= 0xFFFF_FFFF_FFFF_FFFFu64,
                    ;
                }
                let v = (r.total_loot as u128) * 3_600_000_000u128 / (r.elapsed_time as u128);
                if v > u64::MAX as u128 {
                    u64::MAX
                } else {
                    v as u64
                }
            } else {
                0
            };
            s_stage = s_stage + r.final_stage as u128;
            s_time = s_time + r.elapsed_time as u128;
            s_loot = s_loot + r.total_loot as u128;
            s_lph = s_lph + lph as u128;
            s_damage = s_damage + r.damage as u128;
            s_taken = s_taken + r.damage_taken as u128;
            s_mit = s_mit + r.mitigated_damage as u128;
            s_steal = s_steal + r.lifesteal as u128;
            s_attacks = s_attacks + r.attacks as u128;
            s_crits = s_crits + r.crits as u128;
            s_kills = s_kills + r.kills as u128;
            s_evades = s_evades + r.evades as u128;
            s_procs = s_procs + r.effect_procs as u128;
            s_stun = s_stun + r.stun_duration_inflicted as u128;
            if r.final_stage % 100 == 0 && r.final_stage > 0 {
                c_boss = c_boss + 1;
            }
            if r.final_stage > 100 {
                c1 = c1 + 1;
            }
            if r.final_stage > 200 {
                c2 = c2 + 1;
            }
            if r.final_stage > 300 {
                c3 = c3 + 1;
            }
            if r.final_stage > 400 {
                c4 = c4 + 1;
            }
            if r.final_stage > 500 {
                c5 = c5 + 1;
            }
            if i == 0 || r.final_stage < mn {
                mn = r.final_stage;
            }
            if i == 0 || r.final_stage > mx {
                mx = r.final_stage;
            }
            i = i + 1;
        }
        proof {
            assert(results@.subrange(0, n as int) =~= results@);
        }
        let avg_stage = avg_scaled(s_stage, n64);
        proof {
            let s = results@;
            let ni = s.len() as int;
            let sc = SCALE as int;
            let lo = stage_min(s);
            let hi = stage_max(s);
            lemma_sum_stage_bounds(s);
            vstd::arithmetic::mul::lemma_mul_inequality(ni * lo, sum_stages(s), sc);
            vstd::arithmetic::mul::lemma_mul_inequality(sum_stages(s), ni * hi, sc);
            assert((ni * lo) * sc == ni * (lo * sc)) by (nonlinear_arith);
            assert((ni * hi) * sc == ni * (hi * sc)) by (nonlinear_arith);
            vstd::arithmetic::div_mod::lemma_div_multiples_vanish(lo * sc, ni);
            vstd::arithmetic::div_mod::lemma_div_multiples_vanish(hi * sc, ni);
            vstd::arithmetic::div_mod::lemma_div_is_ordered(
                ni * (lo * sc),
                sum_stages(s) * sc,
                ni,
            );
            vstd::arithmetic::div_mod::lemma_div_is_ordered(
                sum_stages(s) * sc,
                ni * (hi * sc),
                ni,
            );
            assert(hi * sc <= 0xFFFF_FFFFint * 1_000_000int) by (nonlinear_arith)
                requires
                    0 <= hi <= 0xFFFF_FFFFint,
                    sc == 1_000_000int,
            ;
        }
        let mut ssq: u128 = 0;
        let mut i: usize = 0;
        while i < n
            invariant
                n == results@.len(),
                i <= n,
                ssq as int == sum_sq_dev(results@.subrange(0, i as int), avg_stage as int),
            decreases n - i,
        {
            let ghost pre = results@.subrange(0, i as int);
            let ghost post = results@.subrange(0, i as int + 1);
            proof {
                assert(post.drop_last() =~= pre);
                assert(post.last() == results@[i as int]);
            }
            let r = results[i];
            proof {
                assert((r.final_stage as int) * (SCALE as int) < 0x1_0000_0000_0000_0000int)
                    by (nonlinear_arith)
                    requires
                        r.final_stage <= 0xFFFF_FFFFu32,
                ;
            }
            let a: u128 = (r.final_stage as u128) * (SCALE as u128);
            let av: u128 = avg_stage as u128;
            let d: u128 = if a >= av {
                a - av
            } else {
                av - a
            };
            proof {
                assert(d * d <= u128::MAX) by (nonlinear_arith)
                    requires
                        d < 0x1_0000_0000_0000_0000u128,
                ;
                assert((d as int) * (d as int) == ((a as int) - (av as int)) * ((a as int) - (
                av as int))) by (nonlinear_arith)
                    requires
                        d == a - av || d == av - a,
                ;
            }
            let d2 = d * d;
            ssq = if ssq > u128::MAX - d2 {
                u128::MAX
            } else {
                ssq + d2
            };
            i = i + 1;
        }
        proof {
            assert(results@.subrange(0, n as int) =~= results@);
        }
        let var = ssq / (n as u128);
        let std_stage = isqrt(var);
        AggregatedStats {
            runs: n64,
            avg_stage,
            std_stage,
            min_stage: mn,
            max_stage: mx,
            avg_time: avg_plain(s_time, n64),
            avg_loot: avg_plain(s_loot, n64),
            avg_loot_per_hour: avg_plain(s_lph, n64),
            avg_damage: avg_plain(s_damage, n64),
            avg_damage_taken: avg_plain(s_taken, n64),
            avg_mitigated: avg_plain(s_mit, n64),
            avg_lifesteal: avg_plain(s_steal, n64),
            avg_attacks: avg_scaled(s_attacks, n64),
            avg_crits: avg_scaled(s_crits, n64),
            avg_kills: avg_scaled(s_kills, n64),
            avg_evades: avg_scaled(s_evades, n64),
            avg_effect_procs: avg_scaled(s_procs, n64),
            avg_stun_duration: avg_plain(s_stun, n64),
            survival_rate: rate_of(n64 - c_boss, n64),
            boss1_survival: rate_of(c1, n64),
            boss2_survival: rate_of(c2, n64),
            boss3_survival: rate_of(c3, n64),
            boss4_survival: rate_of(c4, n64),
            boss5_survival: rate_of(c5, n64),
        }
    }

    /// The all-zero aggregate reported for an empty batch.
    pub open spec fn zeroed() -> AggregatedStats {
        AggregatedStats {
            runs: 0,
            avg_stage: 0,
            std_stage: 0,
            min_stage: 0,
            max_stage: 0,
            avg_time: 0,
            avg_loot: 0,
            avg_loot_per_hour: 0,
            avg_damage: 0,
            avg_damage_taken: 0,
            avg_mitigated: 0,
            avg_lifesteal: 0,
            avg_attacks: 0,
            avg_crits: 0,
            avg_kills: 0,
            avg_evades: 0,
            avg_effect_procs: 0,
            avg_stun_duration: 0,
            survival_rate: 0,
            boss1_survival: 0,
            boss2_survival: 0,
            boss3_survival: 0,
            boss4_survival: 0,
            boss5_survival: 0,
        }
    }
}

} // verus!
