//! Severity classification and color policy.
//!
//! Each metric family maps through one pure classifier to a severity tier,
//! and each tier maps to exactly one display color; this module is the only
//! place that policy lives. Thresholds for fractional readings are in tenths
//! (deci-degrees, deci-watts); gauge ratios are in basis points, a fixed
//! scale of ten thousand standing for a fill of 1.0.

use vstd::prelude::*;

verus! {

/// Severity of a reading relative to its family's thresholds. `Unknown`
/// applies exactly when the reading is absent.
#[derive(Clone, Copy, Debug, PartialEq, Eq, Structural)]
pub enum Tier {
    Unknown,
    Normal,
    Warning,
    Critical,
}

/// The display color attached to each severity tier.
#[derive(Clone, Copy, Debug, PartialEq, Eq, Structural)]
pub enum ColorName {
    Red,
    Yellow,
    Green,
    DarkGray,
}

/// A gauge fill of 1.0, in basis points.
pub const RATIO_SCALE: u32 = 10000;

/// General-temperature thresholds, in tenths of a degree Celsius.
pub const TEMP_WARN_DC: i32 = 800;

pub const TEMP_CRIT_DC: i32 = 900;

/// Junction/hotspot-temperature thresholds, in tenths of a degree Celsius.
pub const JUNCTION_WARN_DC: i32 = 950;

pub const JUNCTION_CRIT_DC: i32 = 1050;

/// Memory-temperature thresholds, in tenths of a degree Celsius.
pub const MEM_TEMP_WARN_DC: i32 = 850;

pub const MEM_TEMP_CRIT_DC: i32 = 950;

/// Power-draw thresholds, in tenths of a watt.
pub const POWER_WARN_DW: u32 = 2200;

pub const POWER_CRIT_DW: u32 = 3000;

/// Gauge-ratio thresholds, in basis points.
pub const GAUGE_WARN_BP: u32 = 7500;

pub const GAUGE_CRIT_BP: u32 = 9000;

/// The tier of a present reading against a warning and a critical threshold.
pub open spec fn threshold_tier(v: int, warn: int, crit: int) -> Tier {
    if v >= crit {
        Tier::Critical
    } else if v >= warn {
        Tier::Warning
    } else {
        Tier::Normal
    }
}

/// General-temperature classifier.
pub open spec fn temp_tier_spec(v: Option<i32>) -> Tier {
    match v {
        Option::Some(t) => threshold_tier(t as int, TEMP_WARN_DC as int, TEMP_CRIT_DC as int),
        Option::None => Tier::Unknown,
    }
}

/// Junction-temperature classifier.
pub open spec fn junction_tier_spec(v: Option<i32>) -> Tier {
    match v {
        Option::Some(t) => threshold_tier(
            t as int,
            JUNCTION_WARN_DC as int,
            JUNCTION_CRIT_DC as int,
        ),
        Option::None => Tier::Unknown,
    }
}

/// Memory-temperature classifier.
pub open spec fn mem_temp_tier_spec(v: Option<i32>) -> Tier {
    match v {
        Option::Some(t) => threshold_tier(
            t as int,
            MEM_TEMP_WARN_DC as int,
            MEM_TEMP_CRIT_DC as int,
        ),
        Option::None => Tier::Unknown,
    }
}

/// Power-draw classifier.
pub open spec fn power_tier_spec(v: Option<u32>) -> Tier {
    match v {
        Option::Some(p) => threshold_tier(p as int, POWER_WARN_DW as int, POWER_CRIT_DW as int),
        Option::None => Tier::Unknown,
    }
}

/// Shared gauge-ratio classifier; a ratio is always present, so `Unknown`
/// never arises here.
pub open spec fn gauge_tier_spec(ratio_bp: u32) -> Tier {
    threshold_tier(ratio_bp as int, GAUGE_WARN_BP as int, GAUGE_CRIT_BP as int)
}

/// The color for each tier: the single place display-color policy lives.
pub open spec fn tier_color_spec(t: Tier) -> ColorName {
    match t {
        Tier::Critical => ColorName::Red,
        Tier::Warning => ColorName::Yellow,
        Tier::Normal => ColorName::Green,
        Tier::Unknown => ColorName::DarkGray,
    }
}

/// The VRAM gauge fill in basis points: `used/total` clamped into the unit
/// interval when both halves are present and `total` is positive, else zero.
pub open spec fn vram_ratio_spec(used: Option<u32>, total: Option<u32>) -> int {
    match (used, total) {
        (Option::Some(u), Option::Some(t)) => if t > 0 {
            if (u as int) * (RATIO_SCALE as int) / (t as int) > RATIO_SCALE as int {
                RATIO_SCALE as int
            } else {
                (u as int) * (RATIO_SCALE as int) / (t as int)
            }
        } else {
            0
        },
        _ => 0,
    }
}

/// The utilization gauge fill in basis points: the percentage (in tenths)
/// clamped to one hundred percent, else zero when absent.
pub open spec fn pct_ratio_spec(pct: Option<u32>) -> int {
    match pct {
        Option::Some(p) => if p > 1000 {
            RATIO_SCALE as int
        } else {
            (p as int) * 10
        },
        Option::None => 0,
    }
}

pub fn temp_tier(v: &Option<i32>) -> (r: Tier)
    ensures
        r == temp_tier_spec(*v),
{
    match v {
        Option::Some(t) => {
            if *t >= TEMP_CRIT_DC {
                Tier::Critical
            } else if *t >= TEMP_WARN_DC {
                Tier::Warning
            } else {
                Tier::Normal
            }
        },
        Option::None => Tier::Unknown,
    }
}

pub fn junction_tier(v: &Option<i32>) -> (r: Tier)
    ensures
        r == junction_tier_spec(*v),
{
    match v {
        Option::Some(t) => {
            if *t >= JUNCTION_CRIT_DC {
                Tier::Critical
            } else if *t >= JUNCTION_WARN_DC {
                Tier::Warning
            } else {
                Tier::Normal
            }
        },
        Option::None => Tier::Unknown,
    }
}

pub fn mem_temp_tier(v: &Option<i32>) -> (r: Tier)
    ensures
        r == mem_temp_tier_spec(*v),
{
    match v {
        Option::Some(t) => {
            if *t >= MEM_TEMP_CRIT_DC {
                Tier::Critical
            } else if *t >= MEM_TEMP_WARN_DC {
                Tier::Warning
            } else {
                Tier::Normal
            }
        },
        Option::None => Tier::Unknown,
    }
}

pub fn power_tier(v: &Option<u32>) -> (r: Tier)
    ensures
        r == power_tier_spec(*v),
{
    match v {
        Option::Some(p) => {
            if *p >= POWER_CRIT_DW {
                Tier::Critical
            } else if *p >= POWER_WARN_DW {
                Tier::Warning
            } else {
                Tier::Normal
            }
        },
        Option::None => Tier::Unknown,
    }
}

pub fn gauge_tier(ratio_bp: u32) -> (r: Tier)
    ensures
        r == gauge_tier_spec(ratio_bp),
{
    if ratio_bp >= GAUGE_CRIT_BP {
        Tier::Critical
    } else if ratio_bp >= GAUGE_WARN_BP {
        Tier::Warning
    } else {
        Tier::Normal
    }
}

pub fn tier_color(t: Tier) -> (c: ColorName)
    ensures
        c == tier_color_spec(t),
{
    match t {
        Tier::Critical => ColorName::Red,
        Tier::Warning => ColorName::Yellow,
        Tier::Normal => ColorName::Green,
        Tier::Unknown => ColorName::DarkGray,
    }
}

/// The VRAM gauge fill in basis points.
pub fn vram_ratio(used: Option<u32>, total: Option<u32>) -> (r: u32)
    ensures
        r as int == vram_ratio_spec(used, total),
        r <= RATIO_SCALE,
{
    match (used, total) {
        (Option::Some(u), Option::Some(t)) => {
            if t > 0 {
                let q: u64 = (u as u64) * (RATIO_SCALE as u64) / (t as u64);
                if q > RATIO_SCALE as u64 {
                    RATIO_SCALE
                } else {
                    q as u32
                }
            } else {
                0
            }
        },
        _ => 0,
    }
}

/// The utilization gauge fill in basis points, from a percentage in tenths.
pub fn pct_ratio(pct: Option<u32>) -> (r: u32)
    ensures
        r as int == pct_ratio_spec(pct),
        r <= RATIO_SCALE,
{
    match pct {
        Option::Some(p) => {
            if p > 1000 {
                RATIO_SCALE
            } else {
                p * 10
            }
        },
        Option::None => 0,
    }
}

/// How severe a tier is, for stating that classifiers are monotonic.
pub open spec fn tier_rank(t: Tier) -> int {
    match t {
        Tier::Unknown => 0,
        Tier::Normal => 0,
        Tier::Warning => 1,
        Tier::Critical => 2,
    }
}

/// The general-temperature classifier is monotonic in its reading and is
/// `Unknown` exactly on an absent reading.
pub proof fn lemma_temp_tier_classifier(t1: i32, t2: i32)
    requires
        t1 <= t2,
    ensures
        tier_rank(temp_tier_spec(Option::Some(t1))) <= tier_rank(temp_tier_spec(Option::Some(t2))),
        temp_tier_spec(Option::<i32>::None) == Tier::Unknown,
        temp_tier_spec(Option::Some(t1)) != Tier::Unknown,
{
}

/// The junction-temperature classifier is monotonic in its reading and is
/// `Unknown` exactly on an absent reading.
pub proof fn lemma_junction_tier_classifier(t1: i32, t2: i32)
    requires
        t1 <= t2,
    ensures
        tier_rank(junction_tier_spec(Option::Some(t1))) <= tier_rank(
            junction_tier_spec(Option::Some(t2)),
        ),
        junction_tier_spec(Option::<i32>::None) == Tier::Unknown,
        junction_tier_spec(Option::Some(t1)) != Tier::Unknown,
{
}

/// The memory-temperature classifier is monotonic in its reading and is
/// `Unknown` exactly on an absent reading.
pub proof fn lemma_mem_temp_tier_classifier(t1: i32, t2: i32)
    requires
        t1 <= t2,
    ensures
        tier_rank(mem_temp_tier_spec(Option::Some(t1))) <= tier_rank(
            mem_temp_tier_spec(Option::Some(t2)),
        ),
        mem_temp_tier_spec(Option::<i32>::None) == Tier::Unknown,
        mem_temp_tier_spec(Option::Some(t1)) != Tier::Unknown,
{
}

/// The power-draw classifier is monotonic in its reading and is `Unknown`
/// exactly on an absent reading.
pub proof fn lemma_power_tier_classifier(p1: u32, p2: u32)
    requires
        p1 <= p2,
    ensures
        tier_rank(power_tier_spec(Option::Some(p1))) <= tier_rank(
            power_tier_spec(Option::Some(p2)),
        ),
        power_tier_spec(Option::<u32>::None) == Tier::Unknown,
        power_tier_spec(Option::Some(p1)) != Tier::Unknown,
{
}

/// The shared gauge classifier is monotonic in its ratio and never `Unknown`.
pub proof fn lemma_gauge_tier_classifier(r1: u32, r2: u32)
    requires
        r1 <= r2,
    ensures
        tier_rank(gauge_tier_spec(r1)) <= tier_rank(gauge_tier_spec(r2)),
        gauge_tier_spec(r1) != Tier::Unknown,
{
}

/// The VRAM gauge fill always lies in the unit interval, and is zero when
/// either half is absent or the total is zero.
pub proof fn lemma_vram_ratio_in_unit(used: Option<u32>, total: Option<u32>)
    ensures
        0 <= vram_ratio_spec(used, total) <= RATIO_SCALE as int,
        (used is None || total is None || total == Option::Some(0u32)) ==> vram_ratio_spec(
            used,
            total,
        ) == 0,
{
    match (used, total) {
        (Option::Some(u), Option::Some(t)) => {
            if t > 0 {
                assert((u as int) * (RATIO_SCALE as int) >= 0) by (nonlinear_arith);
                assert((u as int) * (RATIO_SCALE as int) / (t as int) >= 0) by (nonlinear_arith)
                    requires
                        (u as int) * (RATIO_SCALE as int) >= 0,
                        t > 0,
                ;
            }
        },
        _ => {},
    }
}

/// The utilization gauge fill always lies in the unit interval, and is zero
/// when the percentage is absent.
pub proof fn lemma_pct_ratio_in_unit(pct: Option<u32>)
    ensures
        0 <= pct_ratio_spec(pct) <= RATIO_SCALE as int,
        pct is None ==> pct_ratio_spec(pct) == 0,
{
}

} // verus!
