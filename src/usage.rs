//! Percentages derived from resource counters, and their gauge levels.

use vstd::prelude::*;

verus! {

/// Share of `part` in `total`, on a scale where `total` counts as `scale`,
/// rounded down and capped at `scale`; a zero total counts as no usage.
pub open spec fn share_of(part: nat, total: nat, scale: nat) -> nat {
    if total == 0 {
        0
    } else if part * scale / total > scale {
        scale
    } else {
        part * scale / total
    }
}

fn scaled_share(part: u64, total: u64, scale: u64) -> (r: u64)
    requires
        scale <= 10000,
    ensures
        r == share_of(part as nat, total as nat, scale as nat),
{
    if total == 0 {
        return 0;
    }
    assert((part as u128) * (scale as u128) <= 0xffff_ffff_ffff_ffffu128 * 10000) by (nonlinear_arith)
        requires
            part <= 0xffff_ffff_ffff_ffffu64,
            scale <= 10000,
    ;
    let product: u128 = (part as u128) * (scale as u128);
    let wide: u128 = product / (total as u128);
    if wide > scale as u128 {
        scale
    } else {
        wide as u64
    }
}

/// Whole-number percentage of `used` in `total` (0..=100), as a gauge shows it.
pub fn usage_percent(used: u64, total: u64) -> (r: u16)
    ensures
        r as nat == share_of(used as nat, total as nat, 100),
        r <= 100,
{
    scaled_share(used, total, 100) as u16
}

/// Percentage of `used` in `total` in hundredths of a percent (0..=10000).
pub fn usage_hundredths(used: u64, total: u64) -> (r: u64)
    ensures
        r == share_of(used as nat, total as nat, 10000),
        r <= 10000,
{
    scaled_share(used, total, 10000)
}

/// How loaded a gauge looks, from calm to critical.
#[derive(Clone, Copy, Debug, PartialEq, Eq, Structural)]
pub enum GaugeLevel {
    Calm,
    Moderate,
    Elevated,
    High,
    Critical,
}

pub open spec fn level_of(percent: int) -> GaugeLevel {
    if percent <= 20 {
        GaugeLevel::Calm
    } else if percent <= 40 {
        GaugeLevel::Moderate
    } else if percent <= 60 {
        GaugeLevel::Elevated
    } else if percent <= 80 {
        GaugeLevel::High
    } else {
        GaugeLevel::Critical
    }
}

/// The gauge level of a percentage: up to 20 calm, up to 40 moderate, up to 60
/// elevated, up to 80 high, above that critical.
pub fn calculate_gauge_color(percent: u16) -> (r: GaugeLevel)
    ensures
        r == level_of(percent as int),
{
    if percent <= 20 {
        GaugeLevel::Calm
    } else if percent <= 40 {
        GaugeLevel::Moderate
    } else if percent <= 60 {
        GaugeLevel::Elevated
    } else if percent <= 80 {
        GaugeLevel::High
    } else {
        GaugeLevel::Critical
    }
}

} // verus!
