use vstd::prelude::*;

verus! {

/// The three colours of the usage thresholds.
#[derive(Clone, Copy, Debug, PartialEq, Eq, Structural)]
pub enum UsageColor {
    Green,
    Orange,
    Red,
}

/// Colour of a usage percentage: up to 50 green, 51 to 70 orange, above 70
/// red (a reading above 100 stays red).
pub open spec fn usage_color_of(usage: nat) -> UsageColor {
    if usage <= 50 {
        UsageColor::Green
    } else if usage <= 70 {
        UsageColor::Orange
    } else {
        UsageColor::Red
    }
}

/// Colour of a fill ratio `used / total`: up to 50% green, up to 70%
/// orange, above 70% red (a fill above 100%, or something used of a total of
/// 0, stays red).
pub open spec fn ratio_color_of(used: nat, total: nat) -> UsageColor {
    if 100 * used <= 50 * total {
        UsageColor::Green
    } else if 100 * used <= 70 * total {
        UsageColor::Orange
    } else {
        UsageColor::Red
    }
}

/// The colour of a usage percentage.
pub fn usage_color(usage: u64) -> (r: UsageColor)
    ensures
        r == usage_color_of(usage as nat),
{
    if usage <= 50 {
        UsageColor::Green
    } else if usage <= 70 {
        UsageColor::Orange
    } else {
        UsageColor::Red
    }
}

/// The colour of the fill ratio `used / total`.
pub fn ratio_color(used: u64, total: u64) -> (r: UsageColor)
    ensures
        r == ratio_color_of(used as nat, total as nat),
{
    let u = (used as u128) * 100;
    let t = total as u128;
    if u <= 50 * t {
        UsageColor::Green
    } else if u <= 70 * t {
        UsageColor::Orange
    } else {
        UsageColor::Red
    }
}

} // verus!
