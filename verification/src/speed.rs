//! The speed resolver: a total, ordinal mapping from urgency levels to
//! percentiles of the network's historical priority-fee distribution.

use vstd::prelude::*;

verus! {

/// A caller-chosen urgency level, ranked from least to most urgent.
#[derive(Clone, Copy, Debug, PartialEq, Eq, Structural)]
pub enum GasFeeSpeed {
    Slow,
    Medium,
    Fast,
    Fastest,
}

/// The fixed percentile of the priority-fee distribution for each level.
pub open spec fn percentile_of(speed: GasFeeSpeed) -> u64 {
    match speed {
        GasFeeSpeed::Slow => 25,
        GasFeeSpeed::Medium => 50,
        GasFeeSpeed::Fast => 75,
        GasFeeSpeed::Fastest => 90,
    }
}

/// The ordinal rank of a level, least urgent first.
pub open spec fn urgency_of(speed: GasFeeSpeed) -> u64 {
    match speed {
        GasFeeSpeed::Slow => 0,
        GasFeeSpeed::Medium => 1,
        GasFeeSpeed::Fast => 2,
        GasFeeSpeed::Fastest => 3,
    }
}

/// The level whose ordinal rank is `level`, for ranks 0 through 3.
pub open spec fn speed_of_level(level: u8) -> GasFeeSpeed {
    if level == 0 {
        GasFeeSpeed::Slow
    } else if level == 1 {
        GasFeeSpeed::Medium
    } else if level == 2 {
        GasFeeSpeed::Fast
    } else {
        GasFeeSpeed::Fastest
    }
}

/// Resolves an urgency level to its fee percentile.
pub fn resolve_percentile(speed: &GasFeeSpeed) -> (p: u64)
    ensures
        p == percentile_of(*speed),
{
    match speed {
        GasFeeSpeed::Slow => 25,
        GasFeeSpeed::Medium => 50,
        GasFeeSpeed::Fast => 75,
        GasFeeSpeed::Fastest => 90,
    }
}

/// Recovers a level from its numeric rank, as a wire format hands it over;
/// a rank outside the enumeration is rejected.
pub fn speed_from_level(level: u8) -> (r: Option<GasFeeSpeed>)
    ensures
        level <= 3 ==> r == Some(speed_of_level(level)),
        level > 3 ==> r is None,
{
    if level == 0 {
        Some(GasFeeSpeed::Slow)
    } else if level == 1 {
        Some(GasFeeSpeed::Medium)
    } else if level == 2 {
        Some(GasFeeSpeed::Fast)
    } else if level == 3 {
        Some(GasFeeSpeed::Fastest)
    } else {
        None
    }
}

/// The speed-to-percentile mapping is total over the enumeration, stays
/// within the percentile range, and is ordinal: a more urgent level never
/// resolves to a lower percentile.
pub proof fn lemma_percentile_total_and_ordinal(a: GasFeeSpeed, b: GasFeeSpeed)
    ensures
        0 <= percentile_of(a) <= 100,
        urgency_of(a) <= urgency_of(b) ==> percentile_of(a) <= percentile_of(b),
{
}

} // verus!
