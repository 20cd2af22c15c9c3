//! The level policy: the pure mapping from a power level and the
//! hardware-reported frequency bounds to the targets written to the
//! frequency-scaling control surface.

use vstd::prelude::*;
use crate::level::PowerLevel;

verus! {

/// Frequency bounds reported by the hardware, in the unit the control
/// surface uses.  They are taken verbatim from the read-only control points
/// and are not validated here.
#[derive(Clone, Copy, Debug, PartialEq, Eq, Structural)]
pub struct HwBounds {
    /// Lowest supported frequency (`cpuinfo_min_freq`).
    pub min: u64,
    /// Base (non-turbo) frequency (`base_frequency`).
    pub base: u64,
    /// Highest supported frequency (`cpuinfo_max_freq`).
    pub max: u64,
}

/// The energy-performance preference a level selects.
#[derive(Clone, Copy, Debug, PartialEq, Eq, Structural)]
pub enum EnergyPref {
    /// Written as `balance_power`.
    BalancePower,
    /// Written as `performance`.
    Performance,
}

/// The textual form of an energy-performance preference.
pub open spec fn spec_pref_name(p: EnergyPref) -> Seq<char> {
    match p {
        EnergyPref::BalancePower => "balance_power"@,
        EnergyPref::Performance => "performance"@,
    }
}

impl EnergyPref {
    /// The text written to the preference control point.
    pub fn name(self) -> (s: &'static str)
        ensures
            s@ == spec_pref_name(self),
    {
        match self {
            EnergyPref::BalancePower => "balance_power",
            EnergyPref::Performance => "performance",
        }
    }
}

/// The targets a power level resolves to: the scaling bounds, whether turbo
/// is disabled, and the energy-performance preference.
#[derive(Clone, Copy, Debug, PartialEq, Eq, Structural)]
pub struct LevelProfile {
    /// Target for `scaling_min_freq`.
    pub min_freq: u64,
    /// Target for `scaling_max_freq`.
    pub max_freq: u64,
    /// Target for `no_turbo`: `true` writes `1`, `false` writes `0`.
    pub turbo_disabled: bool,
    /// Target for `energy_performance_preference`.
    pub energy_pref: EnergyPref,
}

/// The fixed policy table.
pub open spec fn spec_profile_for(l: PowerLevel, b: HwBounds) -> LevelProfile {
    match l {
        PowerLevel::Fix => LevelProfile {
            min_freq: b.base,
            max_freq: b.base,
            turbo_disabled: true,
            energy_pref: EnergyPref::BalancePower,
        },
        PowerLevel::Min => LevelProfile {
            min_freq: b.min,
            max_freq: b.min,
            turbo_disabled: true,
            energy_pref: EnergyPref::BalancePower,
        },
        PowerLevel::Mid => LevelProfile {
            min_freq: b.min,
            max_freq: b.base,
            turbo_disabled: true,
            energy_pref: EnergyPref::BalancePower,
        },
        PowerLevel::Max => LevelProfile {
            min_freq: b.min,
            max_freq: b.max,
            turbo_disabled: false,
            energy_pref: EnergyPref::BalancePower,
        },
        PowerLevel::MaxPlus => LevelProfile {
            min_freq: b.min,
            max_freq: b.max,
            turbo_disabled: false,
            energy_pref: EnergyPref::Performance,
        },
    }
}

/// Resolve a power level against the hardware bounds, per the fixed table.
pub fn profile_for(l: PowerLevel, b: HwBounds) -> (p: LevelProfile)
    ensures
        p == spec_profile_for(l, b),
{
    match l {
        PowerLevel::Fix => LevelProfile {
            min_freq: b.base,
            max_freq: b.base,
            turbo_disabled: true,
            energy_pref: EnergyPref::BalancePower,
        },
        PowerLevel::Min => LevelProfile {
            min_freq: b.min,
            max_freq: b.min,
            turbo_disabled: true,
            energy_pref: EnergyPref::BalancePower,
        },
        PowerLevel::Mid => LevelProfile {
            min_freq: b.min,
            max_freq: b.base,
            turbo_disabled: true,
            energy_pref: EnergyPref::BalancePower,
        },
        PowerLevel::Max => LevelProfile {
            min_freq: b.min,
            max_freq: b.max,
            turbo_disabled: false,
            energy_pref: EnergyPref::BalancePower,
        },
        PowerLevel::MaxPlus => LevelProfile {
            min_freq: b.min,
            max_freq: b.max,
            turbo_disabled: false,
            energy_pref: EnergyPref::Performance,
        },
    }
}

/// Whenever the hardware bounds are ordered (`min <= base <= max`), every
/// level's profile keeps its scaling bounds ordered: the resolved
/// `min_freq` never exceeds the resolved `max_freq`.
pub proof fn lemma_profile_bounds_ordered(l: PowerLevel, b: HwBounds)
    requires
        b.min <= b.base,
        b.base <= b.max,
    ensures
        spec_profile_for(l, b).min_freq <= spec_profile_for(l, b).max_freq,
{
}

} // verus!
