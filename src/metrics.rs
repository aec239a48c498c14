use vstd::prelude::*;

verus! {

/// Growth stage of a parcel's tracked asset.
#[derive(Clone, Copy, Debug, PartialEq, Eq, Structural)]
pub enum HealthStatus {
    Germinating,
    Sprouted,
    ReadyForTransplant,
    Planted,
}

/// The health status that a numeric code stands for, if any.
pub open spec fn health_of_code(code: u32) -> Option<HealthStatus> {
    if code == 0 {
        Some(HealthStatus::Germinating)
    } else if code == 1 {
        Some(HealthStatus::Sprouted)
    } else if code == 2 {
        Some(HealthStatus::ReadyForTransplant)
    } else if code == 3 {
        Some(HealthStatus::Planted)
    } else {
        None
    }
}

impl HealthStatus {
    /// Decodes a numeric health code; only `0..=3` name a status.
    pub fn from_code(code: u32) -> (r: Option<HealthStatus>)
        ensures
            r == health_of_code(code),
            r.is_some() <==> code <= 3,
    {
        match code {
            0 => Some(HealthStatus::Germinating),
            1 => Some(HealthStatus::Sprouted),
            2 => Some(HealthStatus::ReadyForTransplant),
            3 => Some(HealthStatus::Planted),
            _ => None,
        }
    }
}

} // verus!

verus! {

/// Measurements of one asset, as the oracle stores them.
#[derive(Clone, Copy, Debug, PartialEq, Eq, Structural)]
pub struct ImpactMetrics {
    /// Biomass in grams.
    pub biomass: i128,
    /// Captured CO2 in milligrams.
    pub co2_captured: i128,
    pub health: HealthStatus,
}

} // verus!
