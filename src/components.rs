//! Components that every asset carries. Power is held in milliwatts and
//! energy in milliwatt-hours.

use vstd::prelude::*;
use crate::common::EMeteringDataSource;
use crate::time::Timestamp;

verus! {

/// Stable identity used by every external interface.
pub struct ExternalId(pub String);

/// Descriptive make and model.
pub struct AssetInfo {
    pub make: String,
    pub model: String,
}

/// Last known meter reading.
#[derive(Clone, Copy, Debug, PartialEq, Eq, Structural)]
pub struct CurrentMeterReading {
    pub power_milliwatts: i64,
    pub energy_milliwatt_hours: i64,
    pub timestamp: Timestamp,
}

impl CurrentMeterReading {
    /// A zero reading stamped at the Unix epoch.
    pub fn zero() -> (r: CurrentMeterReading)
        ensures
            r.power_milliwatts == 0,
            r.energy_milliwatt_hours == 0,
            r.timestamp.unix_millis == 0,
    {
        CurrentMeterReading { power_milliwatts: 0, energy_milliwatt_hours: 0, timestamp: Timestamp::epoch() }
    }
}

/// Power the balancer wants the asset at, in milliwatts.
#[derive(Clone, Copy, Debug, PartialEq, Eq, Structural)]
pub struct TargetPowerSetpointKw(pub i64);

/// Power last committed downstream, in milliwatts.
#[derive(Clone, Copy, Debug, PartialEq, Eq, Structural)]
pub struct LastAppliedSetpointKw(pub i64);

/// Protocol details of a metering source.
pub enum MeteringSourceDetails {
    Modbus {
        ip: String,
        port: u16,
        unit_id: u8,
        poll_interval_ms: u32,
        register_map_key: String,
    },
    Ocpp {},
    InternalCalculation {},
}

/// Where an asset's readings come from.
pub struct MeteringSource {
    pub source_type: EMeteringDataSource,
    pub details: Option<MeteringSourceDetails>,
}

} // verus!
