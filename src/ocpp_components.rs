//! Components carried by OCPP chargers.

use vstd::prelude::*;
use crate::ocpp_types::{EOcppVersion, EChargingRateUnit};
use crate::time::Timestamp;

verus! {

/// Protocol identity of a charger; `charge_point_id` equals its external id.
pub struct OcppConfig {
    pub charge_point_id: String,
    pub version: EOcppVersion,
}

/// Connection lifecycle of a charger.
#[derive(Clone, Copy, Debug, PartialEq, Eq, Structural)]
pub struct OcppConnectionState {
    pub is_connected: bool,
    pub last_heartbeat_rcvd: Option<Timestamp>,
    pub ocpp_message_id_counter: u32,
}

impl OcppConnectionState {
    /// A charger that has not connected yet.
    pub fn disconnected() -> (r: OcppConnectionState)
        ensures
            !r.is_connected,
            r.last_heartbeat_rcvd is None,
            r.ocpp_message_id_counter == 0,
    {
        OcppConnectionState { is_connected: false, last_heartbeat_rcvd: None, ocpp_message_id_counter: 0 }
    }
}

/// How a charger wants its charging profiles expressed.
#[derive(Clone, Copy, Debug, PartialEq, Eq, Structural)]
pub struct OcppProfileBehavior {
    pub rate_unit: EChargingRateUnit,
    pub profile_phases_in_ocpp_message: u8,
}

/// Electrical data needed to turn power into current.
#[derive(Clone, Copy, Debug, PartialEq, Eq, Structural)]
pub struct ChargerElectricalConfig {
    /// Line-to-neutral voltage in millivolts.
    pub nominal_voltage_ln_millivolts: u32,
    pub active_phase_count: u8,
}

/// Connector status as OCPP reports it.
#[derive(Clone, Copy, Debug, PartialEq, Eq, Structural)]
pub enum EGunStatusOcpp {
    Available,
    Preparing,
    Charging,
    SuspendedEV,
    SuspendedEVSE,
    Finishing,
    Reserved,
    Unavailable,
    Faulted,
}

/// One connector of a charger.
#[derive(Clone, Copy, Debug, PartialEq, Eq, Structural)]
pub struct Gun {
    pub gun_id: u32,
    pub connector_id: u32,
    pub status: EGunStatusOcpp,
}

/// The ordered connectors of a charger.
pub struct Guns(pub Vec<Gun>);

/// Vendor data of Alfen chargers.
#[derive(Clone, Copy, Debug, PartialEq, Eq, Structural)]
pub struct AlfenSpecificConfig {
    /// Power of the default transaction profile, in milliwatts.
    pub default_tx_profile_power_milliwatts: i64,
}

#[derive(Clone, Copy, Debug, PartialEq, Eq, Structural)]
pub enum AlfenSpecialInitState {
    Pending,
    InProgress,
    Complete,
}

/// Progress of the vendor-specific initialization.
#[derive(Clone, Copy, Debug, PartialEq, Eq, Structural)]
pub struct AlfenSpecialInitStatus(pub AlfenSpecialInitState);

#[derive(Clone, Copy, Debug, PartialEq, Eq, Structural)]
pub enum GenericChargerInitProgress {
    Pending,
    Complete,
}

/// Progress of the generic initialization.
#[derive(Clone, Copy, Debug, PartialEq, Eq, Structural)]
pub struct GenericChargerInitializationStatus(pub GenericChargerInitProgress);

} // verus!
