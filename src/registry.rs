//! The asset registry: one record per configured asset, in configuration
//! order, each a set of optional components.

use vstd::prelude::*;
use crate::common::{EAssetType, EOperationalStatus};
use crate::components::{
    ExternalId, AssetInfo, CurrentMeterReading, TargetPowerSetpointKw, LastAppliedSetpointKw,
    MeteringSource,
};
use crate::ocpp_components::{
    OcppConfig, OcppConnectionState, OcppProfileBehavior, ChargerElectricalConfig, Guns, Gun,
    AlfenSpecificConfig, AlfenSpecialInitStatus, GenericChargerInitializationStatus,
};
use crate::text::text_eq;

verus! {

/// Battery-side Modbus endpoint that setpoints are written to.
pub struct ModbusControlConfig {
    pub ip: String,
    pub port: u16,
    pub unit_id: u8,
}

/// One asset record. `target_changed` and `reading_changed` are the change
/// flags of the setpoint and meter-reading components for the current tick.
pub struct Asset {
    pub external_id: ExternalId,
    pub asset_type: EAssetType,
    pub info: Option<AssetInfo>,
    pub status: EOperationalStatus,
    pub reading: CurrentMeterReading,
    pub target: TargetPowerSetpointKw,
    pub last_applied: LastAppliedSetpointKw,
    pub metering_source: Option<MeteringSource>,
    pub ocpp_config: Option<OcppConfig>,
    pub connection: Option<OcppConnectionState>,
    pub profile_behavior: Option<OcppProfileBehavior>,
    pub electrical: Option<ChargerElectricalConfig>,
    pub guns: Option<Guns>,
    pub generic_init: Option<GenericChargerInitializationStatus>,
    pub alfen_config: Option<AlfenSpecificConfig>,
    pub alfen_init: Option<AlfenSpecialInitStatus>,
    pub modbus_control: Option<ModbusControlConfig>,
    pub target_changed: bool,
    pub reading_changed: bool,
}

impl Asset {
    pub open spec fn id(&self) -> Seq<char> {
        self.external_id.0@
    }
}

/// The guns of an asset, empty when it has none.
pub open spec fn guns_of(a: Asset) -> Seq<Gun> {
    match a.guns {
        Some(g) => g.0@,
        None => seq![],
    }
}

/// Largest connector id; profile ids and stack levels derived from it fit
/// their OCPP fields.
pub const MAX_CONNECTOR_ID: u32 = 10_000_000;

/// Every gun's connector id is at most `MAX_CONNECTOR_ID`.
pub open spec fn connectors_bounded(assets: Seq<Asset>) -> bool {
    forall|i: int, j: int| 0 <= i < assets.len() && 0 <= j < guns_of(assets[i]).len()
        ==> (#[trigger] guns_of(assets[i])[j]).connector_id <= MAX_CONNECTOR_ID
}

/// No two assets share an external id.
pub open spec fn ids_unique(assets: Seq<Asset>) -> bool {
    forall|i: int, j: int| 0 <= i < assets.len() && 0 <= j < assets.len() && i != j
        ==> #[trigger] assets[i].id() != #[trigger] assets[j].id()
}

/// Whether some asset carries the external id.
pub open spec fn has_id(assets: Seq<Asset>, id: Seq<char>) -> bool {
    exists|i: int| 0 <= i < assets.len() && #[trigger] assets[i].id() == id
}

/// The asset registry.
pub struct AssetRegistry {
    pub assets: Vec<Asset>,
}

impl AssetRegistry {
    pub open spec fn wf(&self) -> bool {
        ids_unique(self.assets@)
    }

    /// An empty registry.
    pub fn new() -> (r: AssetRegistry)
        ensures
            r.assets@.len() == 0,
            r.wf(),
    {
        AssetRegistry { assets: Vec::new() }
    }

    /// Index of the asset with the given external id.
    pub fn by_id(&self, id: &str) -> (r: Option<usize>)
        requires
            self.wf(),
        ensures
            r is Some ==> r->0 < self.assets@.len() && self.assets@[r->0 as int].id() == id@,
            r is None <==> !has_id(self.assets@, id@),
    {
        let mut i: usize = 0;
        while i < self.assets.len()
            invariant
                i <= self.assets@.len(),
                forall|k: int| 0 <= k < i ==> #[trigger] self.assets@[k].id() != id@,
            decreases self.assets@.len() - i,
        {
            if text_eq(self.assets[i].external_id.0.as_str(), id) {
                assert(self.assets@[i as int].id() == id@);
                return Some(i);
            }
            i = i + 1;
        }
        None
    }

    /// Number of assets.
    pub fn len(&self) -> (r: usize)
        ensures
            r == self.assets@.len(),
    {
        self.assets.len()
    }
}

} // verus!
