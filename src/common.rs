//! Coarse asset classification shared by every component.

use vstd::prelude::*;
use crate::text::text_eq;

verus! {

/// What kind of device an asset is.
#[derive(Clone, Copy, Debug, PartialEq, Eq, Hash, Structural)]
pub enum EAssetType {
    Charger,
    Battery,
    GridConnection,
    SolarPV,
}

/// Coarse health of an asset.
#[derive(Clone, Copy, Debug, PartialEq, Eq, Hash, Structural)]
pub enum EOperationalStatus {
    Initializing,
    Online,
    Offline,
    Faulted,
}

/// Where an asset's meter readings come from.
#[derive(Clone, Copy, Debug, PartialEq, Eq, Hash, Structural)]
pub enum EMeteringDataSource {
    Ocpp,
    Modbus,
    InternalCalculation,
}

/// The metering source a configuration name denotes, if any.
pub open spec fn metering_source_named(s: Seq<char>) -> Option<EMeteringDataSource> {
    if s == "Ocpp"@ {
        Some(EMeteringDataSource::Ocpp)
    } else if s == "Modbus"@ {
        Some(EMeteringDataSource::Modbus)
    } else if s == "InternalCalculation"@ {
        Some(EMeteringDataSource::InternalCalculation)
    } else {
        None
    }
}

impl EMeteringDataSource {
    /// Parses the configuration name of a metering source.
    pub fn from_str(s: &str) -> (r: Result<EMeteringDataSource, ()>)
        ensures
            r is Ok <==> metering_source_named(s@) is Some,
            r is Ok ==> r->Ok_0 == metering_source_named(s@)->0,
    {
        if text_eq(s, "Ocpp") {
            Ok(EMeteringDataSource::Ocpp)
        } else if text_eq(s, "Modbus") {
            Ok(EMeteringDataSource::Modbus)
        } else if text_eq(s, "InternalCalculation") {
            Ok(EMeteringDataSource::InternalCalculation)
        } else {
            Err(())
        }
    }
}

} // verus!
