//! OCPP 1.6J payloads, field for field. Rates and limits are fixed-point
//! numbers in thousandths of the schedule's unit (milliamps or milliwatts).

use vstd::prelude::*;
use crate::text::text_eq;

verus! {

/// Protocol versions a charger can speak.
#[derive(Clone, Copy, Debug, PartialEq, Eq, Hash, Structural)]
pub enum EOcppVersion {
    V1_6J,
}

impl EOcppVersion {
    /// Parses the configuration name of a protocol version.
    pub fn from_str(s: &str) -> (r: Result<EOcppVersion, ()>)
        ensures
            r is Ok <==> s@ == "V1_6J"@,
    {
        if text_eq(s, "V1_6J") {
            Ok(EOcppVersion::V1_6J)
        } else {
            Err(())
        }
    }
}

/// The unit in which a charger takes charging limits.
#[derive(Clone, Copy, Debug, PartialEq, Eq, Hash, Structural)]
pub enum EChargingRateUnit {
    Watts,
    Amps,
}

/// The rate unit a configuration name denotes, if any.
pub open spec fn rate_unit_named(s: Seq<char>) -> Option<EChargingRateUnit> {
    if s == "Watts"@ {
        Some(EChargingRateUnit::Watts)
    } else if s == "Amps"@ {
        Some(EChargingRateUnit::Amps)
    } else {
        None
    }
}

impl EChargingRateUnit {
    /// Parses the configuration name of a rate unit.
    pub fn from_str(s: &str) -> (r: Result<EChargingRateUnit, ()>)
        ensures
            r is Ok <==> rate_unit_named(s@) is Some,
            r is Ok ==> r->Ok_0 == rate_unit_named(s@)->0,
    {
        if text_eq(s, "Watts") {
            Ok(EChargingRateUnit::Watts)
        } else if text_eq(s, "Amps") {
            Ok(EChargingRateUnit::Amps)
        } else {
            Err(())
        }
    }
}

pub struct BootNotificationReqPayload {
    pub charge_point_vendor: String,
    pub charge_point_model: String,
}

#[derive(Clone, Copy, Debug, PartialEq, Eq, Structural)]
pub enum RegistrationStatus {
    Accepted,
    Pending,
    Rejected,
}

pub struct BootNotificationConfPayload {
    pub current_time: String,
    pub interval: u32,
    pub status: RegistrationStatus,
}

pub struct StatusNotificationReqPayload {
    pub connector_id: u32,
    pub error_code: String,
    pub status: String,
}

pub struct StatusNotificationConfPayload {}

pub struct MeterSample {
    pub timestamp: Option<String>,
    pub sampled_value: Vec<MeterValueSampledValue>,
}

pub struct MeterValueSampledValue {
    pub value: String,
    pub context: Option<String>,
    pub format: Option<String>,
    pub measurand: Option<String>,
    pub phase: Option<String>,
    pub location: Option<String>,
    pub unit: Option<String>,
}

pub struct MeterValuesReqPayload {
    pub connector_id: u32,
    pub transaction_id: Option<i32>,
    pub meter_value: Vec<MeterSample>,
}

pub struct MeterValuesConfPayload {}

#[derive(Clone, Copy, Debug, PartialEq, Eq, Structural)]
pub struct ChargingSchedulePeriod {
    pub start_period: u32,
    /// Thousandths of the schedule's rate unit.
    pub limit_milli: i64,
    pub number_phases: Option<u8>,
}

pub struct ChargingSchedule {
    pub duration: Option<u32>,
    pub start_schedule: Option<String>,
    pub charging_rate_unit: String,
    pub charging_schedule_period: Vec<ChargingSchedulePeriod>,
    /// Thousandths of the schedule's rate unit.
    pub min_charging_rate_milli: Option<i64>,
}

pub struct CsChargingProfiles {
    pub charging_profile_id: i32,
    pub transaction_id: Option<i32>,
    pub stack_level: u32,
    pub charging_profile_purpose: String,
    pub charging_profile_kind: String,
    pub recurrency_kind: Option<String>,
    pub valid_from: Option<String>,
    pub valid_to: Option<String>,
    pub charging_schedule: ChargingSchedule,
}

pub struct SetChargingProfileReqPayload {
    pub connector_id: u32,
    pub cs_charging_profiles: CsChargingProfiles,
}

#[derive(Clone, Copy, Debug, PartialEq, Eq, Structural)]
pub enum ChargingProfileStatus {
    Accepted,
    Rejected,
    NotSupported,
}

pub struct SetChargingProfileConfPayload {
    pub status: ChargingProfileStatus,
}

pub struct ChangeConfigurationReqPayload {
    pub key: String,
    pub value: String,
}

#[derive(Clone, Copy, Debug, PartialEq, Eq, Structural)]
pub enum ConfigurationStatus {
    Accepted,
    Rejected,
    RebootRequired,
    NotSupported,
}

pub struct ChangeConfigurationConfPayload {
    pub status: ConfigurationStatus,
}

pub struct RemoteStartTransactionReqPayload {
    pub connector_id: Option<u32>,
    pub id_tag: String,
    pub charging_profile: Option<CsChargingProfiles>,
}

/// Every message the core sends to a charger.
pub enum EOutgoingOcppMessage {
    BootNotificationResponse(BootNotificationConfPayload),
    StatusNotificationResponse(StatusNotificationConfPayload),
    MeterValuesResponse(MeterValuesConfPayload),
    SetChargingProfileRequest(SetChargingProfileReqPayload),
    RemoteStartTransactionRequest(RemoteStartTransactionReqPayload),
    ChangeConfigurationRequest(ChangeConfigurationReqPayload),
}

/// The characters of an optional text.
pub open spec fn opt_text(s: Option<String>) -> Option<Seq<char>> {
    match s {
        Some(t) => Some(t@),
        None => None,
    }
}

/// A charging profile with its texts as character sequences.
pub struct ProfileView {
    pub connector_id: u32,
    pub charging_profile_id: i32,
    pub transaction_id: Option<i32>,
    pub stack_level: u32,
    pub purpose: Seq<char>,
    pub kind: Seq<char>,
    pub recurrency_kind: Option<Seq<char>>,
    pub valid_from: Option<Seq<char>>,
    pub valid_to: Option<Seq<char>>,
    pub duration: Option<u32>,
    pub start_schedule: Option<Seq<char>>,
    pub charging_rate_unit: Seq<char>,
    pub periods: Seq<ChargingSchedulePeriod>,
    pub min_charging_rate_milli: Option<i64>,
}

/// An outgoing message with its texts as character sequences.
pub enum MessageView {
    BootNotificationResponse { current_time: Seq<char>, interval: u32, status: RegistrationStatus },
    StatusNotificationResponse,
    MeterValuesResponse,
    SetChargingProfileRequest(ProfileView),
    RemoteStartTransactionRequest,
    ChangeConfigurationRequest { key: Seq<char>, value: Seq<char> },
}

impl View for SetChargingProfileReqPayload {
    type V = ProfileView;

    open spec fn view(&self) -> ProfileView {
        let p = self.cs_charging_profiles;
        let sch = p.charging_schedule;
        ProfileView {
            connector_id: self.connector_id,
            charging_profile_id: p.charging_profile_id,
            transaction_id: p.transaction_id,
            stack_level: p.stack_level,
            purpose: p.charging_profile_purpose@,
            kind: p.charging_profile_kind@,
            recurrency_kind: opt_text(p.recurrency_kind),
            valid_from: opt_text(p.valid_from),
            valid_to: opt_text(p.valid_to),
            duration: sch.duration,
            start_schedule: opt_text(sch.start_schedule),
            charging_rate_unit: sch.charging_rate_unit@,
            periods: sch.charging_schedule_period@,
            min_charging_rate_milli: sch.min_charging_rate_milli,
        }
    }
}

impl View for EOutgoingOcppMessage {
    type V = MessageView;

    open spec fn view(&self) -> MessageView {
        match self {
            EOutgoingOcppMessage::BootNotificationResponse(c) => MessageView::BootNotificationResponse {
                current_time: c.current_time@,
                interval: c.interval,
                status: c.status,
            },
            EOutgoingOcppMessage::StatusNotificationResponse(_) => MessageView::StatusNotificationResponse,
            EOutgoingOcppMessage::MeterValuesResponse(_) => MessageView::MeterValuesResponse,
            EOutgoingOcppMessage::SetChargingProfileRequest(r) => MessageView::SetChargingProfileRequest(r@),
            EOutgoingOcppMessage::RemoteStartTransactionRequest(_) => MessageView::RemoteStartTransactionRequest,
            EOutgoingOcppMessage::ChangeConfigurationRequest(c) => MessageView::ChangeConfigurationRequest {
                key: c.key@,
                value: c.value@,
            },
        }
    }
}

} // verus!
