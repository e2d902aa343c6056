//! Messages that cross the core's boundary queues, and the diagnostics the
//! core reports instead of logging.

use vstd::prelude::*;
use crate::ocpp_types::{MessageView, opt_text, BootNotificationReqPayload, StatusNotificationReqPayload, MeterValuesReqPayload, EOutgoingOcppMessage};
use crate::time::Timestamp;
use crate::text::text_eq;

verus! {

/// A setpoint from the balancer, in milliwatts.
pub struct BalancerSetpointMessage {
    pub external_id: String,
    pub target_power_milliwatts: i64,
}

/// A meter reading exported to the balancer.
pub struct BalancerMeteringMessage {
    pub external_id: String,
    pub power_milliwatts: i64,
    pub energy_milliwatt_hours: i64,
    pub timestamp: Timestamp,
}

/// A register read the Modbus client is asked to perform.
pub struct ModbusRequest {
    pub external_id: String,
    pub register_map_key: String,
}

impl ModbusRequest {
    pub fn new(external_id: String, register_map_key: String) -> (r: ModbusRequest)
        ensures
            r.external_id == external_id,
            r.register_map_key == register_map_key,
    {
        ModbusRequest { external_id, register_map_key }
    }
}

/// A reading the Modbus client took.
pub struct ModbusResponse {
    pub external_id: String,
    pub power_milliwatts: i64,
    pub energy_milliwatt_hours: i64,
    pub timestamp: Timestamp,
}

impl ModbusResponse {
    pub fn new(external_id: String, power_milliwatts: i64, energy_milliwatt_hours: i64, timestamp: Timestamp) -> (r: ModbusResponse)
        ensures
            r.external_id == external_id,
            r.power_milliwatts == power_milliwatts,
            r.energy_milliwatt_hours == energy_milliwatt_hours,
            r.timestamp == timestamp,
    {
        ModbusResponse { external_id, power_milliwatts, energy_milliwatt_hours, timestamp }
    }
}

/// A setpoint the Modbus client is to write to a battery.
pub struct ModbusControlIntent {
    pub external_id: String,
    pub ip: String,
    pub port: u16,
    pub unit_id: u8,
    pub target_power_milliwatts: i64,
}

/// An OCPP request as it arrived from a charger.
pub struct OcppRequestFromAsset {
    pub charge_point_id: String,
    pub action: String,
    pub payload_json: String,
    pub ocpp_message_id: String,
}

/// The typed payload of an inbound OCPP request.
pub enum InboundOcppPayload {
    BootNotification(BootNotificationReqPayload),
    StatusNotification(StatusNotificationReqPayload),
    MeterValues(MeterValuesReqPayload),
    /// The payload did not decode as the action's payload type.
    Malformed,
    /// The action has no handler.
    Unhandled,
}

/// The OCPP actions the core handles.
#[derive(Clone, Copy, Debug, PartialEq, Eq, Structural)]
pub enum OcppAction {
    BootNotification,
    StatusNotification,
    MeterValues,
    Other,
}

/// The action an OCPP action name denotes.
pub open spec fn action_named(s: Seq<char>) -> OcppAction {
    if s == "BootNotification"@ {
        OcppAction::BootNotification
    } else if s == "StatusNotification"@ {
        OcppAction::StatusNotification
    } else if s == "MeterValues"@ {
        OcppAction::MeterValues
    } else {
        OcppAction::Other
    }
}

/// Tells which payload type an inbound request's action carries.
pub fn classify_action(action: &str) -> (r: OcppAction)
    ensures
        r == action_named(action@),
{
    if text_eq(action, "BootNotification") {
        OcppAction::BootNotification
    } else if text_eq(action, "StatusNotification") {
        OcppAction::StatusNotification
    } else if text_eq(action, "MeterValues") {
        OcppAction::MeterValues
    } else {
        OcppAction::Other
    }
}

/// An inbound OCPP request with its payload decoded.
pub struct DecodedOcppRequest {
    pub request: OcppRequestFromAsset,
    pub payload: InboundOcppPayload,
}

/// A message for a charger; responses echo the request's message id.
pub struct OcppCommandToAsset {
    pub charge_point_id: String,
    pub message_type: EOutgoingOcppMessage,
    pub ocpp_message_id: Option<String>,
}

/// What went wrong or was skipped while handling an input.
#[derive(Clone, Copy, Debug, PartialEq, Eq, Structural)]
pub enum DiagnosticKind {
    UnknownSetpointTarget,
    UnknownOcppPeer,
    InvalidOcppPayload,
    UnhandledOcppAction,
    UnknownConnector,
    UnknownGunStatus,
    InvalidElectricalConfig,
    MessageIdsExhausted,
    UnknownModbusSource,
    MissingTemplate,
    SkippedComponent,
    DuplicateExternalId,
    MismatchedChargePointId,
}

/// A warning or error, with the identifier it concerns.
pub struct Diagnostic {
    pub kind: DiagnosticKind,
    pub subject: String,
}

/// An outgoing OCPP command with its texts as character sequences.
pub struct CommandView {
    pub charge_point_id: Seq<char>,
    pub message: MessageView,
    pub ocpp_message_id: Option<Seq<char>>,
}

impl View for OcppCommandToAsset {
    type V = CommandView;

    open spec fn view(&self) -> CommandView {
        CommandView {
            charge_point_id: self.charge_point_id@,
            message: self.message_type@,
            ocpp_message_id: opt_text(self.ocpp_message_id),
        }
    }
}

/// The views of a sequence of commands.
pub open spec fn command_views(s: Seq<OcppCommandToAsset>) -> Seq<CommandView> {
    s.map_values(|c: OcppCommandToAsset| c@)
}

/// Appending a command appends its view.
pub proof fn lemma_command_views_push(s: Seq<OcppCommandToAsset>, c: OcppCommandToAsset)
    ensures
        command_views(s.push(c)) == command_views(s).push(c@),
{
    assert(command_views(s.push(c)) =~= command_views(s).push(c@));
}

} // verus!
