use ocpp_orchestrator::common::EAssetType;
use ocpp_orchestrator::common::EOperationalStatus;
use ocpp_orchestrator::components::MeteringSourceDetails;
use ocpp_orchestrator::config::{
    spawn_assets_from_config_system, AssetInstance, AssetTemplate, ComponentConfig, SiteConfig,
    TemplateEntry,
};
use ocpp_orchestrator::messages::{
    BalancerSetpointMessage, DecodedOcppRequest, DiagnosticKind, InboundOcppPayload,
    ModbusResponse, OcppCommandToAsset, OcppRequestFromAsset,
};
use ocpp_orchestrator::ocpp_components::{EGunStatusOcpp, Gun};
use ocpp_orchestrator::ocpp_types::{
    BootNotificationReqPayload, EOutgoingOcppMessage, MeterSample, MeterValueSampledValue,
    MeterValuesReqPayload, RegistrationStatus, StatusNotificationReqPayload,
};
use ocpp_orchestrator::tick::{Orchestrator, TickInput, TickOutput};
use ocpp_orchestrator::time::Timestamp;

const NOW: i64 = 1_700_000_000_000;

fn charger_site(rate_unit: &str, alfen: bool) -> SiteConfig {
    let mut components = vec![
        ComponentConfig::AssetInfo { make: "Phihong".to_string(), model: "AC_EU_Dual_V2".to_string() },
        ComponentConfig::ChargerElectricalConfig { nominal_voltage_ln_millivolts: 230_000, active_phase_count: 3 },
        ComponentConfig::OcppProfileBehavior { rate_unit: rate_unit.to_string(), profile_phases_in_ocpp_message: 3 },
        ComponentConfig::MeteringSource { source_type: "Ocpp".to_string(), details: MeteringSourceDetails::Ocpp {} },
    ];
    if alfen {
        components.push(ComponentConfig::AlfenSpecificConfig { default_tx_profile_power_milliwatts: 11_000_000 });
    }
    SiteConfig {
        asset_templates: vec![TemplateEntry {
            template_id: "Phihong_AC_EU_Charger_Template".to_string(),
            template: AssetTemplate { asset_type: EAssetType::Charger, component_configs: components },
        }],
        assets: vec![AssetInstance {
            external_id: "CH001".to_string(),
            template_id: "Phihong_AC_EU_Charger_Template".to_string(),
            instance_components: vec![ComponentConfig::OcppConfig {
                version: "V1_6J".to_string(),
                charge_point_id: "CH001".to_string(),
            }],
        }],
    }
}

fn battery_site() -> SiteConfig {
    SiteConfig {
        asset_templates: vec![TemplateEntry {
            template_id: "battery".to_string(),
            template: AssetTemplate {
                asset_type: EAssetType::Battery,
                component_configs: vec![
                    ComponentConfig::MeteringSource {
                        source_type: "Modbus".to_string(),
                        details: MeteringSourceDetails::Modbus {
                            ip: "10.0.0.5".to_string(),
                            port: 502,
                            unit_id: 1,
                            poll_interval_ms: 5000,
                            register_map_key: "bat_map_v1".to_string(),
                        },
                    },
                    ComponentConfig::ModbusControlConfig { ip: "10.0.0.5".to_string(), port: 502, unit_id: 1 },
                ],
            },
        }],
        assets: vec![AssetInstance {
            external_id: "BAT001".to_string(),
            template_id: "battery".to_string(),
            instance_components: vec![],
        }],
    }
}

fn orchestrator(config: &SiteConfig) -> Orchestrator {
    let mut diags = Vec::new();
    let registry = spawn_assets_from_config_system(config, &mut diags);
    assert!(diags.is_empty());
    Orchestrator::new(registry)
}

fn input() -> TickInput {
    TickInput {
        now: Timestamp { unix_millis: NOW },
        elapsed_ms: 0,
        balancer_setpoints: vec![],
        ocpp_requests: vec![],
        modbus_responses: vec![],
    }
}

fn request(action: &str, id: &str, payload: InboundOcppPayload) -> DecodedOcppRequest {
    DecodedOcppRequest {
        request: OcppRequestFromAsset {
            charge_point_id: "CH001".to_string(),
            action: action.to_string(),
            payload_json: String::new(),
            ocpp_message_id: id.to_string(),
        },
        payload,
    }
}

fn boot(id: &str) -> DecodedOcppRequest {
    request(
        "BootNotification",
        id,
        InboundOcppPayload::BootNotification(BootNotificationReqPayload {
            charge_point_vendor: "TestVendor".to_string(),
            charge_point_model: "TestModel".to_string(),
        }),
    )
}

fn status(id: &str, connector_id: u32, error_code: &str, status: &str) -> DecodedOcppRequest {
    request(
        "StatusNotification",
        id,
        InboundOcppPayload::StatusNotification(StatusNotificationReqPayload {
            connector_id,
            error_code: error_code.to_string(),
            status: status.to_string(),
        }),
    )
}

fn sampled(measurand: &str, value: &str, unit: Option<&str>) -> MeterValueSampledValue {
    MeterValueSampledValue {
        value: value.to_string(),
        context: None,
        format: None,
        measurand: Some(measurand.to_string()),
        phase: None,
        location: None,
        unit: unit.map(|u| u.to_string()),
    }
}

fn meter_values(id: &str, values: Vec<MeterValueSampledValue>) -> DecodedOcppRequest {
    request(
        "MeterValues",
        id,
        InboundOcppPayload::MeterValues(MeterValuesReqPayload {
            connector_id: 1,
            transaction_id: None,
            meter_value: vec![MeterSample { timestamp: None, sampled_value: values }],
        }),
    )
}

fn with_requests(reqs: Vec<DecodedOcppRequest>) -> TickInput {
    let mut i = input();
    i.ocpp_requests = reqs;
    i
}

fn with_setpoint(id: &str, kw_milliwatts: i64) -> TickInput {
    let mut i = input();
    i.balancer_setpoints = vec![BalancerSetpointMessage { external_id: id.to_string(), target_power_milliwatts: kw_milliwatts }];
    i
}

fn profile_of(cmd: &OcppCommandToAsset) -> (String, i64) {
    match &cmd.message_type {
        EOutgoingOcppMessage::SetChargingProfileRequest(req) => {
            let sch = &req.cs_charging_profiles.charging_schedule;
            (sch.charging_rate_unit.clone(), sch.charging_schedule_period[0].limit_milli)
        }
        _ => panic!("Expected SetChargingProfileRequest"),
    }
}

fn profiles(out: &TickOutput) -> Vec<&OcppCommandToAsset> {
    out.ocpp_commands
        .iter()
        .filter(|c| matches!(c.message_type, EOutgoingOcppMessage::SetChargingProfileRequest(_)))
        .collect()
}

#[test]
fn test_charger_connect_setpoint_update() {
    let asset_external_id = "CH001".to_string();
    let mut core = orchestrator(&charger_site("Amps", false));
    let _ = core.tick(&input());

    let out = core.tick(&with_requests(vec![boot("1")]));
    let boot_response = &out.ocpp_commands[0];
    assert_eq!(boot_response.charge_point_id, asset_external_id.clone());
    assert_eq!(boot_response.ocpp_message_id, Some("1".into()));
    if let EOutgoingOcppMessage::BootNotificationResponse(conf) = &boot_response.message_type {
        assert_eq!(conf.status, RegistrationStatus::Accepted);
    } else {
        panic!("Expected BootNotificationResponse");
    }

    let out = core.tick(&with_requests(vec![status("2", 1, "NoError", "Available")]));
    let status_response = &out.ocpp_commands[0];
    assert_eq!(status_response.charge_point_id, asset_external_id.clone());
    assert_eq!(status_response.ocpp_message_id, Some("2".into()));
    if !matches!(status_response.message_type, EOutgoingOcppMessage::StatusNotificationResponse(_)) {
        panic!("Expected StatusNotificationResponse");
    }

    let out = core.tick(&with_setpoint("CH001", 10_000_000));
    let profile10 = out.ocpp_commands.first();
    assert!(profile10.is_some(), "Expected SetChargingProfileRequest command, but none was received.");
    let profile10 = profile10.unwrap();
    assert_eq!(profile10.charge_point_id, asset_external_id.clone());
    let (unit, limit) = profile_of(profile10);
    assert_eq!(unit, "A");
    let limit = limit as f64 / 1000.0;
    assert!((limit - 14.49).abs() < 0.1, "Limit was {}", limit);

    let out = core.tick(&with_setpoint("CH001", 5_000_000));
    let profile5 = out.ocpp_commands.first();
    assert!(profile5.is_some(), "Expected SetChargingProfileRequest command, but none was received.");
    let profile5 = profile5.unwrap();
    assert_eq!(profile5.charge_point_id, asset_external_id);
    let (unit, limit) = profile_of(profile5);
    assert_eq!(unit, "A");
    let limit = limit as f64 / 1000.0;
    assert!((limit - 7.24).abs() < 0.1, "Limit was {}", limit);
}

#[test]
fn boot_then_setpoint_in_amps() {
    let mut core = orchestrator(&charger_site("Amps", false));
    let out = core.tick(&with_requests(vec![boot("1")]));
    match &out.ocpp_commands[0].message_type {
        EOutgoingOcppMessage::BootNotificationResponse(conf) => {
            assert_eq!(conf.status, RegistrationStatus::Accepted);
            assert_eq!(conf.interval, 300);
        }
        _ => panic!("Expected BootNotificationResponse"),
    }
    assert_eq!(out.ocpp_commands[0].ocpp_message_id, Some("1".to_string()));

    let out = core.tick(&with_setpoint("CH001", 10_000_000));
    assert_eq!(out.ocpp_commands.len(), 1);
    let (unit, limit) = profile_of(&out.ocpp_commands[0]);
    assert_eq!(unit, "A");
    assert_eq!(limit, 14_492);
    assert_eq!(out.ocpp_commands[0].ocpp_message_id, Some("sc_1".to_string()));

    let out = core.tick(&with_setpoint("CH001", 5_000_000));
    let (unit, limit) = profile_of(&out.ocpp_commands[0]);
    assert_eq!(unit, "A");
    assert_eq!(limit, 7_246);
    assert_eq!(out.ocpp_commands[0].ocpp_message_id, Some("sc_2".to_string()));
}

#[test]
fn watts_mode_setpoint() {
    let mut core = orchestrator(&charger_site("Watts", false));
    let _ = core.tick(&with_requests(vec![boot("1")]));
    let out = core.tick(&with_setpoint("CH001", 7_500_000));
    assert_eq!(out.ocpp_commands.len(), 1);
    let (unit, limit) = profile_of(&out.ocpp_commands[0]);
    assert_eq!(unit, "W");
    assert_eq!(limit, 7_500_000);
    assert_eq!(limit as f64 / 1000.0, 7500.0);
}

#[test]
fn setpoint_for_unknown_asset_is_dropped_with_one_warning() {
    let mut core = orchestrator(&charger_site("Amps", false));
    let _ = core.tick(&with_requests(vec![boot("1")]));
    let out = core.tick(&with_setpoint("GHOST", 3_000_000));
    assert!(out.ocpp_commands.is_empty());
    assert!(out.balancer_metering.is_empty());
    assert!(out.modbus_requests.is_empty());
    assert_eq!(out.diagnostics.len(), 1);
    assert_eq!(out.diagnostics[0].kind, DiagnosticKind::UnknownSetpointTarget);
    assert_eq!(out.diagnostics[0].subject, "GHOST");
}

#[test]
fn status_notification_connector_zero_fault_and_recovery() {
    let mut core = orchestrator(&charger_site("Amps", false));
    let _ = core.tick(&with_requests(vec![boot("1")]));
    let out = core.tick(&with_requests(vec![status("7", 0, "HighTemperature", "Faulted")]));
    assert_eq!(out.ocpp_commands.len(), 1);
    assert!(matches!(out.ocpp_commands[0].message_type, EOutgoingOcppMessage::StatusNotificationResponse(_)));
    assert_eq!(out.ocpp_commands[0].ocpp_message_id, Some("7".to_string()));
    let asset = &core.registry.assets[0];
    assert_eq!(asset.status, EOperationalStatus::Faulted);
    for gun in asset.guns.as_ref().unwrap().0.iter() {
        assert_eq!(gun.status, EGunStatusOcpp::Faulted);
    }

    let _ = core.tick(&with_requests(vec![status("8", 0, "NoError", "Available")]));
    let asset = &core.registry.assets[0];
    assert_eq!(asset.status, EOperationalStatus::Online);
    assert_eq!(asset.guns.as_ref().unwrap().0[0].status, EGunStatusOcpp::Available);
}

#[test]
fn meter_values_are_normalized_and_exported() {
    let mut core = orchestrator(&charger_site("Amps", false));
    let _ = core.tick(&with_requests(vec![boot("1")]));
    let out = core.tick(&with_requests(vec![meter_values("9", vec![sampled("Power.Active.Import", "5000", Some("W"))])]));
    assert_eq!(core.registry.assets[0].reading.power_milliwatts, 5_000_000);
    assert_eq!(out.balancer_metering.len(), 1);
    assert_eq!(out.balancer_metering[0].external_id, "CH001");
    assert_eq!(out.balancer_metering[0].power_milliwatts, 5_000_000);
    assert_eq!(out.balancer_metering[0].power_milliwatts as f64 / 1_000_000.0, 5.0);
    assert_eq!(out.balancer_metering[0].timestamp, Timestamp { unix_millis: NOW });
    assert!(profiles(&out).is_empty());

    let out = core.tick(&input());
    assert!(out.balancer_metering.is_empty());
}

#[test]
fn modbus_poll_then_response() {
    let mut core = orchestrator(&battery_site());
    let mut poll = input();
    poll.elapsed_ms = 5_000;
    let out = core.tick(&poll);
    assert_eq!(out.modbus_requests.len(), 1);
    assert_eq!(out.modbus_requests[0].external_id, "BAT001");
    assert_eq!(out.modbus_requests[0].register_map_key, "bat_map_v1");

    let mut resp = input();
    resp.modbus_responses = vec![ModbusResponse::new(
        "BAT001".to_string(),
        2_500_000,
        100_000_000,
        Timestamp { unix_millis: NOW - 1_000 },
    )];
    let out = core.tick(&resp);
    let reading = core.registry.assets[0].reading;
    assert_eq!(reading.power_milliwatts, 2_500_000);
    assert_eq!(reading.energy_milliwatt_hours, 100_000_000);
    assert_eq!(out.balancer_metering.len(), 1);
    assert_eq!(out.balancer_metering[0].external_id, "BAT001");
    assert_eq!(out.balancer_metering[0].power_milliwatts, 2_500_000);
    assert_eq!(out.balancer_metering[0].energy_milliwatt_hours, 100_000_000);
    assert!(out.modbus_requests.is_empty());
}

#[test]
fn poll_timer_fires_once_per_period() {
    let mut core = orchestrator(&battery_site());
    let mut step = input();
    step.elapsed_ms = 2_000;
    assert!(core.tick(&step).modbus_requests.is_empty());
    assert!(core.tick(&step).modbus_requests.is_empty());
    assert_eq!(core.tick(&step).modbus_requests.len(), 1);
    assert_eq!(core.poll_timer.elapsed_ms, 1_000);
}

#[test]
fn battery_setpoint_becomes_a_control_intent() {
    let mut core = orchestrator(&battery_site());
    let out = core.tick(&with_setpoint("BAT001", -4_000_000));
    assert_eq!(out.modbus_control.len(), 1);
    assert_eq!(out.modbus_control[0].external_id, "BAT001");
    assert_eq!(out.modbus_control[0].ip, "10.0.0.5");
    assert_eq!(out.modbus_control[0].port, 502);
    assert_eq!(out.modbus_control[0].target_power_milliwatts, -4_000_000);
    assert_eq!(core.registry.assets[0].last_applied.0, -4_000_000);
    assert!(out.ocpp_commands.is_empty());
}

#[test]
fn identical_setpoints_send_one_profile() {
    let mut core = orchestrator(&charger_site("Watts", false));
    let _ = core.tick(&with_requests(vec![boot("1")]));
    let first = core.tick(&with_setpoint("CH001", 3_000_000));
    assert_eq!(profiles(&first).len(), 1);
    for _ in 0..3 {
        let again = core.tick(&with_setpoint("CH001", 3_000_000));
        assert!(profiles(&again).is_empty());
    }
    let mut twice = input();
    twice.balancer_setpoints = vec![
        BalancerSetpointMessage { external_id: "CH001".to_string(), target_power_milliwatts: 4_000_000 },
        BalancerSetpointMessage { external_id: "CH001".to_string(), target_power_milliwatts: 4_000_000 },
    ];
    assert_eq!(profiles(&core.tick(&twice)).len(), 1);
}

#[test]
fn setpoint_before_connection_is_not_sent() {
    let mut core = orchestrator(&charger_site("Watts", false));
    let out = core.tick(&with_setpoint("CH001", 3_000_000));
    assert!(out.ocpp_commands.is_empty());
    assert_eq!(core.registry.assets[0].last_applied.0, 0);
}

#[test]
fn responses_echo_request_ids() {
    let mut core = orchestrator(&charger_site("Amps", false));
    let out = core.tick(&with_requests(vec![
        boot("b-1"),
        status("s-2", 1, "NoError", "Charging"),
        meter_values("m-3", vec![]),
    ]));
    let ids: Vec<Option<String>> = out.ocpp_commands.iter().take(3).map(|c| c.ocpp_message_id.clone()).collect();
    assert_eq!(ids, vec![Some("b-1".to_string()), Some("s-2".to_string()), Some("m-3".to_string())]);
    assert!(matches!(out.ocpp_commands[2].message_type, EOutgoingOcppMessage::MeterValuesResponse(_)));
}

#[test]
fn generic_init_precedes_vendor_init() {
    let mut core = orchestrator(&charger_site("Amps", true));
    let out = core.tick(&with_requests(vec![boot("1")]));
    let ids: Vec<String> = out.ocpp_commands.iter().map(|c| c.ocpp_message_id.clone().unwrap()).collect();
    assert_eq!(
        ids,
        vec![
            "1",
            "generic_init_1",
            "generic_init_2",
            "generic_init_3",
            "generic_clear_txdef_4",
            "generic_init_txdef_5",
            "alfen_init_1",
            "alfen_init_2",
            "alfen_txdef_3",
        ]
    );
    match &out.ocpp_commands[1].message_type {
        EOutgoingOcppMessage::ChangeConfigurationRequest(c) => {
            assert_eq!(c.key, "HeartbeatInterval");
            assert_eq!(c.value, "300");
        }
        _ => panic!("Expected ChangeConfigurationRequest"),
    }
    match &out.ocpp_commands[8].message_type {
        EOutgoingOcppMessage::SetChargingProfileRequest(req) => {
            let p = &req.cs_charging_profiles;
            assert_eq!(req.connector_id, 1);
            assert_eq!(p.charging_profile_id, 102);
            assert_eq!(p.stack_level, 12);
            assert_eq!(p.charging_profile_kind, "Relative");
            assert_eq!(p.charging_schedule.charging_rate_unit, "W");
            assert_eq!(p.charging_schedule.charging_schedule_period[0].limit_milli, 11_000_000);
            assert_eq!(p.charging_schedule.charging_schedule_period[0].number_phases, Some(3));
        }
        _ => panic!("Expected SetChargingProfileRequest"),
    }
    let again = core.tick(&with_requests(vec![boot("2")]));
    assert_eq!(again.ocpp_commands.len(), 1);
}

#[test]
fn generic_init_profiles_have_the_stated_layout() {
    let mut core = orchestrator(&charger_site("Amps", false));
    let out = core.tick(&with_requests(vec![boot("1")]));
    assert_eq!(out.ocpp_commands.len(), 6);
    match &out.ocpp_commands[4].message_type {
        EOutgoingOcppMessage::SetChargingProfileRequest(req) => {
            let p = &req.cs_charging_profiles;
            assert_eq!(p.stack_level, 0);
            assert_eq!(p.charging_profile_kind, "Recurring");
            assert_eq!(p.recurrency_kind, None);
            assert_eq!(p.charging_schedule.charging_rate_unit, "W");
        }
        _ => panic!("Expected SetChargingProfileRequest"),
    }
    match &out.ocpp_commands[5].message_type {
        EOutgoingOcppMessage::SetChargingProfileRequest(req) => {
            let p = &req.cs_charging_profiles;
            assert_eq!(p.stack_level, 1);
            assert_eq!(p.recurrency_kind, Some("Daily".to_string()));
            assert_eq!(p.charging_schedule.duration, Some(86400));
            assert_eq!(p.charging_schedule.start_schedule, Some("00:00:00".to_string()));
            assert_eq!(p.charging_schedule.charging_schedule_period[0].limit_milli, 0);
            assert_eq!(p.charging_schedule.charging_schedule_period[0].number_phases, Some(0));
        }
        _ => panic!("Expected SetChargingProfileRequest"),
    }
}

#[test]
fn setpoint_profile_has_the_stated_layout() {
    let mut core = orchestrator(&charger_site("Amps", false));
    let _ = core.tick(&with_requests(vec![boot("1")]));
    let out = core.tick(&with_setpoint("CH001", 10_000_000));
    match &out.ocpp_commands[0].message_type {
        EOutgoingOcppMessage::SetChargingProfileRequest(req) => {
            let p = &req.cs_charging_profiles;
            assert_eq!(req.connector_id, 0);
            assert_eq!(p.charging_profile_id, 1);
            assert_eq!(p.stack_level, 1);
            assert_eq!(p.charging_profile_purpose, "TxDefaultProfile");
            assert_eq!(p.charging_profile_kind, "Absolute");
            assert_eq!(p.recurrency_kind, Some("Daily".to_string()));
            assert_eq!(p.valid_from, Some("2023-11-14T22:13:20+00:00".to_string()));
            assert_eq!(p.valid_to, Some("2023-11-15T22:13:20+00:00".to_string()));
            assert_eq!(p.charging_schedule.duration, Some(86400));
            assert_eq!(p.charging_schedule.start_schedule, Some("2023-11-14T22:13:20+00:00".to_string()));
            assert_eq!(p.charging_schedule.charging_schedule_period[0].number_phases, Some(3));
            assert_eq!(p.charging_schedule.min_charging_rate_milli, Some(0));
        }
        _ => panic!("Expected SetChargingProfileRequest"),
    }
}

#[test]
fn setpoint_does_not_export_metering_and_reading_does_not_profile() {
    let mut core = orchestrator(&charger_site("Watts", false));
    let _ = core.tick(&with_requests(vec![boot("1")]));
    let out = core.tick(&with_setpoint("CH001", 2_000_000));
    assert!(out.balancer_metering.is_empty());
    let out = core.tick(&with_requests(vec![meter_values("2", vec![sampled("Power.Active.Import", "1.5", Some("kW"))])]));
    assert!(profiles(&out).is_empty());
    assert_eq!(out.balancer_metering.len(), 1);
    assert_eq!(out.balancer_metering[0].power_milliwatts, 1_500_000);
}

#[test]
fn zero_voltage_amps_charger_reports_and_skips() {
    let mut config = charger_site("Amps", false);
    config.assets[0].instance_components.push(ComponentConfig::ChargerElectricalConfig {
        nominal_voltage_ln_millivolts: 0,
        active_phase_count: 3,
    });
    let mut core = orchestrator(&config);
    let _ = core.tick(&with_requests(vec![boot("1")]));
    let out = core.tick(&with_setpoint("CH001", 10_000_000));
    assert!(out.ocpp_commands.is_empty());
    assert_eq!(out.diagnostics.len(), 1);
    assert_eq!(out.diagnostics[0].kind, DiagnosticKind::InvalidElectricalConfig);
    assert_eq!(core.registry.assets[0].last_applied.0, 0);
}

#[test]
fn negative_target_gives_zero_limit() {
    let mut core = orchestrator(&charger_site("Amps", false));
    let _ = core.tick(&with_requests(vec![boot("1")]));
    let out = core.tick(&with_setpoint("CH001", -2_000_000));
    let (_, limit) = profile_of(&out.ocpp_commands[0]);
    assert_eq!(limit, 0);
}

#[test]
fn unknown_peer_malformed_and_unhandled_requests_get_no_response() {
    let mut core = orchestrator(&charger_site("Amps", false));
    let mut ghost = boot("1");
    ghost.request.charge_point_id = "CH999".to_string();
    let out = core.tick(&with_requests(vec![
        ghost,
        request("MeterValues", "2", InboundOcppPayload::Malformed),
        request("DataTransfer", "3", InboundOcppPayload::Unhandled),
    ]));
    assert!(out.ocpp_commands.is_empty());
    let kinds: Vec<DiagnosticKind> = out.diagnostics.iter().map(|d| d.kind).collect();
    assert_eq!(
        kinds,
        vec![DiagnosticKind::UnknownOcppPeer, DiagnosticKind::InvalidOcppPayload, DiagnosticKind::UnhandledOcppAction]
    );
    assert!(!core.registry.assets[0].connection.unwrap().is_connected);
}

#[test]
fn unknown_status_and_connector_are_reported() {
    let mut core = orchestrator(&charger_site("Amps", false));
    let out = core.tick(&with_requests(vec![status("1", 5, "NoError", "Sleeping")]));
    assert_eq!(out.ocpp_commands.len(), 1);
    let kinds: Vec<DiagnosticKind> = out.diagnostics.iter().map(|d| d.kind).collect();
    assert_eq!(kinds, vec![DiagnosticKind::UnknownGunStatus, DiagnosticKind::UnknownConnector]);
    let out = core.tick(&with_requests(vec![status("2", 1, "NoError", "Sleeping")]));
    assert_eq!(out.diagnostics.len(), 1);
    assert_eq!(core.registry.assets[0].guns.as_ref().unwrap().0[0].status, EGunStatusOcpp::Unavailable);
}

#[test]
fn meter_values_energy_and_kilo_units() {
    let mut core = orchestrator(&charger_site("Amps", false));
    let _ = core.tick(&with_requests(vec![meter_values(
        "1",
        vec![
            sampled("Energy.Active.Import.Register", "12.5", Some("kWh")),
            sampled("Power.Active.Import", "7.2", Some("kW")),
            sampled("Voltage", "230", Some("V")),
            sampled("Power.Active.Import", "not-a-number", None),
        ],
    )]));
    let reading = core.registry.assets[0].reading;
    assert_eq!(reading.energy_milliwatt_hours, 12_500_000);
    assert_eq!(reading.power_milliwatts, 7_200_000);
    assert_eq!(reading.timestamp, Timestamp { unix_millis: NOW });
}

#[test]
fn exhausted_message_numbers_are_reported() {
    let mut core = orchestrator(&charger_site("Watts", false));
    let _ = core.tick(&with_requests(vec![boot("1")]));
    core.profile_counter = u64::MAX - 1;
    let out = core.tick(&with_setpoint("CH001", 1_000_000));
    assert_eq!(out.ocpp_commands[0].ocpp_message_id, Some("sc_18446744073709551615".to_string()));
    let out = core.tick(&with_setpoint("CH001", 2_000_000));
    assert!(out.ocpp_commands.is_empty());
    assert_eq!(out.diagnostics.len(), 1);
    assert_eq!(out.diagnostics[0].kind, DiagnosticKind::MessageIdsExhausted);
    assert_eq!(core.registry.assets[0].last_applied.0, 1_000_000);

    let mut fresh = orchestrator(&charger_site("Watts", false));
    fresh.generic_init_counter = u64::MAX - 2;
    let out = fresh.tick(&with_requests(vec![boot("1")]));
    assert_eq!(out.ocpp_commands.len(), 1);
    assert_eq!(out.diagnostics[0].kind, DiagnosticKind::MessageIdsExhausted);
}

#[test]
fn modbus_response_for_unknown_asset_is_reported() {
    let mut core = orchestrator(&battery_site());
    let mut resp = input();
    resp.modbus_responses = vec![ModbusResponse::new("BAT404".to_string(), 1, 1, Timestamp { unix_millis: NOW })];
    let out = core.tick(&resp);
    assert!(out.balancer_metering.is_empty());
    assert_eq!(out.diagnostics.len(), 1);
    assert_eq!(out.diagnostics[0].kind, DiagnosticKind::UnknownModbusSource);
    assert_eq!(out.diagnostics[0].subject, "BAT404");
}

fn stack_level(cmd: &OcppCommandToAsset) -> (u32, u32) {
    match &cmd.message_type {
        EOutgoingOcppMessage::SetChargingProfileRequest(req) => (req.connector_id, req.cs_charging_profiles.stack_level),
        _ => panic!("Expected SetChargingProfileRequest"),
    }
}

#[test]
fn generic_init_clears_every_gun_before_any_default() {
    let mut core = orchestrator(&charger_site("Amps", false));
    core.registry.assets[0]
        .guns
        .as_mut()
        .unwrap()
        .0
        .push(Gun { gun_id: 2, connector_id: 2, status: EGunStatusOcpp::Available });
    let out = core.tick(&with_requests(vec![boot("1")]));
    assert_eq!(out.ocpp_commands.len(), 1 + 3 + 4);
    let profiles: Vec<(u32, u32)> = out.ocpp_commands[4..].iter().map(stack_level).collect();
    assert_eq!(profiles, vec![(1, 0), (2, 0), (1, 1), (2, 1)]);
    let ids: Vec<String> = out.ocpp_commands[4..].iter().map(|c| c.ocpp_message_id.clone().unwrap()).collect();
    assert_eq!(ids, vec!["generic_clear_txdef_4", "generic_clear_txdef_5", "generic_init_txdef_6", "generic_init_txdef_7"]);
}

#[test]
fn charger_without_metering_source_is_still_answered() {
    let mut config = charger_site("Amps", false);
    config.asset_templates[0].template.component_configs.retain(|c| !matches!(c, ComponentConfig::MeteringSource { .. }));
    config.asset_templates[0]
        .template
        .component_configs
        .retain(|c| !matches!(c, ComponentConfig::ChargerElectricalConfig { .. }));
    let mut core = orchestrator(&config);
    let out = core.tick(&with_requests(vec![boot("1"), meter_values("2", vec![sampled("Power.Active.Import", "100", None)])]));
    assert_eq!(out.ocpp_commands[0].ocpp_message_id, Some("1".to_string()));
    assert!(matches!(out.ocpp_commands[1].message_type, EOutgoingOcppMessage::MeterValuesResponse(_)));
    assert_eq!(core.registry.assets[0].reading.power_milliwatts, 0);
    assert!(out.balancer_metering.is_empty());
    assert_eq!(out.ocpp_commands.len(), 2 + 3 + 2);
    assert!(core.registry.assets[0].connection.unwrap().is_connected);
}
