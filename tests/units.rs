use ocpp_orchestrator::common::{EAssetType, EMeteringDataSource};
use ocpp_orchestrator::components::MeteringSourceDetails;
use ocpp_orchestrator::config::{
    spawn_assets_from_config_system, AssetInstance, AssetTemplate, ComponentConfig, SiteConfig,
    TemplateEntry,
};
use ocpp_orchestrator::messages::{classify_action, DiagnosticKind, OcppAction};
use ocpp_orchestrator::ocpp_commands::message_id;
use ocpp_orchestrator::ocpp_components::{
    ChargerElectricalConfig, EGunStatusOcpp, OcppProfileBehavior,
};
use ocpp_orchestrator::ocpp_handler::{map_status_to_gun_status, parse_gun_status};
use ocpp_orchestrator::ocpp_types::{EChargingRateUnit, EOcppVersion};
use ocpp_orchestrator::profile::compute_limit_milli;
use ocpp_orchestrator::text::{append_decimal, parse_thousandths, text_eq};
use ocpp_orchestrator::time::{format_rfc3339, format_rfc3339_next_day, Timestamp};

#[test]
fn decimal_texts_parse_to_thousandths() {
    assert_eq!(parse_thousandths("5000"), Some(5_000_000));
    assert_eq!(parse_thousandths("-1.5"), Some(-1_500));
    assert_eq!(parse_thousandths("+0.25"), Some(250));
    assert_eq!(parse_thousandths(".5"), Some(500));
    assert_eq!(parse_thousandths("7."), Some(7_000));
    assert_eq!(parse_thousandths("1.23456"), Some(1_234));
    assert_eq!(parse_thousandths("9223372036854775.807"), Some(i64::MAX));
    assert_eq!(parse_thousandths("9223372036854776"), None);
    assert_eq!(parse_thousandths(""), None);
    assert_eq!(parse_thousandths("-"), None);
    assert_eq!(parse_thousandths("."), None);
    assert_eq!(parse_thousandths("1.2.3"), None);
    assert_eq!(parse_thousandths("5e3"), None);
    assert_eq!(parse_thousandths("abc"), None);
}

#[test]
fn decimals_render_without_leading_zeros() {
    let mut s = String::from("n=");
    append_decimal(&mut s, 0);
    assert_eq!(s, "n=0");
    let mut s = String::new();
    append_decimal(&mut s, 18_446_744_073_709_551_615);
    assert_eq!(s, "18446744073709551615");
}

#[test]
fn message_ids_join_prefix_and_number() {
    assert_eq!(message_id("sc", 1), "sc_1");
    assert_eq!(message_id("generic_clear_txdef", 42), "generic_clear_txdef_42");
}

#[test]
fn texts_compare_by_characters() {
    assert!(text_eq("Faulted", "Faulted"));
    assert!(!text_eq("Faulted", "faulted"));
    assert!(!text_eq("Fault", "Faulted"));
}

#[test]
fn timestamps_render_as_rfc3339() {
    assert_eq!(format_rfc3339(Timestamp { unix_millis: 0 }), "1970-01-01T00:00:00+00:00");
    assert_eq!(format_rfc3339(Timestamp { unix_millis: 1_700_000_000_123 }), "2023-11-14T22:13:20.123+00:00");
    assert_eq!(format_rfc3339_next_day(Timestamp { unix_millis: 0 }), "1970-01-02T00:00:00+00:00");
    assert_eq!(Timestamp::from_unix_millis(-1), None);
    assert_eq!(Timestamp::from_unix_millis(5), Some(Timestamp { unix_millis: 5 }));
}

#[test]
fn configuration_names_parse() {
    assert_eq!(EMeteringDataSource::from_str("Modbus"), Ok(EMeteringDataSource::Modbus));
    assert_eq!(EMeteringDataSource::from_str("InternalCalculation"), Ok(EMeteringDataSource::InternalCalculation));
    assert_eq!(EMeteringDataSource::from_str("modbus"), Err(()));
    assert_eq!(EChargingRateUnit::from_str("Amps"), Ok(EChargingRateUnit::Amps));
    assert_eq!(EChargingRateUnit::from_str("Volts"), Err(()));
    assert_eq!(EOcppVersion::from_str("V1_6J"), Ok(EOcppVersion::V1_6J));
    assert_eq!(EOcppVersion::from_str("2.0.1"), Err(()));
}

#[test]
fn gun_status_texts_map_with_unavailable_default() {
    assert_eq!(map_status_to_gun_status("SuspendedEVSE"), EGunStatusOcpp::SuspendedEVSE);
    assert_eq!(map_status_to_gun_status("Faulted"), EGunStatusOcpp::Faulted);
    assert_eq!(map_status_to_gun_status("Bogus"), EGunStatusOcpp::Unavailable);
    assert_eq!(parse_gun_status("Bogus"), None);
}

#[test]
fn limits_follow_the_rate_unit() {
    let amps = OcppProfileBehavior { rate_unit: EChargingRateUnit::Amps, profile_phases_in_ocpp_message: 3 };
    let watts = OcppProfileBehavior { rate_unit: EChargingRateUnit::Watts, profile_phases_in_ocpp_message: 1 };
    let e = ChargerElectricalConfig { nominal_voltage_ln_millivolts: 230_000, active_phase_count: 3 };
    let one = ChargerElectricalConfig { nominal_voltage_ln_millivolts: 1, active_phase_count: 1 };
    assert_eq!(compute_limit_milli(amps, e, 10_000_000), 14_492);
    assert_eq!(compute_limit_milli(amps, e, 0), 0);
    assert_eq!(compute_limit_milli(amps, one, i64::MAX), i64::MAX);
    assert_eq!(compute_limit_milli(watts, e, 7_500_000), 7_500_000);
    assert_eq!(compute_limit_milli(watts, e, -1), 0);
    let exact = 10_000.0 / (230.0 * 3.0);
    assert!((compute_limit_milli(amps, e, 10_000_000) as f64 / 1000.0 - exact).abs() < 1e-3);
}

fn template(id: &str, t: EAssetType, components: Vec<ComponentConfig>) -> TemplateEntry {
    TemplateEntry { template_id: id.to_string(), template: AssetTemplate { asset_type: t, component_configs: components } }
}

fn instance(id: &str, template_id: &str, components: Vec<ComponentConfig>) -> AssetInstance {
    AssetInstance { external_id: id.to_string(), template_id: template_id.to_string(), instance_components: components }
}

#[test]
fn loader_applies_instance_components_over_template_ones() {
    let config = SiteConfig {
        asset_templates: vec![template(
            "ch",
            EAssetType::Charger,
            vec![
                ComponentConfig::ChargerElectricalConfig { nominal_voltage_ln_millivolts: 230_000, active_phase_count: 3 },
                ComponentConfig::OcppProfileBehavior { rate_unit: "Amps".to_string(), profile_phases_in_ocpp_message: 3 },
            ],
        )],
        assets: vec![instance(
            "CH7",
            "ch",
            vec![
                ComponentConfig::ChargerElectricalConfig { nominal_voltage_ln_millivolts: 120_000, active_phase_count: 1 },
                ComponentConfig::OcppProfileBehavior { rate_unit: "Kilowatts".to_string(), profile_phases_in_ocpp_message: 1 },
            ],
        )],
    };
    let mut diags = Vec::new();
    let registry = spawn_assets_from_config_system(&config, &mut diags);
    assert_eq!(registry.assets.len(), 1);
    let a = &registry.assets[0];
    assert_eq!(a.external_id.0, "CH7");
    assert_eq!(a.electrical.unwrap().nominal_voltage_ln_millivolts, 120_000);
    assert_eq!(a.profile_behavior.unwrap().rate_unit, EChargingRateUnit::Amps);
    let guns = &a.guns.as_ref().unwrap().0;
    assert_eq!(guns.len(), 1);
    assert_eq!(guns[0].connector_id, 1);
    assert_eq!(guns[0].status, EGunStatusOcpp::Available);
    assert!(!a.connection.unwrap().is_connected);
    assert_eq!(diags.len(), 1);
    assert_eq!(diags[0].kind, DiagnosticKind::SkippedComponent);
}

#[test]
fn loader_rejects_bad_instances() {
    let modbus = ComponentConfig::ModbusControlConfig { ip: "10.0.0.9".to_string(), port: 502, unit_id: 3 };
    let config = SiteConfig {
        asset_templates: vec![
            template("ch", EAssetType::Charger, vec![modbus]),
            template("pv", EAssetType::SolarPV, vec![ComponentConfig::MeteringSource {
                source_type: "InternalCalculation".to_string(),
                details: MeteringSourceDetails::InternalCalculation {},
            }]),
        ],
        assets: vec![
            instance("A", "missing", vec![]),
            instance("B", "ch", vec![ComponentConfig::OcppConfig { version: "V1_6J".to_string(), charge_point_id: "X".to_string() }]),
            instance("C", "ch", vec![]),
            instance("C", "pv", vec![]),
            instance("D", "pv", vec![]),
        ],
    };
    let mut diags = Vec::new();
    let registry = spawn_assets_from_config_system(&config, &mut diags);
    let ids: Vec<&str> = registry.assets.iter().map(|a| a.external_id.0.as_str()).collect();
    assert_eq!(ids, vec!["C", "D"]);
    assert!(registry.assets[0].modbus_control.is_none());
    assert_eq!(registry.assets[1].asset_type, EAssetType::SolarPV);
    assert!(registry.assets[1].guns.is_none());
    let kinds: Vec<DiagnosticKind> = diags.iter().map(|d| d.kind).collect();
    assert_eq!(
        kinds,
        vec![
            DiagnosticKind::MissingTemplate,
            DiagnosticKind::MismatchedChargePointId,
            DiagnosticKind::SkippedComponent,
            DiagnosticKind::DuplicateExternalId,
        ]
    );
    assert_eq!(diags[0].subject, "missing");
    assert_eq!(registry.by_id("D"), Some(1));
    assert_eq!(registry.by_id("A"), None);
}

#[test]
fn actions_are_classified_by_name() {
    assert_eq!(classify_action("BootNotification"), OcppAction::BootNotification);
    assert_eq!(classify_action("StatusNotification"), OcppAction::StatusNotification);
    assert_eq!(classify_action("MeterValues"), OcppAction::MeterValues);
    assert_eq!(classify_action("Heartbeat"), OcppAction::Other);
}
