//! Startup configuration: asset templates and instances, and the loader
//! that builds the registry from them.

use vstd::prelude::*;
use crate::common::{EAssetType, EOperationalStatus, EMeteringDataSource, metering_source_named};
use crate::components::{
    ExternalId, AssetInfo, CurrentMeterReading, TargetPowerSetpointKw, LastAppliedSetpointKw,
    MeteringSource, MeteringSourceDetails,
};
use crate::messages::{Diagnostic, DiagnosticKind};
use crate::ocpp_components::{
    OcppConfig, OcppConnectionState, OcppProfileBehavior, ChargerElectricalConfig, EGunStatusOcpp,
    Gun, Guns, AlfenSpecificConfig, AlfenSpecialInitState, AlfenSpecialInitStatus,
    GenericChargerInitProgress, GenericChargerInitializationStatus,
};
use crate::ocpp_types::{EOcppVersion, EChargingRateUnit, rate_unit_named};
use crate::registry::{Asset, AssetRegistry, ModbusControlConfig, guns_of, has_id, connectors_bounded, MAX_CONNECTOR_ID};
use crate::text::text_eq;
use crate::time::Timestamp;

verus! {

/// One configured component, as the configuration document states it.
pub enum ComponentConfig {
    AssetInfo { make: String, model: String },
    ChargerElectricalConfig { nominal_voltage_ln_millivolts: u32, active_phase_count: u8 },
    OcppConfig { version: String, charge_point_id: String },
    OcppProfileBehavior { rate_unit: String, profile_phases_in_ocpp_message: u8 },
    AlfenSpecificConfig { default_tx_profile_power_milliwatts: i64 },
    MeteringSource { source_type: String, details: MeteringSourceDetails },
    ModbusControlConfig { ip: String, port: u16, unit_id: u8 },
}

/// A reusable asset description.
pub struct AssetTemplate {
    pub asset_type: EAssetType,
    pub component_configs: Vec<ComponentConfig>,
}

/// A template under its id.
pub struct TemplateEntry {
    pub template_id: String,
    pub template: AssetTemplate,
}

/// One configured asset.
pub struct AssetInstance {
    pub external_id: String,
    pub template_id: String,
    pub instance_components: Vec<ComponentConfig>,
}

/// The configuration document.
pub struct SiteConfig {
    pub asset_templates: Vec<TemplateEntry>,
    pub assets: Vec<AssetInstance>,
}

/// The asset a component turns `a` into.
pub open spec fn component_applied(a: Asset, c: ComponentConfig) -> Asset {
    match c {
        ComponentConfig::AssetInfo { make, model } => Asset { info: Some(AssetInfo { make, model }), ..a },
        ComponentConfig::ChargerElectricalConfig { nominal_voltage_ln_millivolts, active_phase_count } => Asset {
            electrical: Some(ChargerElectricalConfig { nominal_voltage_ln_millivolts, active_phase_count }),
            ..a
        },
        ComponentConfig::OcppConfig { version, charge_point_id } => if version@ == "V1_6J"@ {
            Asset { ocpp_config: Some(OcppConfig { charge_point_id, version: EOcppVersion::V1_6J }), ..a }
        } else {
            a
        },
        ComponentConfig::OcppProfileBehavior { rate_unit, profile_phases_in_ocpp_message } => match rate_unit_named(rate_unit@) {
            Some(u) => Asset {
                profile_behavior: Some(OcppProfileBehavior { rate_unit: u, profile_phases_in_ocpp_message }),
                ..a
            },
            None => a,
        },
        ComponentConfig::AlfenSpecificConfig { default_tx_profile_power_milliwatts } => Asset {
            alfen_config: Some(AlfenSpecificConfig { default_tx_profile_power_milliwatts }),
            alfen_init: Some(AlfenSpecialInitStatus(AlfenSpecialInitState::Pending)),
            ..a
        },
        ComponentConfig::MeteringSource { source_type, details } => match metering_source_named(source_type@) {
            Some(s) => Asset { metering_source: Some(MeteringSource { source_type: s, details: Some(details) }), ..a },
            None => a,
        },
        ComponentConfig::ModbusControlConfig { ip, port, unit_id } => if a.asset_type == EAssetType::Battery {
            Asset { modbus_control: Some(ModbusControlConfig { ip, port, unit_id }), ..a }
        } else {
            a
        },
    }
}

/// Whether a component is skipped: a text that does not parse, or a
/// Modbus endpoint on an asset that is not a battery.
pub open spec fn component_skipped(t: EAssetType, c: ComponentConfig) -> bool {
    match c {
        ComponentConfig::OcppConfig { version, .. } => version@ != "V1_6J"@,
        ComponentConfig::OcppProfileBehavior { rate_unit, .. } => rate_unit_named(rate_unit@) is None,
        ComponentConfig::MeteringSource { source_type, .. } => metering_source_named(source_type@) is None,
        ComponentConfig::ModbusControlConfig { .. } => t != EAssetType::Battery,
        _ => false,
    }
}

/// The asset after the components, in order.
pub open spec fn components_applied(a: Asset, cs: Seq<ComponentConfig>) -> Asset
    decreases cs.len(),
{
    if cs.len() == 0 {
        a
    } else {
        component_applied(components_applied(a, cs.drop_last()), cs.last())
    }
}

/// One warning per skipped component, in order.
pub open spec fn component_diags(id: String, t: EAssetType, cs: Seq<ComponentConfig>) -> Seq<Diagnostic>
    decreases cs.len(),
{
    if cs.len() == 0 {
        seq![]
    } else {
        let prev = component_diags(id, t, cs.drop_last());
        if component_skipped(t, cs.last()) {
            prev.push(Diagnostic { kind: DiagnosticKind::SkippedComponent, subject: id })
        } else {
            prev
        }
    }
}

proof fn lemma_components_keep(a: Asset, cs: Seq<ComponentConfig>)
    ensures
        components_applied(a, cs).external_id == a.external_id,
        components_applied(a, cs).asset_type == a.asset_type,
        components_applied(a, cs).guns == a.guns,
    decreases cs.len(),
{
    if cs.len() > 0 {
        lemma_components_keep(a, cs.drop_last());
    }
}

fn copy_details(d: &MeteringSourceDetails) -> (r: MeteringSourceDetails)
    ensures
        r == *d,
{
    match d {
        MeteringSourceDetails::Modbus { ip, port, unit_id, poll_interval_ms, register_map_key } => MeteringSourceDetails::Modbus {
            ip: ip.clone(),
            port: *port,
            unit_id: *unit_id,
            poll_interval_ms: *poll_interval_ms,
            register_map_key: register_map_key.clone(),
        },
        MeteringSourceDetails::Ocpp {} => MeteringSourceDetails::Ocpp {},
        MeteringSourceDetails::InternalCalculation {} => MeteringSourceDetails::InternalCalculation {},
    }
}

/// Applies one configured component to an asset; returns whether it was
/// applied rather than skipped.
fn apply_component(a: &mut Asset, c: &ComponentConfig) -> (applied: bool)
    ensures
        *final(a) == component_applied(*old(a), *c),
        applied == !component_skipped(old(a).asset_type, *c),
{
    match c {
        ComponentConfig::AssetInfo { make, model } => {
            a.info = Some(AssetInfo { make: make.clone(), model: model.clone() });
            true
        },
        ComponentConfig::ChargerElectricalConfig { nominal_voltage_ln_millivolts, active_phase_count } => {
            a.electrical = Some(ChargerElectricalConfig {
                nominal_voltage_ln_millivolts: *nominal_voltage_ln_millivolts,
                active_phase_count: *active_phase_count,
            });
            true
        },
        ComponentConfig::OcppConfig { version, charge_point_id } => {
            match EOcppVersion::from_str(version.as_str()) {
                Ok(v) => {
                    a.ocpp_config = Some(OcppConfig { charge_point_id: charge_point_id.clone(), version: v });
                    true
                },
                Err(_) => false,
            }
        },
        ComponentConfig::OcppProfileBehavior { rate_unit, profile_phases_in_ocpp_message } => {
            match EChargingRateUnit::from_str(rate_unit.as_str()) {
                Ok(u) => {
                    a.profile_behavior = Some(OcppProfileBehavior {
                        rate_unit: u,
                        profile_phases_in_ocpp_message: *profile_phases_in_ocpp_message,
                    });
                    true
                },
                Err(_) => false,
            }
        },
        ComponentConfig::AlfenSpecificConfig { default_tx_profile_power_milliwatts } => {
            a.alfen_config = Some(AlfenSpecificConfig {
                default_tx_profile_power_milliwatts: *default_tx_profile_power_milliwatts,
            });
            a.alfen_init = Some(AlfenSpecialInitStatus(AlfenSpecialInitState::Pending));
            true
        },
        ComponentConfig::MeteringSource { source_type, details } => {
            match EMeteringDataSource::from_str(source_type.as_str()) {
                Ok(s) => {
                    a.metering_source = Some(MeteringSource { source_type: s, details: Some(copy_details(details)) });
                    true
                },
                Err(_) => false,
            }
        },
        ComponentConfig::ModbusControlConfig { ip, port, unit_id } => {
            match a.asset_type {
                EAssetType::Battery => {
                    a.modbus_control = Some(ModbusControlConfig { ip: ip.clone(), port: *port, unit_id: *unit_id });
                    true
                },
                _ => false,
            }
        },
    }
}

/// Applies components in order, reporting each skipped one.
fn apply_components(a: &mut Asset, cs: &Vec<ComponentConfig>, id: &String, diags: &mut Vec<Diagnostic>)
    ensures
        *final(a) == components_applied(*old(a), cs@),
        final(diags)@ == old(diags)@ + component_diags(*id, old(a).asset_type, cs@),
{
    let ghost a0 = *a;
    let mut i: usize = 0;
    while i < cs.len()
        invariant
            i <= cs@.len(),
            *a == components_applied(a0, cs@.subrange(0, i as int)),
            diags@ == old(diags)@ + component_diags(*id, a0.asset_type, cs@.subrange(0, i as int)),
        decreases cs@.len() - i,
    {
        assert(cs@.subrange(0, i + 1).drop_last() =~= cs@.subrange(0, i as int));
        proof {
            lemma_components_keep(a0, cs@.subrange(0, i as int));
        }
        if !apply_component(a, &cs[i]) {
            diags.push(Diagnostic { kind: DiagnosticKind::SkippedComponent, subject: id.clone() });
        }
        i = i + 1;
    }
    assert(cs@.subrange(0, cs@.len() as int) =~= cs@);
}

/// The one gun a charger starts with.
pub open spec fn default_gun() -> Gun {
    Gun { gun_id: 1, connector_id: 1, status: EGunStatusOcpp::Available }
}

/// A freshly spawned asset before its components are applied: an
/// initializing asset with a zero reading and zero setpoints; a charger also
/// starts disconnected, with generic initialization pending and the guns
/// given.
pub open spec fn base_asset(id: String, t: EAssetType, guns: Option<Guns>) -> Asset {
    let charger = t == EAssetType::Charger;
    Asset {
        external_id: ExternalId(id),
        asset_type: t,
        info: None,
        status: EOperationalStatus::Initializing,
        reading: CurrentMeterReading { power_milliwatts: 0, energy_milliwatt_hours: 0, timestamp: Timestamp { unix_millis: 0 } },
        target: TargetPowerSetpointKw(0),
        last_applied: LastAppliedSetpointKw(0),
        metering_source: None,
        ocpp_config: None,
        connection: if charger {
            Some(OcppConnectionState { is_connected: false, last_heartbeat_rcvd: None, ocpp_message_id_counter: 0 })
        } else {
            None
        },
        profile_behavior: None,
        electrical: None,
        guns,
        generic_init: if charger {
            Some(GenericChargerInitializationStatus(GenericChargerInitProgress::Pending))
        } else {
            None
        },
        alfen_config: None,
        alfen_init: None,
        modbus_control: None,
        target_changed: false,
        reading_changed: false,
    }
}

fn spawn_base(id: &String, t: EAssetType) -> (r: Asset)
    ensures
        r == base_asset(*id, t, r.guns),
        t == EAssetType::Charger ==> r.guns is Some && guns_of(r) == seq![default_gun()],
        t != EAssetType::Charger ==> r.guns is None,
{
    let charger = match t {
        EAssetType::Charger => true,
        _ => false,
    };
    let guns = if charger {
        let mut v: Vec<Gun> = Vec::new();
        v.push(Gun { gun_id: 1, connector_id: 1, status: EGunStatusOcpp::Available });
        assert(v@ =~= seq![default_gun()]);
        Some(Guns(v))
    } else {
        None
    };
    Asset {
        external_id: ExternalId(id.clone()),
        asset_type: t,
        info: None,
        status: EOperationalStatus::Initializing,
        reading: CurrentMeterReading::zero(),
        target: TargetPowerSetpointKw(0),
        last_applied: LastAppliedSetpointKw(0),
        metering_source: None,
        ocpp_config: None,
        connection: if charger { Some(OcppConnectionState::disconnected()) } else { None },
        profile_behavior: None,
        electrical: None,
        guns,
        generic_init: if charger {
            Some(GenericChargerInitializationStatus(GenericChargerInitProgress::Pending))
        } else {
            None
        },
        alfen_config: None,
        alfen_init: None,
        modbus_control: None,
        target_changed: false,
        reading_changed: false,
    }
}

/// `k` is the first template with the id.
pub open spec fn is_first_template(ts: Seq<TemplateEntry>, id: Seq<char>, k: int) -> bool {
    &&& 0 <= k < ts.len()
    &&& ts[k].template_id@ == id
    &&& forall|j: int| 0 <= j < k ==> #[trigger] ts[j].template_id@ != id
}

/// Index of the first template with the id, or -1.
pub open spec fn template_index(ts: Seq<TemplateEntry>, id: Seq<char>) -> int {
    if exists|k: int| is_first_template(ts, id, k) {
        choose|k: int| is_first_template(ts, id, k)
    } else {
        -1
    }
}

proof fn lemma_template_index(ts: Seq<TemplateEntry>, id: Seq<char>, k: int)
    requires
        is_first_template(ts, id, k),
    ensures
        template_index(ts, id) == k,
{
    let c = choose|k: int| is_first_template(ts, id, k);
    assert(is_first_template(ts, id, c));
    if c < k {
        assert(ts[c].template_id@ != id);
    } else if c > k {
        assert(ts[k].template_id@ != id);
    }
}

fn find_template(ts: &Vec<TemplateEntry>, id: &str) -> (r: Option<usize>)
    ensures
        r is Some ==> is_first_template(ts@, id@, r->0 as int) && template_index(ts@, id@) == r->0,
        r is None ==> template_index(ts@, id@) == -1,
{
    let mut i: usize = 0;
    while i < ts.len()
        invariant
            i <= ts@.len(),
            forall|j: int| 0 <= j < i ==> #[trigger] ts@[j].template_id@ != id@,
        decreases ts@.len() - i,
    {
        if text_eq(ts[i].template_id.as_str(), id) {
            proof {
                lemma_template_index(ts@, id@, i as int);
            }
            return Some(i);
        }
        i = i + 1;
    }
    None
}

/// Whether a component names a charge point other than `id`.
pub open spec fn cp_disagrees(c: ComponentConfig, id: Seq<char>) -> bool {
    match c {
        ComponentConfig::OcppConfig { charge_point_id, .. } => charge_point_id@ != id,
        _ => false,
    }
}

pub open spec fn any_cp_disagrees(cs: Seq<ComponentConfig>, id: Seq<char>) -> bool {
    exists|k: int| 0 <= k < cs.len() && cp_disagrees(#[trigger] cs[k], id)
}

fn cp_mismatch(cs: &Vec<ComponentConfig>, id: &str) -> (r: bool)
    ensures
        r == any_cp_disagrees(cs@, id@),
{
    let mut i: usize = 0;
    while i < cs.len()
        invariant
            i <= cs@.len(),
            forall|j: int| 0 <= j < i ==> !cp_disagrees(#[trigger] cs@[j], id@),
        decreases cs@.len() - i,
    {
        match &cs[i] {
            ComponentConfig::OcppConfig { charge_point_id, .. } => {
                if !text_eq(charge_point_id.as_str(), id) {
                    assert(cp_disagrees(cs@[i as int], id@));
                    return true;
                }
            },
            _ => {},
        }
        i = i + 1;
    }
    false
}

/// The template an instance names, if any.
pub open spec fn template_of(cfg: SiteConfig, k: int) -> AssetTemplate {
    cfg.asset_templates@[template_index(cfg.asset_templates@, cfg.assets@[k].template_id@)].template
}

/// Whether an instance or its template names a charge point other than the
/// instance's external id.
pub open spec fn instance_mismatch(cfg: SiteConfig, k: int) -> bool {
    let inst = cfg.assets@[k];
    any_cp_disagrees(template_of(cfg, k).component_configs@, inst.external_id@)
        || any_cp_disagrees(inst.instance_components@, inst.external_id@)
}

/// Whether an earlier spawned instance has the id.
pub open spec fn id_taken(cfg: SiteConfig, prev: Seq<int>, id: Seq<char>) -> bool {
    exists|m: int| 0 <= m < prev.len() && (#[trigger] cfg.assets@[prev[m]]).external_id@ == id
}

/// Indices of the instances, among the first `n`, that become assets: their
/// template exists, they agree on the charge point id, and their external id
/// is not taken yet.
pub open spec fn spawned(cfg: SiteConfig, n: nat) -> Seq<int>
    decreases n,
{
    if n == 0 {
        seq![]
    } else {
        let prev = spawned(cfg, (n - 1) as nat);
        let k = n - 1;
        let inst = cfg.assets@[k];
        if template_index(cfg.asset_templates@, inst.template_id@) >= 0 && !instance_mismatch(cfg, k)
            && !id_taken(cfg, prev, inst.external_id@) {
            prev.push(k)
        } else {
            prev
        }
    }
}

/// The warnings the loader reports for the first `n` instances.
pub open spec fn loader_diags(cfg: SiteConfig, n: nat) -> Seq<Diagnostic>
    decreases n,
{
    if n == 0 {
        seq![]
    } else {
        let prev = loader_diags(cfg, (n - 1) as nat);
        let k = n - 1;
        let inst = cfg.assets@[k];
        if template_index(cfg.asset_templates@, inst.template_id@) < 0 {
            prev.push(Diagnostic { kind: DiagnosticKind::MissingTemplate, subject: inst.template_id })
        } else if instance_mismatch(cfg, k) {
            prev.push(Diagnostic { kind: DiagnosticKind::MismatchedChargePointId, subject: inst.external_id })
        } else if id_taken(cfg, spawned(cfg, (n - 1) as nat), inst.external_id@) {
            prev.push(Diagnostic { kind: DiagnosticKind::DuplicateExternalId, subject: inst.external_id })
        } else {
            let t = template_of(cfg, k);
            prev + component_diags(inst.external_id, t.asset_type, t.component_configs@)
                + component_diags(inst.external_id, t.asset_type, inst.instance_components@)
        }
    }
}

/// `a` is the asset built from instance `k`: the base asset with the
/// template's components, then the instance's, applied in order.
pub open spec fn built_from(cfg: SiteConfig, k: int, a: Asset) -> bool {
    let inst = cfg.assets@[k];
    let t = template_of(cfg, k);
    &&& a == components_applied(
        components_applied(base_asset(inst.external_id, t.asset_type, a.guns), t.component_configs@),
        inst.instance_components@,
    )
    &&& t.asset_type == EAssetType::Charger ==> a.guns is Some && guns_of(a) == seq![default_gun()]
    &&& t.asset_type != EAssetType::Charger ==> a.guns is None
}

/// The `m`-th asset is built from the `m`-th spawned instance among the
/// first `k`, and carries its external id.
pub open spec fn loaded_ok(cfg: SiteConfig, k: nat, assets: Seq<Asset>, m: int) -> bool {
    let s = spawned(cfg, k);
    &&& 0 <= s[m] < k
    &&& built_from(cfg, s[m], assets[m])
    &&& assets[m].id() == cfg.assets@[s[m]].external_id@
}

/// Builds the registry from the configuration: one asset per instance
/// whose template exists, in instance order. An instance whose charge point
/// id disagrees with its external id, or whose external id is taken, is
/// rejected; components that do not parse are skipped.
pub fn spawn_assets_from_config_system(config: &SiteConfig, diags: &mut Vec<Diagnostic>) -> (r: AssetRegistry)
    ensures
        r.wf(),
        connectors_bounded(r.assets@),
        r.assets@.len() == spawned(*config, config.assets@.len()).len(),
        forall|m: int| 0 <= m < r.assets@.len() ==>
            #[trigger] built_from(*config, spawned(*config, config.assets@.len())[m], r.assets@[m]),
        final(diags)@ == old(diags)@ + loader_diags(*config, config.assets@.len()),
{
    let mut registry = AssetRegistry::new();
    let n = config.assets.len();
    let mut k: usize = 0;
    while k < n
        invariant
            n == config.assets@.len(),
            k <= n,
            registry.wf(),
            connectors_bounded(registry.assets@),
            registry.assets@.len() == spawned(*config, k as nat).len(),
            forall|m: int| 0 <= m < registry.assets@.len() ==> #[trigger] loaded_ok(*config, k as nat, registry.assets@, m),
            diags@ == old(diags)@ + loader_diags(*config, k as nat),
        decreases n - k,
    {
        let ghost prev = spawned(*config, k as nat);
        let ghost before_all = registry.assets@;
        let inst = &config.assets[k];
        match find_template(&config.asset_templates, inst.template_id.as_str()) {
            None => {
                diags.push(Diagnostic { kind: DiagnosticKind::MissingTemplate, subject: inst.template_id.clone() });
            },
            Some(ti) => {
                let t = &config.asset_templates[ti].template;
                let mismatch = cp_mismatch(&t.component_configs, inst.external_id.as_str())
                    || cp_mismatch(&inst.instance_components, inst.external_id.as_str());
                if mismatch {
                    diags.push(Diagnostic { kind: DiagnosticKind::MismatchedChargePointId, subject: inst.external_id.clone() });
                } else {
                    let taken = registry.by_id(inst.external_id.as_str());
                    proof {
                        if id_taken(*config, prev, inst.external_id@) {
                            let m = choose|m: int| 0 <= m < prev.len() && (#[trigger] config.assets@[prev[m]]).external_id@ == inst.external_id@;
                            assert(loaded_ok(*config, k as nat, registry.assets@, m));
                            assert(registry.assets@[m].id() == inst.external_id@);
                        }
                        if taken is Some {
                            let m = taken->0 as int;
                            assert(loaded_ok(*config, k as nat, registry.assets@, m));
                            assert(config.assets@[prev[m]].external_id@ == inst.external_id@);
                        }
                    }
                    if taken.is_some() {
                        diags.push(Diagnostic { kind: DiagnosticKind::DuplicateExternalId, subject: inst.external_id.clone() });
                    } else {
                        let mut a = spawn_base(&inst.external_id, t.asset_type);
                        let ghost base = a;
                        apply_components(&mut a, &t.component_configs, &inst.external_id, diags);
                        apply_components(&mut a, &inst.instance_components, &inst.external_id, diags);
                        proof {
                            lemma_components_keep(base, t.component_configs@);
                            lemma_components_keep(components_applied(base, t.component_configs@), inst.instance_components@);
                        }
                        let ghost before = registry.assets@;
                        registry.assets.push(a);
                        proof {
                            assert forall|i: int, j: int| 0 <= i < registry.assets@.len() && 0 <= j < registry.assets@.len() && i != j implies
                                #[trigger] registry.assets@[i].id() != #[trigger] registry.assets@[j].id() by {
                                if i < before.len() && j < before.len() {
                                    assert(before[i].id() != before[j].id());
                                } else if i < before.len() {
                                    assert(!has_id(before, inst.external_id@));
                                    assert(before[i].id() != inst.external_id@);
                                } else {
                                    assert(!has_id(before, inst.external_id@));
                                    assert(before[j].id() != inst.external_id@);
                                }
                            }
                            assert forall|i: int, j: int| 0 <= i < registry.assets@.len() && 0 <= j < guns_of(registry.assets@[i]).len()
                                implies (#[trigger] guns_of(registry.assets@[i])[j]).connector_id <= MAX_CONNECTOR_ID by {
                                if i < before.len() {
                                    assert(guns_of(before[i])[j].connector_id <= MAX_CONNECTOR_ID);
                                }
                            }
                        }
                    }
                }
            },
        }
        proof {
            let s2 = spawned(*config, (k + 1) as nat);
            assert forall|m: int| 0 <= m < registry.assets@.len() implies #[trigger] loaded_ok(*config, (k + 1) as nat, registry.assets@, m) by {
                if m < prev.len() {
                    assert(s2[m] == prev[m]);
                    assert(loaded_ok(*config, k as nat, before_all, m));
                }
            }
        }
        k = k + 1;
    }
    assert forall|m: int| 0 <= m < registry.assets@.len() implies
        #[trigger] built_from(*config, spawned(*config, config.assets@.len())[m], registry.assets@[m]) by {
        assert(loaded_ok(*config, n as nat, registry.assets@, m));
    }
    registry
}

} // verus!
