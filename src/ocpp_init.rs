//! Two-phase charger initialization: generic configuration once a charger
//! connects, then the Alfen-specific sequence once the generic one is done.

use vstd::prelude::*;
use vstd::string::*;
use crate::messages::{OcppCommandToAsset, CommandView, Diagnostic, DiagnosticKind, command_views};
use crate::ocpp_commands::{numbered_command, send_ocpp_command_helper, change_configuration};
use crate::ocpp_components::{
    Gun, GenericChargerInitProgress, GenericChargerInitializationStatus, AlfenSpecialInitState,
    AlfenSpecialInitStatus,
};
use crate::ocpp_types::{
    EOutgoingOcppMessage, SetChargingProfileReqPayload, CsChargingProfiles, ChargingSchedule,
    ChargingSchedulePeriod, ProfileView, MessageView,
};
use crate::registry::{Asset, AssetRegistry, guns_of, connectors_bounded, MAX_CONNECTOR_ID};

verus! {

/// A `ChangeConfiguration` message view.
pub open spec fn config_change(key: Seq<char>, value: Seq<char>) -> MessageView {
    MessageView::ChangeConfigurationRequest { key, value }
}

/// A `TxDefaultProfile` with a single zero period in watts.
pub open spec fn zero_tx_default(g: Gun, stack_level: u32, kind: Seq<char>, recurring_daily: bool) -> MessageView {
    MessageView::SetChargingProfileRequest(ProfileView {
        connector_id: g.connector_id,
        charging_profile_id: g.connector_id as i32,
        transaction_id: None,
        stack_level,
        purpose: "TxDefaultProfile"@,
        kind,
        recurrency_kind: if recurring_daily { Some("Daily"@) } else { None },
        valid_from: None,
        valid_to: None,
        duration: if recurring_daily { Some(86400) } else { None },
        start_schedule: if recurring_daily { Some("00:00:00"@) } else { None },
        charging_rate_unit: "W"@,
        periods: seq![ChargingSchedulePeriod { start_period: 0, limit_milli: 0, number_phases: Some(0) }],
        min_charging_rate_milli: if recurring_daily { Some(0) } else { None },
    })
}

/// The clearing profile of a gun (stack level 0).
pub open spec fn clear_profile(g: Gun) -> MessageView {
    zero_tx_default(g, 0, "Recurring"@, false)
}

/// The daily zero default profile of a gun (stack level 1).
pub open spec fn default_profile(g: Gun) -> MessageView {
    zero_tx_default(g, 1, "Recurring"@, true)
}

/// One zero profile per gun, in gun order, numbered after `c`: the clearing
/// profiles when `clearing`, else the daily default profiles.
pub open spec fn zero_profiles(cp: Seq<char>, guns: Seq<Gun>, clearing: bool, c: nat) -> Seq<CommandView>
    decreases guns.len(),
{
    if guns.len() == 0 {
        seq![]
    } else {
        let prev = zero_profiles(cp, guns.drop_last(), clearing, c);
        prev.push(if clearing {
            numbered_command(cp, clear_profile(guns.last()), "generic_clear_txdef"@, c + prev.len() + 1)
        } else {
            numbered_command(cp, default_profile(guns.last()), "generic_init_txdef"@, c + prev.len() + 1)
        })
    }
}

/// The generic initialization sequence of a charger, numbered after `c`:
/// three configuration changes, then a clearing profile for each gun, then
/// a default profile for each gun.
pub open spec fn generic_init_commands(a: Asset, c: nat) -> Seq<CommandView> {
    let cp = a.ocpp_config->0.charge_point_id@;
    seq![
        numbered_command(cp, config_change("HeartbeatInterval"@, "300"@), "generic_init"@, c + 1),
        numbered_command(cp, config_change("MeterValueSampleInterval"@, "60"@), "generic_init"@, c + 2),
        numbered_command(cp, config_change("LocalAuthorizeOffline"@, "true"@), "generic_init"@, c + 3),
    ] + zero_profiles(cp, guns_of(a), true, c + 3) + zero_profiles(cp, guns_of(a), false, c + 3 + guns_of(a).len())
}

/// A connected OCPP charger whose generic initialization is pending.
pub open spec fn generic_init_due(a: Asset) -> bool {
    &&& a.ocpp_config is Some
    &&& a.connection is Some
    &&& a.guns is Some
    &&& a.generic_init is Some
    &&& a.connection->0.is_connected
    &&& a.generic_init == Some(GenericChargerInitializationStatus(GenericChargerInitProgress::Pending))
}

/// Whether `n` more message numbers are available after `c`.
pub open spec fn ids_left(c: nat, n: nat) -> bool {
    c + n <= u64::MAX
}

/// The generic sequences sent for `assets`, in order, numbered after `c`;
/// a charger is passed over when the numbers would run out.
pub open spec fn generic_stage_commands(assets: Seq<Asset>, c: nat) -> Seq<CommandView>
    decreases assets.len(),
{
    if assets.len() == 0 {
        seq![]
    } else {
        let prev = generic_stage_commands(assets.drop_last(), c);
        let a = assets.last();
        if generic_init_due(a) && ids_left(c + prev.len(), 3 + 2 * guns_of(a).len()) {
            prev + generic_init_commands(a, c + prev.len())
        } else {
            prev
        }
    }
}

/// One warning per due charger passed over for want of message numbers.
pub open spec fn generic_stage_diags(assets: Seq<Asset>, c: nat) -> Seq<Diagnostic>
    decreases assets.len(),
{
    if assets.len() == 0 {
        seq![]
    } else {
        let prev = generic_stage_diags(assets.drop_last(), c);
        let used = generic_stage_commands(assets.drop_last(), c).len();
        let a = assets.last();
        if generic_init_due(a) && !ids_left(c + used, 3 + 2 * guns_of(a).len()) {
            prev.push(Diagnostic { kind: DiagnosticKind::MessageIdsExhausted, subject: a.external_id.0 })
        } else {
            prev
        }
    }
}

/// A charger after the generic stage: complete once its sequence is sent.
pub open spec fn generic_applied(a: Asset, sent: bool) -> Asset {
    if sent {
        Asset { generic_init: Some(GenericChargerInitializationStatus(GenericChargerInitProgress::Complete)), ..a }
    } else {
        a
    }
}

proof fn lemma_zero_profiles_len(cp: Seq<char>, guns: Seq<Gun>, clearing: bool, c: nat)
    ensures
        zero_profiles(cp, guns, clearing, c).len() == guns.len(),
    decreases guns.len(),
{
    if guns.len() > 0 {
        lemma_zero_profiles_len(cp, guns.drop_last(), clearing, c);
    }
}

fn zero_profile_message(g: Gun, stack_level: u32, recurring_daily: bool) -> (r: EOutgoingOcppMessage)
    requires
        g.connector_id <= MAX_CONNECTOR_ID,
    ensures
        r@ == zero_tx_default(g, stack_level, "Recurring"@, recurring_daily),
{
    let mut periods: Vec<ChargingSchedulePeriod> = Vec::new();
    periods.push(ChargingSchedulePeriod { start_period: 0, limit_milli: 0, number_phases: Some(0) });
    assert(periods@ =~= seq![ChargingSchedulePeriod { start_period: 0, limit_milli: 0, number_phases: Some(0) }]);
    let schedule = ChargingSchedule {
        duration: if recurring_daily { Some(86400) } else { None },
        start_schedule: if recurring_daily { Some(String::from_str("00:00:00")) } else { None },
        charging_rate_unit: String::from_str("W"),
        charging_schedule_period: periods,
        min_charging_rate_milli: if recurring_daily { Some(0) } else { None },
    };
    let profiles = CsChargingProfiles {
        charging_profile_id: g.connector_id as i32,
        transaction_id: None,
        stack_level,
        charging_profile_purpose: String::from_str("TxDefaultProfile"),
        charging_profile_kind: String::from_str("Recurring"),
        recurrency_kind: if recurring_daily { Some(String::from_str("Daily")) } else { None },
        valid_from: None,
        valid_to: None,
        charging_schedule: schedule,
    };
    EOutgoingOcppMessage::SetChargingProfileRequest(SetChargingProfileReqPayload {
        connector_id: g.connector_id,
        cs_charging_profiles: profiles,
    })
}

/// Sends the generic initialization sequence of one charger.
/// Sends one zero profile per gun, in gun order.
fn send_zero_profiles(
    cp: &str,
    guns: &Vec<Gun>,
    clearing: bool,
    counter: &mut u64,
    out: &mut Vec<OcppCommandToAsset>,
)
    requires
        *old(counter) + guns@.len() <= u64::MAX,
        forall|k: int| 0 <= k < guns@.len() ==> (#[trigger] guns@[k]).connector_id <= MAX_CONNECTOR_ID,
    ensures
        command_views(final(out)@) == command_views(old(out)@) + zero_profiles(cp@, guns@, clearing, *old(counter) as nat),
        *final(counter) == *old(counter) + guns@.len(),
{
    let ghost c0 = *counter as nat;
    let ghost v0 = command_views(out@);
    let ghost gs = guns@;
    let mut j: usize = 0;
    while j < guns.len()
        invariant
            gs == guns@,
            j <= gs.len(),
            c0 + gs.len() <= u64::MAX,
            forall|k: int| 0 <= k < gs.len() ==> (#[trigger] gs[k]).connector_id <= MAX_CONNECTOR_ID,
            command_views(out@) == v0 + zero_profiles(cp@, gs.subrange(0, j as int), clearing, c0),
            *counter == c0 + j,
        decreases gs.len() - j,
    {
        let ghost pre = gs.subrange(0, j as int);
        let ghost post = gs.subrange(0, j + 1);
        assert(post.drop_last() =~= pre);
        proof {
            lemma_zero_profiles_len(cp@, pre, clearing, c0);
        }
        let g = guns[j];
        if clearing {
            send_ocpp_command_helper(cp, zero_profile_message(g, 0, false), out, counter, "generic_clear_txdef");
        } else {
            send_ocpp_command_helper(cp, zero_profile_message(g, 1, true), out, counter, "generic_init_txdef");
        }
        assert(command_views(out@) =~= v0 + zero_profiles(cp@, post, clearing, c0));
        j = j + 1;
    }
    assert(gs.subrange(0, gs.len() as int) =~= gs);
}

fn send_generic_init(a: &Asset, counter: &mut u64, out: &mut Vec<OcppCommandToAsset>)
    requires
        generic_init_due(*a),
        ids_left(*old(counter) as nat, 3 + 2 * guns_of(*a).len()),
        forall|j: int| 0 <= j < guns_of(*a).len() ==> (#[trigger] guns_of(*a)[j]).connector_id <= MAX_CONNECTOR_ID,
    ensures
        command_views(final(out)@) == command_views(old(out)@) + generic_init_commands(*a, *old(counter) as nat),
        *final(counter) == *old(counter) + generic_init_commands(*a, *old(counter) as nat).len(),
{
    let ghost c0 = *counter as nat;
    let ghost v0 = command_views(out@);
    let cp = a.ocpp_config.as_ref().unwrap().charge_point_id.as_str();
    send_ocpp_command_helper(cp, change_configuration("HeartbeatInterval", "300"), out, counter, "generic_init");
    send_ocpp_command_helper(cp, change_configuration("MeterValueSampleInterval", "60"), out, counter, "generic_init");
    send_ocpp_command_helper(cp, change_configuration("LocalAuthorizeOffline", "true"), out, counter, "generic_init");
    let ghost head = seq![
        numbered_command(cp@, config_change("HeartbeatInterval"@, "300"@), "generic_init"@, c0 + 1),
        numbered_command(cp@, config_change("MeterValueSampleInterval"@, "60"@), "generic_init"@, c0 + 2),
        numbered_command(cp@, config_change("LocalAuthorizeOffline"@, "true"@), "generic_init"@, c0 + 3),
    ];
    assert(command_views(out@) =~= v0 + head);
    let guns = &a.guns.as_ref().unwrap().0;
    assert(guns@ == guns_of(*a));
    send_zero_profiles(cp, guns, true, counter, out);
    send_zero_profiles(cp, guns, false, counter, out);
    proof {
        lemma_zero_profiles_len(cp@, guns@, true, c0 + 3);
        lemma_zero_profiles_len(cp@, guns@, false, c0 + 3 + guns@.len());
    }
    assert(v0 + head + zero_profiles(cp@, guns@, true, c0 + 3) + zero_profiles(cp@, guns@, false, c0 + 3 + guns@.len())
        =~= v0 + generic_init_commands(*a, c0));
}

/// Whether the generic stage sends the sequence of `assets[i]`.
pub open spec fn generic_sent(assets: Seq<Asset>, i: int, c: nat) -> bool {
    let a = assets[i];
    generic_init_due(a) && ids_left(c + generic_stage_commands(assets.subrange(0, i), c).len(), 3 + 2 * guns_of(a).len())
}

proof fn lemma_generic_init_len(a: Asset, c: nat)
    ensures
        generic_init_commands(a, c).len() == 3 + 2 * guns_of(a).len(),
{
    lemma_zero_profiles_len(a.ocpp_config->0.charge_point_id@, guns_of(a), true, c + 3);
    lemma_zero_profiles_len(a.ocpp_config->0.charge_point_id@, guns_of(a), false, c + 3 + guns_of(a).len());
}

/// Sends the generic initialization of every connected charger whose
/// generic initialization is pending, and marks it complete.
pub fn generic_ocpp_charger_initialization_system(
    registry: &mut AssetRegistry,
    counter: &mut u64,
    out: &mut Vec<OcppCommandToAsset>,
    diags: &mut Vec<Diagnostic>,
)
    requires
        old(registry).wf(),
        connectors_bounded(old(registry).assets@),
    ensures
        final(registry).assets@.len() == old(registry).assets@.len(),
        forall|i: int| 0 <= i < old(registry).assets@.len() ==>
            #[trigger] final(registry).assets@[i] == generic_applied(
                old(registry).assets@[i],
                generic_sent(old(registry).assets@, i, *old(counter) as nat),
            ),
        command_views(final(out)@) == command_views(old(out)@) + generic_stage_commands(old(registry).assets@, *old(counter) as nat),
        *final(counter) == *old(counter) + generic_stage_commands(old(registry).assets@, *old(counter) as nat).len(),
        final(diags)@ == old(diags)@ + generic_stage_diags(old(registry).assets@, *old(counter) as nat),
{
    let ghost orig = registry.assets@;
    let ghost c0 = *counter as nat;
    let n = registry.assets.len();
    let mut i: usize = 0;
    while i < n
        invariant
            n == orig.len(),
            i <= n,
            registry.assets@.len() == n,
            connectors_bounded(orig),
            forall|j: int| 0 <= j < i ==> #[trigger] registry.assets@[j] == generic_applied(orig[j], generic_sent(orig, j, c0)),
            forall|j: int| i <= j < n ==> #[trigger] registry.assets@[j] == orig[j],
            command_views(out@) == command_views(old(out)@) + generic_stage_commands(orig.subrange(0, i as int), c0),
            *counter == c0 + generic_stage_commands(orig.subrange(0, i as int), c0).len(),
            diags@ == old(diags)@ + generic_stage_diags(orig.subrange(0, i as int), c0),
        decreases n - i,
    {
        let ghost pre = orig.subrange(0, i as int);
        let ghost post = orig.subrange(0, i + 1);
        assert(post.drop_last() =~= pre);
        assert(post.last() == orig[i as int]);
        let a = &registry.assets[i];
        let due = a.ocpp_config.is_some() && a.connection.is_some() && a.guns.is_some()
            && a.generic_init.is_some() && a.connection.unwrap().is_connected
            && match a.generic_init.unwrap().0 {
                GenericChargerInitProgress::Pending => true,
                GenericChargerInitProgress::Complete => false,
            };
        if due {
            let gn = a.guns.as_ref().unwrap().0.len();
            let room = *counter <= u64::MAX - 3 && (u64::MAX - 3 - *counter) / 2 >= gn as u64;
            if room {
                proof {
                    lemma_generic_init_len(orig[i as int], c0 + generic_stage_commands(pre, c0).len());
                    assert forall|j: int| 0 <= j < guns_of(*a).len() implies
                        (#[trigger] guns_of(*a)[j]).connector_id <= MAX_CONNECTOR_ID by {
                        assert(guns_of(orig[i as int])[j] == guns_of(*a)[j]);
                    }
                }
                send_generic_init(a, counter, out);
                registry.assets[i].generic_init = Some(GenericChargerInitializationStatus(GenericChargerInitProgress::Complete));
                assert(command_views(out@) =~= command_views(old(out)@) + generic_stage_commands(post, c0));
            } else {
                diags.push(Diagnostic { kind: DiagnosticKind::MessageIdsExhausted, subject: a.external_id.0.clone() });
            }
        }
        i = i + 1;
    }
    assert(orig.subrange(0, n as int) =~= orig);
}

/// The meter data an Alfen charger is told to sample.
pub open spec fn alfen_sampled_data() -> Seq<char> {
    "Power.Active.Import,Current.Offered,Energy.Active.Import.Register,Current.Import,Voltage"@
}

/// The relative default transaction profile of a gun of an Alfen charger.
pub open spec fn alfen_gun_profile(g: Gun, power_milliwatts: i64, phases: u8) -> MessageView {
    MessageView::SetChargingProfileRequest(ProfileView {
        connector_id: g.connector_id,
        charging_profile_id: (g.connector_id * 100 + 2) as i32,
        transaction_id: None,
        stack_level: (g.connector_id * 10 + 2) as u32,
        purpose: "TxDefaultProfile"@,
        kind: "Relative"@,
        recurrency_kind: None,
        valid_from: None,
        valid_to: None,
        duration: None,
        start_schedule: None,
        charging_rate_unit: "W"@,
        periods: seq![ChargingSchedulePeriod {
            start_period: 0,
            limit_milli: power_milliwatts,
            number_phases: Some(if phases >= 1 { phases } else { 1 }),
        }],
        min_charging_rate_milli: Some(0),
    })
}

/// The Alfen profiles of each gun, in gun order, numbered after `c`.
pub open spec fn alfen_gun_profiles(cp: Seq<char>, guns: Seq<Gun>, power: i64, phases: u8, c: nat) -> Seq<CommandView>
    decreases guns.len(),
{
    if guns.len() == 0 {
        seq![]
    } else {
        let prev = alfen_gun_profiles(cp, guns.drop_last(), power, phases, c);
        prev.push(numbered_command(cp, alfen_gun_profile(guns.last(), power, phases), "alfen_txdef"@, c + prev.len() + 1))
    }
}

/// The Alfen initialization sequence of a charger, numbered after `c`.
pub open spec fn alfen_init_commands(a: Asset, c: nat) -> Seq<CommandView> {
    let cp = a.ocpp_config->0.charge_point_id@;
    seq![
        numbered_command(cp, config_change("MeterValuesSampledData"@, alfen_sampled_data()), "alfen_init"@, c + 1),
        numbered_command(cp, config_change("WebSocketPingInterval"@, "60"@), "alfen_init"@, c + 2),
    ] + alfen_gun_profiles(
        cp,
        guns_of(a),
        a.alfen_config->0.default_tx_profile_power_milliwatts,
        a.electrical->0.active_phase_count,
        c + 2,
    )
}

/// An Alfen charger whose generic initialization is complete and whose
/// vendor initialization is pending.
pub open spec fn alfen_init_due(a: Asset) -> bool {
    &&& a.ocpp_config is Some
    &&& a.electrical is Some
    &&& a.guns is Some
    &&& a.alfen_config is Some
    &&& a.generic_init == Some(GenericChargerInitializationStatus(GenericChargerInitProgress::Complete))
    &&& a.alfen_init == Some(AlfenSpecialInitStatus(AlfenSpecialInitState::Pending))
}

/// The Alfen sequences sent for `assets`, in order, numbered after `c`.
pub open spec fn alfen_stage_commands(assets: Seq<Asset>, c: nat) -> Seq<CommandView>
    decreases assets.len(),
{
    if assets.len() == 0 {
        seq![]
    } else {
        let prev = alfen_stage_commands(assets.drop_last(), c);
        let a = assets.last();
        if alfen_init_due(a) && ids_left(c + prev.len(), 2 + guns_of(a).len()) {
            prev + alfen_init_commands(a, c + prev.len())
        } else {
            prev
        }
    }
}

/// One warning per due charger passed over for want of message numbers.
pub open spec fn alfen_stage_diags(assets: Seq<Asset>, c: nat) -> Seq<Diagnostic>
    decreases assets.len(),
{
    if assets.len() == 0 {
        seq![]
    } else {
        let prev = alfen_stage_diags(assets.drop_last(), c);
        let used = alfen_stage_commands(assets.drop_last(), c).len();
        let a = assets.last();
        if alfen_init_due(a) && !ids_left(c + used, 2 + guns_of(a).len()) {
            prev.push(Diagnostic { kind: DiagnosticKind::MessageIdsExhausted, subject: a.external_id.0 })
        } else {
            prev
        }
    }
}

/// Whether the Alfen stage sends the sequence of `assets[i]`.
pub open spec fn alfen_sent(assets: Seq<Asset>, i: int, c: nat) -> bool {
    let a = assets[i];
    alfen_init_due(a) && ids_left(c + alfen_stage_commands(assets.subrange(0, i), c).len(), 2 + guns_of(a).len())
}

/// A charger after the Alfen stage: complete once its sequence is sent.
pub open spec fn alfen_applied(a: Asset, sent: bool) -> Asset {
    if sent {
        Asset { alfen_init: Some(AlfenSpecialInitStatus(AlfenSpecialInitState::Complete)), ..a }
    } else {
        a
    }
}

proof fn lemma_alfen_gun_profiles_len(cp: Seq<char>, guns: Seq<Gun>, power: i64, phases: u8, c: nat)
    ensures
        alfen_gun_profiles(cp, guns, power, phases, c).len() == guns.len(),
    decreases guns.len(),
{
    if guns.len() > 0 {
        lemma_alfen_gun_profiles_len(cp, guns.drop_last(), power, phases, c);
    }
}

fn alfen_profile_message(g: Gun, power_milliwatts: i64, phases: u8) -> (r: EOutgoingOcppMessage)
    requires
        g.connector_id <= MAX_CONNECTOR_ID,
    ensures
        r@ == alfen_gun_profile(g, power_milliwatts, phases),
{
    let n = if phases >= 1 { phases } else { 1 };
    let mut periods: Vec<ChargingSchedulePeriod> = Vec::new();
    periods.push(ChargingSchedulePeriod { start_period: 0, limit_milli: power_milliwatts, number_phases: Some(n) });
    assert(periods@ =~= seq![ChargingSchedulePeriod { start_period: 0, limit_milli: power_milliwatts, number_phases: Some(n) }]);
    let schedule = ChargingSchedule {
        duration: None,
        start_schedule: None,
        charging_rate_unit: String::from_str("W"),
        charging_schedule_period: periods,
        min_charging_rate_milli: Some(0),
    };
    let profiles = CsChargingProfiles {
        charging_profile_id: (g.connector_id * 100 + 2) as i32,
        transaction_id: None,
        stack_level: g.connector_id * 10 + 2,
        charging_profile_purpose: String::from_str("TxDefaultProfile"),
        charging_profile_kind: String::from_str("Relative"),
        recurrency_kind: None,
        valid_from: None,
        valid_to: None,
        charging_schedule: schedule,
    };
    EOutgoingOcppMessage::SetChargingProfileRequest(SetChargingProfileReqPayload {
        connector_id: g.connector_id,
        cs_charging_profiles: profiles,
    })
}

/// Sends the Alfen initialization sequence of one charger.
fn send_alfen_init(a: &Asset, counter: &mut u64, out: &mut Vec<OcppCommandToAsset>)
    requires
        alfen_init_due(*a),
        ids_left(*old(counter) as nat, 2 + guns_of(*a).len()),
        forall|j: int| 0 <= j < guns_of(*a).len() ==> (#[trigger] guns_of(*a)[j]).connector_id <= MAX_CONNECTOR_ID,
    ensures
        command_views(final(out)@) == command_views(old(out)@) + alfen_init_commands(*a, *old(counter) as nat),
        *final(counter) == *old(counter) + alfen_init_commands(*a, *old(counter) as nat).len(),
{
    let ghost c0 = *counter as nat;
    let ghost v0 = command_views(out@);
    let cp = a.ocpp_config.as_ref().unwrap().charge_point_id.as_str();
    send_ocpp_command_helper(
        cp,
        change_configuration(
            "MeterValuesSampledData",
            "Power.Active.Import,Current.Offered,Energy.Active.Import.Register,Current.Import,Voltage",
        ),
        out,
        counter,
        "alfen_init",
    );
    send_ocpp_command_helper(cp, change_configuration("WebSocketPingInterval", "60"), out, counter, "alfen_init");
    let ghost head = seq![
        numbered_command(cp@, config_change("MeterValuesSampledData"@, alfen_sampled_data()), "alfen_init"@, c0 + 1),
        numbered_command(cp@, config_change("WebSocketPingInterval"@, "60"@), "alfen_init"@, c0 + 2),
    ];
    assert(command_views(out@) =~= v0 + head);
    let power = a.alfen_config.unwrap().default_tx_profile_power_milliwatts;
    let phases = a.electrical.unwrap().active_phase_count;
    let guns = &a.guns.as_ref().unwrap().0;
    let ghost gs = guns@;
    assert(gs == guns_of(*a));
    let mut j: usize = 0;
    while j < guns.len()
        invariant
            gs == guns@,
            j <= gs.len(),
            c0 + 2 + gs.len() <= u64::MAX,
            forall|k: int| 0 <= k < gs.len() ==> (#[trigger] gs[k]).connector_id <= MAX_CONNECTOR_ID,
            command_views(out@) == v0 + head + alfen_gun_profiles(cp@, gs.subrange(0, j as int), power, phases, c0 + 2),
            *counter == c0 + 2 + j,
        decreases gs.len() - j,
    {
        let ghost pre = gs.subrange(0, j as int);
        let ghost post = gs.subrange(0, j + 1);
        assert(post.drop_last() =~= pre);
        proof {
            lemma_alfen_gun_profiles_len(cp@, pre, power, phases, c0 + 2);
        }
        let g = guns[j];
        send_ocpp_command_helper(cp, alfen_profile_message(g, power, phases), out, counter, "alfen_txdef");
        assert(command_views(out@) =~= v0 + head + alfen_gun_profiles(cp@, post, power, phases, c0 + 2));
        j = j + 1;
    }
    assert(gs.subrange(0, gs.len() as int) =~= gs);
    proof {
        lemma_alfen_gun_profiles_len(cp@, gs, power, phases, c0 + 2);
    }
    assert(v0 + head + alfen_gun_profiles(cp@, gs, power, phases, c0 + 2) =~= v0 + alfen_init_commands(*a, c0));
}

proof fn lemma_alfen_init_len(a: Asset, c: nat)
    ensures
        alfen_init_commands(a, c).len() == 2 + guns_of(a).len(),
{
    lemma_alfen_gun_profiles_len(
        a.ocpp_config->0.charge_point_id@,
        guns_of(a),
        a.alfen_config->0.default_tx_profile_power_milliwatts,
        a.electrical->0.active_phase_count,
        c + 2,
    );
}

/// Sends the Alfen sequence of every Alfen charger whose generic
/// initialization is complete and vendor initialization pending, and marks
/// it complete.
pub fn alfen_special_init_system(
    registry: &mut AssetRegistry,
    counter: &mut u64,
    out: &mut Vec<OcppCommandToAsset>,
    diags: &mut Vec<Diagnostic>,
)
    requires
        old(registry).wf(),
        connectors_bounded(old(registry).assets@),
    ensures
        final(registry).assets@.len() == old(registry).assets@.len(),
        forall|i: int| 0 <= i < old(registry).assets@.len() ==>
            #[trigger] final(registry).assets@[i] == alfen_applied(
                old(registry).assets@[i],
                alfen_sent(old(registry).assets@, i, *old(counter) as nat),
            ),
        command_views(final(out)@) == command_views(old(out)@) + alfen_stage_commands(old(registry).assets@, *old(counter) as nat),
        *final(counter) == *old(counter) + alfen_stage_commands(old(registry).assets@, *old(counter) as nat).len(),
        final(diags)@ == old(diags)@ + alfen_stage_diags(old(registry).assets@, *old(counter) as nat),
        forall|i: int| 0 <= i < old(registry).assets@.len() && alfen_sent(old(registry).assets@, i, *old(counter) as nat) ==>
            (#[trigger] old(registry).assets@[i]).generic_init
                == Some(GenericChargerInitializationStatus(GenericChargerInitProgress::Complete)),
{
    let ghost orig = registry.assets@;
    let ghost c0 = *counter as nat;
    let n = registry.assets.len();
    let mut i: usize = 0;
    while i < n
        invariant
            n == orig.len(),
            i <= n,
            registry.assets@.len() == n,
            connectors_bounded(orig),
            forall|j: int| 0 <= j < i ==> #[trigger] registry.assets@[j] == alfen_applied(orig[j], alfen_sent(orig, j, c0)),
            forall|j: int| i <= j < n ==> #[trigger] registry.assets@[j] == orig[j],
            command_views(out@) == command_views(old(out)@) + alfen_stage_commands(orig.subrange(0, i as int), c0),
            *counter == c0 + alfen_stage_commands(orig.subrange(0, i as int), c0).len(),
            diags@ == old(diags)@ + alfen_stage_diags(orig.subrange(0, i as int), c0),
        decreases n - i,
    {
        let ghost pre = orig.subrange(0, i as int);
        let ghost post = orig.subrange(0, i + 1);
        assert(post.drop_last() =~= pre);
        assert(post.last() == orig[i as int]);
        let a = &registry.assets[i];
        let generic_done = match a.generic_init {
            Some(GenericChargerInitializationStatus(GenericChargerInitProgress::Complete)) => true,
            _ => false,
        };
        let alfen_pending = match a.alfen_init {
            Some(AlfenSpecialInitStatus(AlfenSpecialInitState::Pending)) => true,
            _ => false,
        };
        let due = a.ocpp_config.is_some() && a.electrical.is_some() && a.guns.is_some()
            && a.alfen_config.is_some() && generic_done && alfen_pending;
        if due {
            let gn = a.guns.as_ref().unwrap().0.len();
            let room = *counter <= u64::MAX - 2 && u64::MAX - 2 - *counter >= gn as u64;
            if room {
                proof {
                    lemma_alfen_init_len(orig[i as int], c0 + alfen_stage_commands(pre, c0).len());
                    assert forall|j: int| 0 <= j < guns_of(*a).len() implies
                        (#[trigger] guns_of(*a)[j]).connector_id <= MAX_CONNECTOR_ID by {
                        assert(guns_of(orig[i as int])[j] == guns_of(*a)[j]);
                    }
                }
                send_alfen_init(a, counter, out);
                registry.assets[i].alfen_init = Some(AlfenSpecialInitStatus(AlfenSpecialInitState::Complete));
                assert(command_views(out@) =~= command_views(old(out)@) + alfen_stage_commands(post, c0));
            } else {
                diags.push(Diagnostic { kind: DiagnosticKind::MessageIdsExhausted, subject: a.external_id.0.clone() });
            }
        }
        i = i + 1;
    }
    assert(orig.subrange(0, n as int) =~= orig);
}

} // verus!
