//! Profile emitter: turns setpoint changes on connected OCPP chargers into
//! `SetChargingProfile` requests in the charger's rate unit.

use vstd::prelude::*;
use vstd::string::*;
use crate::components::LastAppliedSetpointKw;
use crate::messages::{OcppCommandToAsset, CommandView, Diagnostic, DiagnosticKind, command_views};
use crate::ocpp_commands::{numbered_command, send_ocpp_command_helper};
use crate::ocpp_components::{OcppProfileBehavior, ChargerElectricalConfig};
use crate::ocpp_types::{
    EChargingRateUnit, EOutgoingOcppMessage, SetChargingProfileReqPayload, CsChargingProfiles,
    ChargingSchedule, ChargingSchedulePeriod, ProfileView, MessageView,
};
use crate::registry::{Asset, AssetRegistry};
use crate::time::{Timestamp, DAY_MILLIS, rfc3339_of_millis, format_rfc3339, format_rfc3339_next_day};

verus! {

/// The per-phase limit, in thousandths of the rate unit, for a target in
/// milliwatts: the target itself in watts mode, and
/// `target * 1000 / (voltage_mv * phases)` milliamps in amps mode (rounded
/// down); negative targets give zero and the result saturates at `i64::MAX`.
pub open spec fn limit_milli(unit: EChargingRateUnit, target_mw: int, voltage_mv: int, phases: int) -> int {
    if target_mw <= 0 {
        0
    } else if unit == EChargingRateUnit::Watts {
        target_mw
    } else {
        let q = (target_mw * 1000) / (voltage_mv * phases);
        if q > i64::MAX { i64::MAX as int } else { q }
    }
}

/// The OCPP text of a rate unit.
pub open spec fn rate_unit_text(unit: EChargingRateUnit) -> Seq<char> {
    if unit == EChargingRateUnit::Amps { "A"@ } else { "W"@ }
}

/// Whether the electrical configuration allows expressing a limit in the
/// charger's unit: amps need a positive voltage and phase count.
pub open spec fn limit_computable(b: OcppProfileBehavior, e: ChargerElectricalConfig) -> bool {
    b.rate_unit == EChargingRateUnit::Watts || (e.nominal_voltage_ln_millivolts > 0 && e.active_phase_count > 0)
}

/// Computes the limit of a setpoint profile.
pub fn compute_limit_milli(b: OcppProfileBehavior, e: ChargerElectricalConfig, target_mw: i64) -> (r: i64)
    requires
        limit_computable(b, e),
    ensures
        r == limit_milli(b.rate_unit, target_mw as int, e.nominal_voltage_ln_millivolts as int, e.active_phase_count as int),
        r >= 0,
        b.rate_unit == EChargingRateUnit::Watts && target_mw >= 0 ==> r == target_mw,
        b.rate_unit == EChargingRateUnit::Amps && target_mw > 0 && r < i64::MAX ==>
            r * (e.nominal_voltage_ln_millivolts * e.active_phase_count) <= target_mw * 1000
                < (r + 1) * (e.nominal_voltage_ln_millivolts * e.active_phase_count),
{
    proof {
        if b.rate_unit == EChargingRateUnit::Amps {
            crate::laws::law_limit_units(target_mw as int, e.nominal_voltage_ln_millivolts as int, e.active_phase_count as int);
        }
    }
    if target_mw <= 0 {
        0
    } else {
        match b.rate_unit {
            EChargingRateUnit::Watts => target_mw,
            EChargingRateUnit::Amps => {
                let num: i128 = target_mw as i128 * 1000;
                let v = e.nominal_voltage_ln_millivolts as i128;
                let ph = e.active_phase_count as i128;
                assert(0 <= v * ph <= 0xffff_ffff * 0xff) by (nonlinear_arith)
                    requires
                        0 <= v <= 0xffff_ffff,
                        0 <= ph <= 0xff,
                ;
                let den: i128 = v * ph;
                assert(den > 0) by (nonlinear_arith)
                    requires
                        e.nominal_voltage_ln_millivolts > 0,
                        e.active_phase_count > 0,
                        den == e.nominal_voltage_ln_millivolts as int * e.active_phase_count as int,
                ;
                let q = num / den;
                assert(q >= 0) by (nonlinear_arith)
                    requires
                        num >= 0,
                        den > 0,
                        q == num / den,
                ;
                if q > i64::MAX as i128 {
                    i64::MAX
                } else {
                    q as i64
                }
            },
        }
    }
}

/// A setpoint change that the emitter acts on: the target was written this
/// tick, differs from the last applied value, and the asset is a connected
/// OCPP charger with its electrical and profile configuration.
pub open spec fn profile_due(a: Asset) -> bool {
    &&& a.target_changed
    &&& a.target.0 != a.last_applied.0
    &&& a.ocpp_config is Some
    &&& a.guns is Some
    &&& a.electrical is Some
    &&& a.profile_behavior is Some
    &&& a.connection is Some
    &&& a.connection->0.is_connected
}

/// A due change that also has a computable limit, and so is emitted.
pub open spec fn profile_emitted(a: Asset) -> bool {
    profile_due(a) && limit_computable(a.profile_behavior->0, a.electrical->0)
}

/// The profile sent for an asset's target, numbered `n`.
pub open spec fn setpoint_profile(a: Asset, n: nat, now: Timestamp) -> CommandView {
    let b = a.profile_behavior->0;
    let e = a.electrical->0;
    let limit = limit_milli(b.rate_unit, a.target.0 as int, e.nominal_voltage_ln_millivolts as int, e.active_phase_count as int);
    numbered_command(
        a.ocpp_config->0.charge_point_id@,
        MessageView::SetChargingProfileRequest(ProfileView {
            connector_id: 0,
            charging_profile_id: 1,
            transaction_id: None,
            stack_level: 1,
            purpose: "TxDefaultProfile"@,
            kind: "Absolute"@,
            recurrency_kind: Some("Daily"@),
            valid_from: Some(rfc3339_of_millis(now.unix_millis as int)),
            valid_to: Some(rfc3339_of_millis(now.unix_millis + DAY_MILLIS)),
            duration: Some(86400),
            start_schedule: Some(rfc3339_of_millis(now.unix_millis as int)),
            charging_rate_unit: rate_unit_text(b.rate_unit),
            periods: seq![ChargingSchedulePeriod {
                start_period: 0,
                limit_milli: limit as i64,
                number_phases: Some(b.profile_phases_in_ocpp_message),
            }],
            min_charging_rate_milli: Some(0),
        }),
        "sc"@,
        n,
    )
}

/// Whether a message number is left after `c`.
pub open spec fn id_left(c: nat) -> bool {
    c + 1 <= u64::MAX
}

/// The profiles the emitter sends for `assets`, in order, numbered after
/// `counter`; a change is passed over when the numbers have run out.
pub open spec fn profile_commands(assets: Seq<Asset>, counter: nat, now: Timestamp) -> Seq<CommandView>
    decreases assets.len(),
{
    if assets.len() == 0 {
        seq![]
    } else {
        let prev = profile_commands(assets.drop_last(), counter, now);
        if profile_emitted(assets.last()) && id_left(counter + prev.len()) {
            prev.push(setpoint_profile(assets.last(), counter + prev.len() + 1, now))
        } else {
            prev
        }
    }
}

/// Whether the emitter sends a profile for `assets[i]`.
pub open spec fn profile_sent(assets: Seq<Asset>, i: int, counter: nat, now: Timestamp) -> bool {
    profile_emitted(assets[i]) && id_left(counter + profile_commands(assets.subrange(0, i), counter, now).len())
}

/// An asset after the emitter ran: a sent target becomes the last applied
/// one.
pub open spec fn profile_applied(a: Asset, sent: bool) -> Asset {
    if sent {
        Asset { last_applied: LastAppliedSetpointKw(a.target.0), ..a }
    } else {
        a
    }
}

/// One error per due change whose limit cannot be computed, and one warning
/// per change passed over for want of message numbers.
pub open spec fn profile_diags(assets: Seq<Asset>, counter: nat, now: Timestamp) -> Seq<Diagnostic>
    decreases assets.len(),
{
    if assets.len() == 0 {
        seq![]
    } else {
        let prev = profile_diags(assets.drop_last(), counter, now);
        let used = profile_commands(assets.drop_last(), counter, now).len();
        let a = assets.last();
        if profile_due(a) && !profile_emitted(a) {
            prev.push(Diagnostic { kind: DiagnosticKind::InvalidElectricalConfig, subject: a.external_id.0 })
        } else if profile_emitted(a) && !id_left(counter + used) {
            prev.push(Diagnostic { kind: DiagnosticKind::MessageIdsExhausted, subject: a.external_id.0 })
        } else {
            prev
        }
    }
}

fn build_setpoint_profile(b: OcppProfileBehavior, e: ChargerElectricalConfig, target_mw: i64, now: Timestamp) -> (r: EOutgoingOcppMessage)
    requires
        limit_computable(b, e),
        now.wf(),
    ensures
        r@ == (MessageView::SetChargingProfileRequest(ProfileView {
            connector_id: 0,
            charging_profile_id: 1,
            transaction_id: None,
            stack_level: 1,
            purpose: "TxDefaultProfile"@,
            kind: "Absolute"@,
            recurrency_kind: Some("Daily"@),
            valid_from: Some(rfc3339_of_millis(now.unix_millis as int)),
            valid_to: Some(rfc3339_of_millis(now.unix_millis + DAY_MILLIS)),
            duration: Some(86400),
            start_schedule: Some(rfc3339_of_millis(now.unix_millis as int)),
            charging_rate_unit: rate_unit_text(b.rate_unit),
            periods: seq![ChargingSchedulePeriod {
                start_period: 0,
                limit_milli: limit_milli(b.rate_unit, target_mw as int, e.nominal_voltage_ln_millivolts as int, e.active_phase_count as int) as i64,
                number_phases: Some(b.profile_phases_in_ocpp_message),
            }],
            min_charging_rate_milli: Some(0),
        })),
{
    let limit = compute_limit_milli(b, e, target_mw);
    let unit = match b.rate_unit {
        EChargingRateUnit::Amps => String::from_str("A"),
        EChargingRateUnit::Watts => String::from_str("W"),
    };
    let mut periods: Vec<ChargingSchedulePeriod> = Vec::new();
    periods.push(ChargingSchedulePeriod {
        start_period: 0,
        limit_milli: limit,
        number_phases: Some(b.profile_phases_in_ocpp_message),
    });
    assert(periods@ =~= seq![ChargingSchedulePeriod {
        start_period: 0,
        limit_milli: limit,
        number_phases: Some(b.profile_phases_in_ocpp_message),
    }]);
    let schedule = ChargingSchedule {
        duration: Some(86400),
        start_schedule: Some(format_rfc3339(now)),
        charging_rate_unit: unit,
        charging_schedule_period: periods,
        min_charging_rate_milli: Some(0),
    };
    let profiles = CsChargingProfiles {
        charging_profile_id: 1,
        transaction_id: None,
        stack_level: 1,
        charging_profile_purpose: String::from_str("TxDefaultProfile"),
        charging_profile_kind: String::from_str("Absolute"),
        recurrency_kind: Some(String::from_str("Daily")),
        valid_from: Some(format_rfc3339(now)),
        valid_to: Some(format_rfc3339_next_day(now)),
        charging_schedule: schedule,
    };
    EOutgoingOcppMessage::SetChargingProfileRequest(SetChargingProfileReqPayload {
        connector_id: 0,
        cs_charging_profiles: profiles,
    })
}

/// Sends one profile per changed, not yet applied target of a connected
/// OCPP charger, then records the target as applied.
pub fn charger_control_to_ocpp_profile(
    registry: &mut AssetRegistry,
    now: Timestamp,
    counter: &mut u64,
    out: &mut Vec<OcppCommandToAsset>,
    diags: &mut Vec<Diagnostic>,
)
    requires
        old(registry).wf(),
        now.wf(),
    ensures
        final(registry).assets@.len() == old(registry).assets@.len(),
        forall|i: int| 0 <= i < old(registry).assets@.len() ==>
            #[trigger] final(registry).assets@[i] == profile_applied(
                old(registry).assets@[i],
                profile_sent(old(registry).assets@, i, *old(counter) as nat, now),
            ),
        command_views(final(out)@) == command_views(old(out)@) + profile_commands(old(registry).assets@, *old(counter) as nat, now),
        *final(counter) == *old(counter) + profile_commands(old(registry).assets@, *old(counter) as nat, now).len(),
        final(diags)@ == old(diags)@ + profile_diags(old(registry).assets@, *old(counter) as nat, now),
        forall|i: int| 0 <= i < old(registry).assets@.len() && profile_sent(old(registry).assets@, i, *old(counter) as nat, now) ==> {
            &&& #[trigger] final(registry).assets@[i].last_applied.0 == final(registry).assets@[i].target.0
            &&& !profile_due(crate::balancer::setpoint_written(final(registry).assets@[i], final(registry).assets@[i].target.0))
        },
        forall|i: int| 0 <= i < old(registry).assets@.len() && !old(registry).assets@[i].target_changed ==>
            #[trigger] final(registry).assets@[i] == old(registry).assets@[i],
{
    let ghost orig = registry.assets@;
    let ghost c0 = *counter as nat;
    let n = registry.assets.len();
    let mut i: usize = 0;
    while i < n
        invariant
            n == orig.len(),
            i <= n,
            registry.assets@.len() == n,
            now.wf(),
            forall|j: int| 0 <= j < i ==> #[trigger] registry.assets@[j] == profile_applied(orig[j], profile_sent(orig, j, c0, now)),
            forall|j: int| i <= j < n ==> #[trigger] registry.assets@[j] == orig[j],
            command_views(out@) == command_views(old(out)@) + profile_commands(orig.subrange(0, i as int), c0, now),
            *counter == c0 + profile_commands(orig.subrange(0, i as int), c0, now).len(),
            diags@ == old(diags)@ + profile_diags(orig.subrange(0, i as int), c0, now),
        decreases n - i,
    {
        let ghost pre = orig.subrange(0, i as int);
        let ghost post = orig.subrange(0, i + 1);
        assert(post.drop_last() =~= pre);
        assert(post.last() == orig[i as int]);
        let a = &registry.assets[i];
        let due = a.target_changed && a.target.0 != a.last_applied.0 && a.ocpp_config.is_some()
            && a.guns.is_some() && a.electrical.is_some() && a.profile_behavior.is_some()
            && a.connection.is_some() && a.connection.unwrap().is_connected;
        if due {
            let b = a.profile_behavior.unwrap();
            let e = a.electrical.unwrap();
            let computable = match b.rate_unit {
                EChargingRateUnit::Watts => true,
                EChargingRateUnit::Amps => e.nominal_voltage_ln_millivolts > 0 && e.active_phase_count > 0,
            };
            if !computable {
                diags.push(Diagnostic {
                    kind: DiagnosticKind::InvalidElectricalConfig,
                    subject: a.external_id.0.clone(),
                });
            } else if *counter == u64::MAX {
                diags.push(Diagnostic {
                    kind: DiagnosticKind::MessageIdsExhausted,
                    subject: a.external_id.0.clone(),
                });
            } else {
                let target = a.target.0;
                let msg = build_setpoint_profile(b, e, target, now);
                let cp = a.ocpp_config.as_ref().unwrap().charge_point_id.as_str();
                send_ocpp_command_helper(cp, msg, out, counter, "sc");
                registry.assets[i].last_applied = LastAppliedSetpointKw(target);
            }
        }
        i = i + 1;
    }
    assert(orig.subrange(0, n as int) =~= orig);
}

} // verus!
