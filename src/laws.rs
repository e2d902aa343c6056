//! Properties of the orchestrator that hold for all inputs.

use vstd::prelude::*;
use crate::balancer::{setpoint_written, setpoints_applied, changed_meterings, metering_of, lemma_setpoints_keep_id};
use crate::messages::{BalancerSetpointMessage, DecodedOcppRequest, ModbusResponse};
use crate::modbus::{responses_applied, lemma_responses_keep_id};
use crate::ocpp_components::{GenericChargerInitProgress, GenericChargerInitializationStatus};
use crate::ocpp_handler::{ocpp_responses, ocpp_response, ocpp_frame, ocpp_dyn, ocpp_step};
use crate::ocpp_init::{alfen_init_due, generic_init_due};
use crate::ocpp_types::EChargingRateUnit;
use crate::profile::{profile_due, profile_emitted, profile_applied, limit_milli, rate_unit_text};
use crate::registry::Asset;
use crate::tick::{all_setpoints, tick_relation, tick_chain, Orchestrator, TickInput, TickOutput};
use crate::time::Timestamp;

verus! {

/// A charger after `n` writes of the same target, each followed by the
/// profile emitter (with message numbers to spare), and the number of
/// profiles sent.
pub open spec fn repeated_writes(a: Asset, t: i64, n: nat) -> (Asset, nat)
    decreases n,
{
    if n == 0 {
        (a, 0)
    } else {
        let prev = repeated_writes(a, t, (n - 1) as nat);
        let w = setpoint_written(prev.0, t);
        (profile_applied(w, profile_emitted(w)), prev.1 + if profile_emitted(w) { 1nat } else { 0nat })
    }
}

/// Writing the same target any number of times sends exactly one profile
/// when the first write is acted on, and none otherwise.
pub proof fn law_profile_idempotent(a: Asset, t: i64, n: nat)
    requires
        n >= 1,
    ensures
        repeated_writes(a, t, n).1 == if profile_emitted(setpoint_written(a, t)) { 1nat } else { 0nat },
    decreases n,
{
    let prev = repeated_writes(a, t, (n - 1) as nat);
    let w = setpoint_written(prev.0, t);
    assert(repeated_writes(a, t, n).1 == prev.1 + if profile_emitted(w) { 1nat } else { 0nat });
    if n > 1 {
        law_profile_idempotent(a, t, (n - 1) as nat);
        lemma_repeated_writes_frame(a, t, (n - 1) as nat);
        if profile_emitted(setpoint_written(a, t)) {
            assert(!profile_emitted(w));
        } else {
            assert(profile_emitted(w) == profile_emitted(setpoint_written(a, t)));
        }
    } else {
        assert(prev.0 == a);
        assert(prev.1 == 0);
    }
}

proof fn lemma_repeated_writes_frame(a: Asset, t: i64, n: nat)
    requires
        n >= 1,
    ensures
        ({
            let b = repeated_writes(a, t, n).0;
            &&& b.connection == a.connection
            &&& b.ocpp_config == a.ocpp_config
            &&& b.guns == a.guns
            &&& b.electrical == a.electrical
            &&& b.profile_behavior == a.profile_behavior
            &&& b.target.0 == t
            &&& profile_emitted(setpoint_written(a, t)) ==> b.last_applied.0 == t
            &&& !profile_emitted(setpoint_written(a, t)) ==> b.last_applied == a.last_applied
        }),
    decreases n,
{
    let prev = repeated_writes(a, t, (n - 1) as nat);
    let w = setpoint_written(prev.0, t);
    assert(repeated_writes(a, t, n).0 == profile_applied(w, profile_emitted(w)));
    if n > 1 {
        lemma_repeated_writes_frame(a, t, (n - 1) as nat);
        if profile_emitted(setpoint_written(a, t)) {
            assert(!profile_emitted(w));
        } else {
            assert(profile_emitted(w) == profile_emitted(setpoint_written(a, t)));
        }
    } else {
        assert(prev.0 == a);
    }
}

/// Every response the handler emits carries the message id and charge
/// point of a request it answers.
pub proof fn law_responses_echo_ids(assets: Seq<Asset>, reqs: Seq<DecodedOcppRequest>, now: Timestamp)
    ensures
        forall|i: int| 0 <= i < ocpp_responses(assets, reqs, now).len() ==> exists|j: int| 0 <= j < reqs.len()
            && (#[trigger] ocpp_responses(assets, reqs, now)[i]).ocpp_message_id == Some(reqs[j].request.ocpp_message_id@)
            && ocpp_responses(assets, reqs, now)[i].charge_point_id == reqs[j].request.charge_point_id@,
    decreases reqs.len(),
{
    if reqs.len() > 0 {
        let pre = reqs.drop_last();
        law_responses_echo_ids(assets, pre, now);
        let rs = ocpp_responses(assets, reqs, now);
        let prev = ocpp_responses(assets, pre, now);
        assert forall|i: int| 0 <= i < rs.len() implies exists|j: int| 0 <= j < reqs.len()
            && (#[trigger] rs[i]).ocpp_message_id == Some(reqs[j].request.ocpp_message_id@)
            && rs[i].charge_point_id == reqs[j].request.charge_point_id@ by {
            if i < prev.len() {
                assert(rs[i] == prev[i]);
                let j = choose|j: int| 0 <= j < pre.len()
                    && (#[trigger] prev[i]).ocpp_message_id == Some(pre[j].request.ocpp_message_id@)
                    && prev[i].charge_point_id == pre[j].request.charge_point_id@;
                assert(reqs[j] == pre[j]);
            } else {
                let last = reqs.len() - 1;
                assert(rs[i] == ocpp_response(assets, reqs[last], now)->0);
            }
        }
    }
}

/// The vendor initialization of a charger is due only once its generic
/// initialization is complete, and then the generic one is no longer due.
pub proof fn law_vendor_init_after_generic(a: Asset)
    ensures
        alfen_init_due(a) ==> a.generic_init == Some(GenericChargerInitializationStatus(GenericChargerInitProgress::Complete)),
        alfen_init_due(a) ==> !generic_init_due(a),
{
}

/// Setpoint writes raise no metering export.
pub proof fn law_setpoints_do_not_meter(assets: Seq<Asset>, msgs: Seq<BalancerSetpointMessage>)
    ensures
        changed_meterings(all_setpoints(assets, msgs)) == changed_meterings(assets),
    decreases assets.len(),
{
    let s = all_setpoints(assets, msgs);
    if assets.len() > 0 {
        law_setpoints_do_not_meter(assets.drop_last(), msgs);
        assert(s.drop_last() =~= all_setpoints(assets.drop_last(), msgs));
        lemma_setpoints_keep_id(assets.last(), msgs);
    }
}

/// Meter readings from Modbus responses raise no profile.
pub proof fn law_modbus_readings_do_not_profile(a: Asset, resps: Seq<ModbusResponse>)
    ensures
        profile_due(responses_applied(a, resps)) == profile_due(a),
{
    lemma_responses_keep_id(a, resps);
}

/// Meter readings from OCPP MeterValues raise no profile.
pub proof fn law_meter_values_do_not_profile(a: Asset, b: Asset, r: DecodedOcppRequest, now: Timestamp)
    requires
        r.payload is MeterValues,
        ocpp_frame(a, b),
        ocpp_dyn(b) == ocpp_step(a, ocpp_dyn(a), r, now),
    ensures
        profile_due(b) == profile_due(a),
{
}

/// Amps-mode limits are the per-phase current for the target, in
/// milliamps rounded down (so within 1e-3 A of the exact value), unless
/// saturated; watts-mode limits are the target itself. Negative targets
/// give zero.
pub proof fn law_limit_units(t: int, v: int, p: int)
    requires
        v > 0,
        p > 0,
    ensures
        rate_unit_text(EChargingRateUnit::Amps) == "A"@,
        rate_unit_text(EChargingRateUnit::Watts) == "W"@,
        t > 0 ==> limit_milli(EChargingRateUnit::Watts, t, v, p) == t,
        t <= 0 ==> limit_milli(EChargingRateUnit::Amps, t, v, p) == 0 && limit_milli(EChargingRateUnit::Watts, t, v, p) == 0,
        ({
            let l = limit_milli(EChargingRateUnit::Amps, t, v, p);
            t > 0 && l < i64::MAX ==> l * (v * p) <= t * 1000 < (l + 1) * (v * p)
        }),
{
    if t > 0 {
        let d = v * p;
        assert(d > 0) by (nonlinear_arith)
            requires
                v > 0,
                p > 0,
                d == v * p,
        ;
        let q = (t * 1000) / d;
        assert(q * d <= t * 1000 < (q + 1) * d) by (nonlinear_arith)
            requires
                d > 0,
                t > 0,
                q == (t * 1000) / d,
        ;
    }
}

/// A completed generic initialization stays complete across a tick, so no
/// generic command follows a vendor command for the same charger; within a
/// tick the generic commands precede the vendor ones.
pub proof fn law_generic_complete_stays(o: Orchestrator, input: TickInput, n: Orchestrator, out: TickOutput)
    requires
        tick_relation(o, input, n, out),
    ensures
        n.registry.assets@.len() == o.registry.assets@.len(),
        forall|i: int| 0 <= i < o.registry.assets@.len()
            && o.registry.assets@[i].generic_init == Some(GenericChargerInitializationStatus(GenericChargerInitProgress::Complete))
            ==> #[trigger] n.registry.assets@[i].generic_init == Some(GenericChargerInitializationStatus(GenericChargerInitProgress::Complete)),
{
    let h = choose|h: Seq<Asset>| tick_chain(o, input, n, out, h);
    assert(tick_chain(o, input, n, out, h));
    let a = o.registry.assets@;
    assert forall|i: int| 0 <= i < a.len()
        && a[i].generic_init == Some(GenericChargerInitializationStatus(GenericChargerInitProgress::Complete))
        implies #[trigger] n.registry.assets@[i].generic_init == Some(GenericChargerInitializationStatus(GenericChargerInitProgress::Complete)) by {
        let c = crate::tick::flags_cleared(a[i]);
        lemma_setpoints_keep_id(c, input.balancer_setpoints@);
        lemma_responses_keep_id(setpoints_applied(c, input.balancer_setpoints@), input.modbus_responses@);
        assert(crate::ocpp_handler::ocpp_handled(
            crate::tick::ingested(o, input)[i], h[i], input.ocpp_requests@, input.now));
    }
}

/// `m` occurs in the exports of `s` when asset `i` changed its reading.
proof fn lemma_changed_meterings_has(s: Seq<Asset>, i: int)
    requires
        0 <= i < s.len(),
        s[i].reading_changed,
    ensures
        exists|k: int| 0 <= k < changed_meterings(s).len() && #[trigger] changed_meterings(s)[k] == metering_of(s[i]),
    decreases s.len(),
{
    let prev = changed_meterings(s.drop_last());
    if i == s.len() - 1 {
        assert(changed_meterings(s)[prev.len() as int] == metering_of(s[i]));
    } else {
        lemma_changed_meterings_has(s.drop_last(), i);
        let k = choose|k: int| 0 <= k < prev.len() && #[trigger] prev[k] == metering_of(s.drop_last()[i]);
        assert(changed_meterings(s)[k] == prev[k]);
    }
}

/// A reading the OCPP handler wrote during a tick is exported by that tick
/// with the same values and external id.
pub proof fn law_meter_round_trip(o: Orchestrator, input: TickInput, n: Orchestrator, out: TickOutput)
    ensures
        forall|h: Seq<Asset>, i: int| tick_chain(o, input, n, out, h) && 0 <= i < h.len() && (#[trigger] h[i]).reading_changed
            ==> exists|k: int| 0 <= k < out.balancer_metering@.len() && {
                let m = #[trigger] out.balancer_metering@[k];
                &&& m.external_id == h[i].external_id.0
                &&& m.power_milliwatts == h[i].reading.power_milliwatts
                &&& m.energy_milliwatt_hours == h[i].reading.energy_milliwatt_hours
                &&& m.timestamp == h[i].reading.timestamp
            },
{
    assert forall|h: Seq<Asset>, i: int| tick_chain(o, input, n, out, h) && 0 <= i < h.len() && (#[trigger] h[i]).reading_changed
        implies exists|k: int| 0 <= k < out.balancer_metering@.len() && {
            let m = #[trigger] out.balancer_metering@[k];
            &&& m.external_id == h[i].external_id.0
            &&& m.power_milliwatts == h[i].reading.power_milliwatts
            &&& m.energy_milliwatt_hours == h[i].reading.energy_milliwatt_hours
            &&& m.timestamp == h[i].reading.timestamp
        } by {
        let fin = n.registry.assets@;
        assert(fin[i].reading == h[i].reading);
        assert(fin[i].reading_changed);
        assert(fin[i].external_id == h[i].external_id);
        lemma_changed_meterings_has(fin, i);
        let k = choose|k: int| 0 <= k < changed_meterings(fin).len() && #[trigger] changed_meterings(fin)[k] == metering_of(fin[i]);
        assert(out.balancer_metering@[k] == metering_of(fin[i]));
    }
}

} // verus!
