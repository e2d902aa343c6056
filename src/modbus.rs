//! Modbus poller, response ingestion and battery control intents.

use vstd::prelude::*;
use crate::common::EMeteringDataSource;
use crate::components::{CurrentMeterReading, LastAppliedSetpointKw, MeteringSourceDetails};
use crate::messages::{ModbusRequest, ModbusResponse, ModbusControlIntent, Diagnostic, DiagnosticKind};
use crate::registry::{Asset, AssetRegistry, has_id, ids_unique};

verus! {

/// A repeating timer that paces Modbus polls.
pub struct ModbusPollTimer {
    pub period_ms: u64,
    pub elapsed_ms: u64,
}

impl ModbusPollTimer {
    pub open spec fn wf(&self) -> bool {
        self.period_ms > 0 && self.elapsed_ms < self.period_ms
    }

    /// A timer that fires every `period_ms` milliseconds.
    pub fn new(period_ms: u64) -> (r: ModbusPollTimer)
        requires
            period_ms > 0,
        ensures
            r.wf(),
            r.period_ms == period_ms,
            r.elapsed_ms == 0,
    {
        ModbusPollTimer { period_ms, elapsed_ms: 0 }
    }
}

/// Advances the poll timer by `delta_ms`; true when a period ended.
pub fn modbus_poll_timer_system(timer: &mut ModbusPollTimer, delta_ms: u64) -> (fired: bool)
    requires
        old(timer).wf(),
    ensures
        final(timer).wf(),
        final(timer).period_ms == old(timer).period_ms,
        final(timer).elapsed_ms == (old(timer).elapsed_ms + delta_ms) % (old(timer).period_ms as int),
        fired == (old(timer).elapsed_ms + delta_ms >= old(timer).period_ms),
{
    let total: u128 = timer.elapsed_ms as u128 + delta_ms as u128;
    let p = timer.period_ms as u128;
    let fired = total >= p;
    let rest = total % p;
    assert(rest < p) by (nonlinear_arith)
        requires
            p > 0,
            rest == total % p,
    ;
    timer.elapsed_ms = rest as u64;
    fired
}

/// The register map of an asset metered over Modbus.
pub open spec fn modbus_key(a: Asset) -> Option<String> {
    match a.metering_source {
        Some(ms) => if ms.source_type == EMeteringDataSource::Modbus {
            match ms.details {
                Some(MeteringSourceDetails::Modbus { register_map_key, .. }) => Some(register_map_key),
                _ => None,
            }
        } else {
            None
        },
        None => None,
    }
}

/// One read request per Modbus-metered asset, in registry order.
pub open spec fn modbus_requests(assets: Seq<Asset>) -> Seq<ModbusRequest>
    decreases assets.len(),
{
    if assets.len() == 0 {
        seq![]
    } else {
        let prev = modbus_requests(assets.drop_last());
        match modbus_key(assets.last()) {
            Some(k) => prev.push(ModbusRequest { external_id: assets.last().external_id.0, register_map_key: k }),
            None => prev,
        }
    }
}

/// On a poll, asks for a read of every asset metered over Modbus.
pub fn schedule_modbus_requests_on_event(registry: &AssetRegistry, out: &mut Vec<ModbusRequest>)
    ensures
        final(out)@ == old(out)@ + modbus_requests(registry.assets@),
{
    let mut i: usize = 0;
    while i < registry.assets.len()
        invariant
            i <= registry.assets@.len(),
            out@ == old(out)@ + modbus_requests(registry.assets@.subrange(0, i as int)),
        decreases registry.assets@.len() - i,
    {
        assert(registry.assets@.subrange(0, i + 1).drop_last() =~= registry.assets@.subrange(0, i as int));
        let a = &registry.assets[i];
        match &a.metering_source {
            Some(ms) => {
                let is_modbus = match ms.source_type {
                    EMeteringDataSource::Modbus => true,
                    _ => false,
                };
                if is_modbus {
                    match &ms.details {
                        Some(MeteringSourceDetails::Modbus { register_map_key, .. }) => {
                            out.push(ModbusRequest::new(a.external_id.0.clone(), register_map_key.clone()));
                        },
                        _ => {},
                    }
                }
            },
            None => {},
        }
        i = i + 1;
    }
    assert(registry.assets@.subrange(0, registry.assets@.len() as int) =~= registry.assets@);
}

/// An asset after the responses addressed to it, among `resps`, overwrote
/// its reading in order.
pub open spec fn responses_applied(a: Asset, resps: Seq<ModbusResponse>) -> Asset
    decreases resps.len(),
{
    if resps.len() == 0 {
        a
    } else {
        let prev = responses_applied(a, resps.drop_last());
        let r = resps.last();
        if r.external_id@ == a.id() {
            Asset {
                reading: CurrentMeterReading {
                    power_milliwatts: r.power_milliwatts,
                    energy_milliwatt_hours: r.energy_milliwatt_hours,
                    timestamp: r.timestamp,
                },
                reading_changed: true,
                ..prev
            }
        } else {
            prev
        }
    }
}

/// One warning per response that names no asset, in order.
pub open spec fn unknown_response_diags(assets: Seq<Asset>, resps: Seq<ModbusResponse>) -> Seq<Diagnostic>
    decreases resps.len(),
{
    if resps.len() == 0 {
        seq![]
    } else {
        let prev = unknown_response_diags(assets, resps.drop_last());
        if has_id(assets, resps.last().external_id@) {
            prev
        } else {
            prev.push(Diagnostic { kind: DiagnosticKind::UnknownModbusSource, subject: resps.last().external_id })
        }
    }
}

/// Modbus responses touch only the reading and its flag.
pub proof fn lemma_responses_keep_id(a: Asset, resps: Seq<ModbusResponse>)
    ensures
        responses_applied(a, resps) == (Asset {
            reading: responses_applied(a, resps).reading,
            reading_changed: responses_applied(a, resps).reading_changed,
            ..a
        }),
        responses_applied(a, resps).external_id == a.external_id,
        responses_applied(a, resps).guns == a.guns,
    decreases resps.len(),
{
    if resps.len() > 0 {
        lemma_responses_keep_id(a, resps.drop_last());
    }
}

/// Overwrites the reading of the asset each response names; responses for
/// unknown assets are reported and dropped.
pub fn apply_modbus_responses(registry: &mut AssetRegistry, resps: &Vec<ModbusResponse>, diags: &mut Vec<Diagnostic>)
    requires
        old(registry).wf(),
    ensures
        final(registry).assets@.len() == old(registry).assets@.len(),
        forall|i: int| 0 <= i < old(registry).assets@.len() ==>
            #[trigger] final(registry).assets@[i] == responses_applied(old(registry).assets@[i], resps@),
        final(diags)@ == old(diags)@ + unknown_response_diags(old(registry).assets@, resps@),
        forall|i: int| 0 <= i < old(registry).assets@.len() ==> {
            &&& (#[trigger] final(registry).assets@[i]).target == old(registry).assets@[i].target
            &&& final(registry).assets@[i].target_changed == old(registry).assets@[i].target_changed
            &&& final(registry).assets@[i].last_applied == old(registry).assets@[i].last_applied
        },
{
    let ghost orig = registry.assets@;
    let mut k: usize = 0;
    while k < resps.len()
        invariant
            k <= resps@.len(),
            registry.assets@.len() == orig.len(),
            ids_unique(orig),
            forall|i: int| 0 <= i < orig.len() ==>
                #[trigger] registry.assets@[i] == responses_applied(orig[i], resps@.subrange(0, k as int)),
            diags@ == old(diags)@ + unknown_response_diags(orig, resps@.subrange(0, k as int)),
        decreases resps@.len() - k,
    {
        let ghost before = registry.assets@;
        let ghost pre = resps@.subrange(0, k as int);
        let ghost post = resps@.subrange(0, k + 1);
        assert(post.drop_last() =~= pre);
        assert forall|i: int| 0 <= i < orig.len() implies #[trigger] orig[i].id() == before[i].id() by {
            lemma_responses_keep_id(orig[i], pre);
        }
        assert(registry.wf());
        let r = &resps[k];
        match registry.by_id(r.external_id.as_str()) {
            Some(i) => {
                registry.assets[i].reading = CurrentMeterReading {
                    power_milliwatts: r.power_milliwatts,
                    energy_milliwatt_hours: r.energy_milliwatt_hours,
                    timestamp: r.timestamp,
                };
                registry.assets[i].reading_changed = true;
                assert forall|j: int| 0 <= j < orig.len() implies
                    #[trigger] registry.assets@[j] == responses_applied(orig[j], post) by {
                    if j != i {
                        assert(before[j].id() != before[i as int].id());
                    }
                }
                assert(has_id(orig, r.external_id@)) by {
                    assert(orig[i as int].id() == r.external_id@);
                }
            },
            None => {
                assert(!has_id(orig, r.external_id@)) by {
                    if has_id(orig, r.external_id@) {
                        let w = choose|w: int| 0 <= w < orig.len() && #[trigger] orig[w].id() == r.external_id@;
                        assert(before[w].id() == r.external_id@);
                    }
                }
                diags.push(Diagnostic { kind: DiagnosticKind::UnknownModbusSource, subject: r.external_id.clone() });
                assert forall|j: int| 0 <= j < orig.len() implies
                    #[trigger] registry.assets@[j] == responses_applied(orig[j], post) by {
                    assert(before[j].id() != r.external_id@);
                }
            },
        }
        k = k + 1;
    }
    assert(resps@.subrange(0, resps@.len() as int) =~= resps@);
    assert forall|i: int| 0 <= i < orig.len() implies {
        &&& (#[trigger] registry.assets@[i]).target == orig[i].target
        &&& registry.assets@[i].target_changed == orig[i].target_changed
        &&& registry.assets@[i].last_applied == orig[i].last_applied
    } by {
        lemma_responses_keep_id(orig[i], resps@);
    }
}

/// A battery whose target changed this tick and that has a Modbus endpoint.
pub open spec fn control_due(a: Asset) -> bool {
    a.target_changed && a.modbus_control is Some
}

/// The control intent for a battery's target.
pub open spec fn control_intent_of(a: Asset) -> ModbusControlIntent {
    let c = a.modbus_control->0;
    ModbusControlIntent {
        external_id: a.external_id.0,
        ip: c.ip,
        port: c.port,
        unit_id: c.unit_id,
        target_power_milliwatts: a.target.0,
    }
}

/// One control intent per due battery, in registry order.
pub open spec fn control_intents(assets: Seq<Asset>) -> Seq<ModbusControlIntent>
    decreases assets.len(),
{
    if assets.len() == 0 {
        seq![]
    } else {
        let prev = control_intents(assets.drop_last());
        if control_due(assets.last()) {
            prev.push(control_intent_of(assets.last()))
        } else {
            prev
        }
    }
}

/// A battery after its intent was recorded: the target is applied.
pub open spec fn control_applied(a: Asset) -> Asset {
    if control_due(a) {
        Asset { last_applied: LastAppliedSetpointKw(a.target.0), ..a }
    } else {
        a
    }
}

/// Records a write intent for every battery whose target changed and marks
/// the target applied.
pub fn placeholder_modbus_control_system(registry: &mut AssetRegistry, out: &mut Vec<ModbusControlIntent>)
    ensures
        final(registry).assets@.len() == old(registry).assets@.len(),
        forall|i: int| 0 <= i < old(registry).assets@.len() ==>
            #[trigger] final(registry).assets@[i] == control_applied(old(registry).assets@[i]),
        final(out)@ == old(out)@ + control_intents(old(registry).assets@),
{
    let ghost orig = registry.assets@;
    let n = registry.assets.len();
    let mut i: usize = 0;
    while i < n
        invariant
            n == orig.len(),
            i <= n,
            registry.assets@.len() == n,
            forall|j: int| 0 <= j < i ==> #[trigger] registry.assets@[j] == control_applied(orig[j]),
            forall|j: int| i <= j < n ==> #[trigger] registry.assets@[j] == orig[j],
            out@ == old(out)@ + control_intents(orig.subrange(0, i as int)),
        decreases n - i,
    {
        assert(orig.subrange(0, i + 1).drop_last() =~= orig.subrange(0, i as int));
        let a = &registry.assets[i];
        if a.target_changed {
            match &a.modbus_control {
                Some(c) => {
                    let target = a.target.0;
                    out.push(ModbusControlIntent {
                        external_id: a.external_id.0.clone(),
                        ip: c.ip.clone(),
                        port: c.port,
                        unit_id: c.unit_id,
                        target_power_milliwatts: target,
                    });
                    registry.assets[i].last_applied = LastAppliedSetpointKw(target);
                },
                None => {},
            }
        }
        i = i + 1;
    }
    assert(orig.subrange(0, n as int) =~= orig);
}

} // verus!
