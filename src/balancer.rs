//! Balancer adapter: setpoints in, metering out.

use vstd::prelude::*;
use crate::components::TargetPowerSetpointKw;
use crate::messages::{BalancerSetpointMessage, BalancerMeteringMessage, Diagnostic, DiagnosticKind};
use crate::registry::{Asset, AssetRegistry, has_id, ids_unique};

verus! {

/// An asset after a setpoint write: the target holds the value and its
/// change flag is raised, whatever the previous value was.
pub open spec fn setpoint_written(a: Asset, target_milliwatts: i64) -> Asset {
    Asset { target: TargetPowerSetpointKw(target_milliwatts), target_changed: true, ..a }
}

/// An asset after the setpoints addressed to it, among `msgs`, were written
/// in order.
pub open spec fn setpoints_applied(a: Asset, msgs: Seq<BalancerSetpointMessage>) -> Asset
    decreases msgs.len(),
{
    if msgs.len() == 0 {
        a
    } else {
        let prev = setpoints_applied(a, msgs.drop_last());
        if msgs.last().external_id@ == a.id() {
            setpoint_written(prev, msgs.last().target_power_milliwatts)
        } else {
            prev
        }
    }
}

/// One warning per setpoint that names no asset, in order.
pub open spec fn unknown_setpoint_diags(assets: Seq<Asset>, msgs: Seq<BalancerSetpointMessage>) -> Seq<Diagnostic>
    decreases msgs.len(),
{
    if msgs.len() == 0 {
        seq![]
    } else {
        let prev = unknown_setpoint_diags(assets, msgs.drop_last());
        if has_id(assets, msgs.last().external_id@) {
            prev
        } else {
            prev.push(Diagnostic { kind: DiagnosticKind::UnknownSetpointTarget, subject: msgs.last().external_id })
        }
    }
}

/// Writes each setpoint to the asset it names; setpoints for unknown assets
/// are reported and dropped.
pub fn apply_setpoint_commands(
    registry: &mut AssetRegistry,
    msgs: &Vec<BalancerSetpointMessage>,
    diags: &mut Vec<Diagnostic>,
)
    requires
        old(registry).wf(),
    ensures
        final(registry).wf(),
        final(registry).assets@.len() == old(registry).assets@.len(),
        forall|i: int| 0 <= i < old(registry).assets@.len() ==>
            #[trigger] final(registry).assets@[i] == setpoints_applied(old(registry).assets@[i], msgs@),
        final(diags)@ == old(diags)@ + unknown_setpoint_diags(old(registry).assets@, msgs@),
        forall|i: int| 0 <= i < old(registry).assets@.len() ==>
            (#[trigger] final(registry).assets@[i]).reading == old(registry).assets@[i].reading
                && final(registry).assets@[i].reading_changed == old(registry).assets@[i].reading_changed,
{
    let ghost orig = registry.assets@;
    let mut k: usize = 0;
    while k < msgs.len()
        invariant
            k <= msgs@.len(),
            registry.assets@.len() == orig.len(),
            ids_unique(orig),
            forall|i: int| 0 <= i < orig.len() ==>
                #[trigger] registry.assets@[i] == setpoints_applied(orig[i], msgs@.subrange(0, k as int)),
            diags@ == old(diags)@ + unknown_setpoint_diags(orig, msgs@.subrange(0, k as int)),
        decreases msgs@.len() - k,
    {
        let ghost before = registry.assets@;
        let ghost pre = msgs@.subrange(0, k as int);
        let ghost post = msgs@.subrange(0, k + 1);
        assert(post.drop_last() =~= pre);
        assert forall|i: int| 0 <= i < orig.len() implies #[trigger] orig[i].id() == before[i].id() by {
            lemma_setpoints_keep_id(orig[i], pre);
        }
        assert(registry.wf());
        let msg = &msgs[k];
        match registry.by_id(msg.external_id.as_str()) {
            Some(i) => {
                registry.assets[i].target = TargetPowerSetpointKw(msg.target_power_milliwatts);
                registry.assets[i].target_changed = true;
                assert forall|j: int| 0 <= j < orig.len() implies
                    #[trigger] registry.assets@[j] == setpoints_applied(orig[j], post) by {
                    if j != i {
                        assert(before[j].id() != before[i as int].id());
                    }
                }
                assert(has_id(orig, msg.external_id@)) by {
                    assert(orig[i as int].id() == msg.external_id@);
                }
            },
            None => {
                assert(!has_id(orig, msg.external_id@)) by {
                    if has_id(orig, msg.external_id@) {
                        let w = choose|w: int| 0 <= w < orig.len() && #[trigger] orig[w].id() == msg.external_id@;
                        assert(before[w].id() == msg.external_id@);
                    }
                }
                diags.push(Diagnostic { kind: DiagnosticKind::UnknownSetpointTarget, subject: msg.external_id.clone() });
                assert forall|j: int| 0 <= j < orig.len() implies
                    #[trigger] registry.assets@[j] == setpoints_applied(orig[j], post) by {
                    assert(before[j].id() != msg.external_id@);
                }
            },
        }
        k = k + 1;
    }
    assert(msgs@.subrange(0, msgs@.len() as int) =~= msgs@);
    assert forall|i: int| 0 <= i < orig.len() implies #[trigger] orig[i].id() == registry.assets@[i].id()
        && registry.assets@[i].reading == orig[i].reading
        && registry.assets@[i].reading_changed == orig[i].reading_changed by {
        lemma_setpoints_keep_id(orig[i], msgs@);
    }
}

/// Setpoint writes touch only the target and its flag.
pub proof fn lemma_setpoints_keep_id(a: Asset, msgs: Seq<BalancerSetpointMessage>)
    ensures
        setpoints_applied(a, msgs) == (Asset {
            target: setpoints_applied(a, msgs).target,
            target_changed: setpoints_applied(a, msgs).target_changed,
            ..a
        }),
        setpoints_applied(a, msgs).external_id == a.external_id,
        setpoints_applied(a, msgs).reading_changed == a.reading_changed,
        setpoints_applied(a, msgs).reading == a.reading,
    decreases msgs.len(),
{
    if msgs.len() > 0 {
        lemma_setpoints_keep_id(a, msgs.drop_last());
    }
}

/// The metering message for an asset's current reading.
pub open spec fn metering_of(a: Asset) -> BalancerMeteringMessage {
    BalancerMeteringMessage {
        external_id: a.external_id.0,
        power_milliwatts: a.reading.power_milliwatts,
        energy_milliwatt_hours: a.reading.energy_milliwatt_hours,
        timestamp: a.reading.timestamp,
    }
}

/// One metering message per asset whose reading changed, in registry order.
pub open spec fn changed_meterings(assets: Seq<Asset>) -> Seq<BalancerMeteringMessage>
    decreases assets.len(),
{
    if assets.len() == 0 {
        seq![]
    } else {
        let prev = changed_meterings(assets.drop_last());
        if assets.last().reading_changed {
            prev.push(metering_of(assets.last()))
        } else {
            prev
        }
    }
}

/// `m` is the export of an asset whose reading changed.
pub open spec fn exported_from_changed(assets: Seq<Asset>, m: BalancerMeteringMessage) -> bool {
    exists|i: int| 0 <= i < assets.len() && assets[i].reading_changed && m == metering_of(#[trigger] assets[i])
}

/// Every export is the reading of an asset whose reading changed.
pub proof fn lemma_meterings_from_changed(assets: Seq<Asset>)
    ensures
        forall|k: int| 0 <= k < changed_meterings(assets).len() ==>
            #[trigger] exported_from_changed(assets, changed_meterings(assets)[k]),
    decreases assets.len(),
{
    if assets.len() > 0 {
        let pre = assets.drop_last();
        lemma_meterings_from_changed(pre);
        let c = changed_meterings(assets);
        let p = changed_meterings(pre);
        assert forall|k: int| 0 <= k < c.len() implies #[trigger] exported_from_changed(assets, c[k]) by {
            if k < p.len() {
                assert(exported_from_changed(pre, p[k]));
                let i = choose|i: int| 0 <= i < pre.len() && pre[i].reading_changed && p[k] == metering_of(#[trigger] pre[i]);
                assert(assets[i] == pre[i]);
                assert(c[k] == p[k]);
            } else {
                let last = assets.len() - 1;
                assert(c[k] == metering_of(assets[last]));
            }
        }
    }
}

/// Emits the reading of every asset whose reading changed this tick, and of
/// no other asset.
pub fn export_metering_data(registry: &AssetRegistry, out: &mut Vec<BalancerMeteringMessage>)
    ensures
        final(out)@ == old(out)@ + changed_meterings(registry.assets@),
        forall|k: int| old(out)@.len() <= k < final(out)@.len() ==>
            #[trigger] exported_from_changed(registry.assets@, final(out)@[k]),
{
    proof {
        lemma_meterings_from_changed(registry.assets@);
    }
    let mut i: usize = 0;
    while i < registry.assets.len()
        invariant
            i <= registry.assets@.len(),
            out@ == old(out)@ + changed_meterings(registry.assets@.subrange(0, i as int)),
        decreases registry.assets@.len() - i,
    {
        let a = &registry.assets[i];
        assert(registry.assets@.subrange(0, i + 1).drop_last() =~= registry.assets@.subrange(0, i as int));
        if a.reading_changed {
            out.push(BalancerMeteringMessage {
                external_id: a.external_id.0.clone(),
                power_milliwatts: a.reading.power_milliwatts,
                energy_milliwatt_hours: a.reading.energy_milliwatt_hours,
                timestamp: a.reading.timestamp,
            });
        }
        i = i + 1;
    }
    assert(registry.assets@.subrange(0, registry.assets@.len() as int) =~= registry.assets@);
    assert forall|k: int| old(out)@.len() <= k < out@.len() implies
        #[trigger] exported_from_changed(registry.assets@, out@[k]) by {
        let c = changed_meterings(registry.assets@);
        assert(out@[k] == c[k - old(out)@.len()]);
        assert(exported_from_changed(registry.assets@, c[k - old(out)@.len()]));
    }
}

} // verus!
