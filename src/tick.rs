//! The orchestrator and its tick: every stage, in a fixed order, over the
//! inputs that arrived since the previous tick.

use vstd::prelude::*;
use crate::balancer::{lemma_setpoints_keep_id, apply_setpoint_commands, export_metering_data, setpoints_applied, unknown_setpoint_diags, changed_meterings};
use crate::messages::{
    BalancerSetpointMessage, BalancerMeteringMessage, ModbusRequest, ModbusResponse,
    ModbusControlIntent, DecodedOcppRequest, OcppCommandToAsset, Diagnostic, command_views,
};
use crate::modbus::{
    ModbusPollTimer, modbus_poll_timer_system, schedule_modbus_requests_on_event, apply_modbus_responses,
    placeholder_modbus_control_system, responses_applied, lemma_responses_keep_id, unknown_response_diags, modbus_requests,
    control_applied, control_intents,
};
use crate::ocpp_handler::{ocpp_request_handler, ocpp_handled, ocpp_responses, ocpp_diags, ocpp_frame};
use crate::ocpp_init::{
    generic_ocpp_charger_initialization_system, alfen_special_init_system, generic_applied, generic_sent,
    generic_stage_commands, generic_stage_diags, alfen_applied, alfen_sent, alfen_stage_commands, alfen_stage_diags,
};
use crate::profile::{charger_control_to_ocpp_profile, profile_applied, profile_sent, profile_commands, profile_diags};
use crate::registry::{Asset, AssetRegistry, ids_unique, connectors_bounded, guns_of};
use crate::time::Timestamp;

verus! {

/// Default Modbus poll period.
pub const MODBUS_POLL_PERIOD_MS: u64 = 5_000;

/// The core: the registry, the poll timer and one message counter per
/// category of self-initiated command.
pub struct Orchestrator {
    pub registry: AssetRegistry,
    pub poll_timer: ModbusPollTimer,
    pub profile_counter: u64,
    pub generic_init_counter: u64,
    pub alfen_init_counter: u64,
}

/// What arrived since the previous tick, and the clock.
pub struct TickInput {
    pub now: Timestamp,
    pub elapsed_ms: u64,
    pub balancer_setpoints: Vec<BalancerSetpointMessage>,
    pub ocpp_requests: Vec<DecodedOcppRequest>,
    pub modbus_responses: Vec<ModbusResponse>,
}

/// What a tick emits.
pub struct TickOutput {
    pub ocpp_commands: Vec<OcppCommandToAsset>,
    pub balancer_metering: Vec<BalancerMeteringMessage>,
    pub modbus_requests: Vec<ModbusRequest>,
    pub modbus_control: Vec<ModbusControlIntent>,
    pub diagnostics: Vec<Diagnostic>,
}

/// An asset at the start of a tick: no change observed yet.
pub open spec fn flags_cleared(a: Asset) -> Asset {
    Asset { target_changed: false, reading_changed: false, ..a }
}

pub open spec fn all_cleared(s: Seq<Asset>) -> Seq<Asset> {
    Seq::new(s.len(), |i: int| flags_cleared(s[i]))
}

pub open spec fn all_setpoints(s: Seq<Asset>, m: Seq<BalancerSetpointMessage>) -> Seq<Asset> {
    Seq::new(s.len(), |i: int| setpoints_applied(s[i], m))
}

pub open spec fn all_responses(s: Seq<Asset>, r: Seq<ModbusResponse>) -> Seq<Asset> {
    Seq::new(s.len(), |i: int| responses_applied(s[i], r))
}

pub open spec fn all_generic(s: Seq<Asset>, c: nat) -> Seq<Asset> {
    Seq::new(s.len(), |i: int| generic_applied(s[i], generic_sent(s, i, c)))
}

pub open spec fn all_alfen(s: Seq<Asset>, c: nat) -> Seq<Asset> {
    Seq::new(s.len(), |i: int| alfen_applied(s[i], alfen_sent(s, i, c)))
}

pub open spec fn all_profiles(s: Seq<Asset>, c: nat, now: Timestamp) -> Seq<Asset> {
    Seq::new(s.len(), |i: int| profile_applied(s[i], profile_sent(s, i, c, now)))
}

pub open spec fn all_control(s: Seq<Asset>) -> Seq<Asset> {
    Seq::new(s.len(), |i: int| control_applied(s[i]))
}

/// The registry before the OCPP handler runs: flags cleared, then
/// setpoints and Modbus responses applied.
pub open spec fn ingested(o: Orchestrator, input: TickInput) -> Seq<Asset> {
    all_responses(all_setpoints(all_cleared(o.registry.assets@), input.balancer_setpoints@), input.modbus_responses@)
}

/// The tick, stage by stage, given the registry `h` after the OCPP handler.
pub open spec fn tick_chain(o: Orchestrator, input: TickInput, n: Orchestrator, out: TickOutput, h: Seq<Asset>) -> bool {
    let now = input.now;
    let s0 = all_cleared(o.registry.assets@);
    let s1 = all_setpoints(s0, input.balancer_setpoints@);
    let s2 = all_responses(s1, input.modbus_responses@);
    let s4 = all_generic(h, o.generic_init_counter as nat);
    let s5 = all_alfen(s4, o.alfen_init_counter as nat);
    let s6 = all_profiles(s5, o.profile_counter as nat, now);
    let fired = o.poll_timer.elapsed_ms + input.elapsed_ms >= o.poll_timer.period_ms;
    &&& h.len() == s2.len()
    &&& forall|i: int| 0 <= i < h.len() ==> #[trigger] ocpp_handled(s2[i], h[i], input.ocpp_requests@, now)
    &&& n.registry.assets@ == all_control(s6)
    &&& command_views(out.ocpp_commands@) == ocpp_responses(s2, input.ocpp_requests@, now)
        + generic_stage_commands(h, o.generic_init_counter as nat)
        + alfen_stage_commands(s4, o.alfen_init_counter as nat)
        + profile_commands(s5, o.profile_counter as nat, now)
    &&& n.generic_init_counter == o.generic_init_counter + generic_stage_commands(h, o.generic_init_counter as nat).len()
    &&& n.alfen_init_counter == o.alfen_init_counter + alfen_stage_commands(s4, o.alfen_init_counter as nat).len()
    &&& n.profile_counter == o.profile_counter + profile_commands(s5, o.profile_counter as nat, now).len()
    &&& n.poll_timer.period_ms == o.poll_timer.period_ms
    &&& n.poll_timer.elapsed_ms == (o.poll_timer.elapsed_ms + input.elapsed_ms) % (o.poll_timer.period_ms as int)
    &&& out.modbus_requests@ == if fired { modbus_requests(s5) } else { seq![] }
    &&& out.modbus_control@ == control_intents(s6)
    &&& out.balancer_metering@ == changed_meterings(n.registry.assets@)
    &&& out.diagnostics@ == unknown_setpoint_diags(s0, input.balancer_setpoints@)
        + unknown_response_diags(s1, input.modbus_responses@)
        + ocpp_diags(s2, input.ocpp_requests@)
        + generic_stage_diags(h, o.generic_init_counter as nat)
        + alfen_stage_diags(s4, o.alfen_init_counter as nat)
        + profile_diags(s5, o.profile_counter as nat, now)
}

/// The tick relates the orchestrator before and after it, and its output.
pub open spec fn tick_relation(o: Orchestrator, input: TickInput, n: Orchestrator, out: TickOutput) -> bool {
    exists|h: Seq<Asset>| tick_chain(o, input, n, out, h)
}

impl Orchestrator {
    pub open spec fn wf(&self) -> bool {
        self.registry.wf() && connectors_bounded(self.registry.assets@) && self.poll_timer.wf()
    }

    /// An orchestrator over a registry, polling Modbus every five seconds.
    pub fn new(registry: AssetRegistry) -> (r: Orchestrator)
        requires
            registry.wf(),
            connectors_bounded(registry.assets@),
        ensures
            r.wf(),
            r.registry == registry,
            r.poll_timer.period_ms == MODBUS_POLL_PERIOD_MS,
            r.poll_timer.elapsed_ms == 0,
            r.profile_counter == 0,
            r.generic_init_counter == 0,
            r.alfen_init_counter == 0,
    {
        Orchestrator {
            registry,
            poll_timer: ModbusPollTimer::new(MODBUS_POLL_PERIOD_MS),
            profile_counter: 0,
            generic_init_counter: 0,
            alfen_init_counter: 0,
        }
    }
}

fn clear_change_flags(registry: &mut AssetRegistry)
    ensures
        final(registry).assets@ == all_cleared(old(registry).assets@),
{
    let ghost orig = registry.assets@;
    let n = registry.assets.len();
    let mut i: usize = 0;
    while i < n
        invariant
            n == orig.len(),
            i <= n,
            registry.assets@.len() == n,
            forall|j: int| 0 <= j < i ==> #[trigger] registry.assets@[j] == flags_cleared(orig[j]),
            forall|j: int| i <= j < n ==> #[trigger] registry.assets@[j] == orig[j],
        decreases n - i,
    {
        registry.assets[i].target_changed = false;
        registry.assets[i].reading_changed = false;
        i = i + 1;
    }
    assert(registry.assets@ =~= all_cleared(orig));
}

/// Stages that keep every asset's id and connectors keep the registry
/// invariants.
proof fn lemma_keeps_invariants(a: Seq<Asset>, b: Seq<Asset>)
    requires
        a.len() == b.len(),
        ids_unique(a),
        connectors_bounded(a),
        forall|i: int| 0 <= i < a.len() ==> (#[trigger] b[i]).external_id == a[i].external_id
            && guns_of(b[i]).len() == guns_of(a[i]).len()
            && forall|j: int| 0 <= j < guns_of(a[i]).len() ==> (#[trigger] guns_of(b[i])[j]).connector_id == guns_of(a[i])[j].connector_id,
    ensures
        ids_unique(b),
        connectors_bounded(b),
{
    assert forall|i: int, j: int| 0 <= i < b.len() && 0 <= j < b.len() && i != j implies
        #[trigger] b[i].id() != #[trigger] b[j].id() by {
        assert(b[i].external_id == a[i].external_id);
        assert(b[j].external_id == a[j].external_id);
        assert(a[i].id() != a[j].id());
    }
    assert forall|i: int, j: int| 0 <= i < b.len() && 0 <= j < guns_of(b[i]).len() implies
        (#[trigger] guns_of(b[i])[j]).connector_id <= crate::registry::MAX_CONNECTOR_ID by {
        assert(b[i].external_id == a[i].external_id);
        assert(guns_of(b[i])[j].connector_id == guns_of(a[i])[j].connector_id);
        assert(guns_of(a[i])[j].connector_id <= crate::registry::MAX_CONNECTOR_ID);
    }
}

impl Orchestrator {
    /// Runs one tick: ingest setpoints and Modbus responses, handle OCPP
    /// requests, run generic then vendor initialization, advance the poll
    /// timer and request reads, emit profiles and Modbus control intents,
    /// and export the readings that changed.
    pub fn tick(&mut self, input: &TickInput) -> (out: TickOutput)
        requires
            old(self).wf(),
            input.now.wf(),
        ensures
            final(self).wf(),
            tick_relation(*old(self), *input, *final(self), out),
    {
        let ghost o = *self;
        let now = input.now;
        let mut out = TickOutput {
            ocpp_commands: Vec::new(),
            balancer_metering: Vec::new(),
            modbus_requests: Vec::new(),
            modbus_control: Vec::new(),
            diagnostics: Vec::new(),
        };
        clear_change_flags(&mut self.registry);
        let ghost s0 = self.registry.assets@;
        proof {
            lemma_keeps_invariants(o.registry.assets@, s0);
        }
        apply_setpoint_commands(&mut self.registry, &input.balancer_setpoints, &mut out.diagnostics);
        let ghost s1 = self.registry.assets@;
        assert(s1 =~= all_setpoints(s0, input.balancer_setpoints@));
        proof {
            assert forall|i: int| 0 <= i < s0.len() implies (#[trigger] s1[i]).external_id == s0[i].external_id
                && guns_of(s1[i]).len() == guns_of(s0[i]).len()
                && forall|j: int| 0 <= j < guns_of(s0[i]).len() ==> (#[trigger] guns_of(s1[i])[j]).connector_id == guns_of(s0[i])[j].connector_id by {
                lemma_setpoints_keep_id(s0[i], input.balancer_setpoints@);
            }
            lemma_keeps_invariants(s0, s1);
        }
        apply_modbus_responses(&mut self.registry, &input.modbus_responses, &mut out.diagnostics);
        let ghost s2 = self.registry.assets@;
        assert(s2 =~= all_responses(s1, input.modbus_responses@));
        proof {
            assert forall|i: int| 0 <= i < s1.len() implies (#[trigger] s2[i]).external_id == s1[i].external_id
                && guns_of(s2[i]).len() == guns_of(s1[i]).len()
                && forall|j: int| 0 <= j < guns_of(s1[i]).len() ==> (#[trigger] guns_of(s2[i])[j]).connector_id == guns_of(s1[i])[j].connector_id by {
                lemma_responses_keep_id(s1[i], input.modbus_responses@);
            }
            lemma_keeps_invariants(s1, s2);
        }
        ocpp_request_handler(&mut self.registry, &input.ocpp_requests, now, &mut out.ocpp_commands, &mut out.diagnostics);
        let ghost h = self.registry.assets@;
        proof {
            assert forall|i: int| 0 <= i < s2.len() implies (#[trigger] h[i]).external_id == s2[i].external_id
                && guns_of(h[i]).len() == guns_of(s2[i]).len()
                && forall|j: int| 0 <= j < guns_of(s2[i]).len() ==> (#[trigger] guns_of(h[i])[j]).connector_id == guns_of(s2[i])[j].connector_id by {
                assert(ocpp_handled(s2[i], h[i], input.ocpp_requests@, now));
                assert(ocpp_frame(s2[i], h[i]));
            }
            lemma_keeps_invariants(s2, h);
        }
        let ghost v_resp = command_views(out.ocpp_commands@);
        generic_ocpp_charger_initialization_system(&mut self.registry, &mut self.generic_init_counter, &mut out.ocpp_commands, &mut out.diagnostics);
        let ghost s4 = self.registry.assets@;
        assert(s4 =~= all_generic(h, o.generic_init_counter as nat));
        proof {
            lemma_keeps_invariants(h, s4);
        }
        alfen_special_init_system(&mut self.registry, &mut self.alfen_init_counter, &mut out.ocpp_commands, &mut out.diagnostics);
        let ghost s5 = self.registry.assets@;
        assert(s5 =~= all_alfen(s4, o.alfen_init_counter as nat));
        proof {
            lemma_keeps_invariants(s4, s5);
        }
        let fired = modbus_poll_timer_system(&mut self.poll_timer, input.elapsed_ms);
        if fired {
            schedule_modbus_requests_on_event(&self.registry, &mut out.modbus_requests);
        }
        assert(out.modbus_requests@ =~= if fired { modbus_requests(s5) } else { seq![] });
        charger_control_to_ocpp_profile(&mut self.registry, now, &mut self.profile_counter, &mut out.ocpp_commands, &mut out.diagnostics);
        let ghost s6 = self.registry.assets@;
        assert(s6 =~= all_profiles(s5, o.profile_counter as nat, now));
        proof {
            lemma_keeps_invariants(s5, s6);
        }
        placeholder_modbus_control_system(&mut self.registry, &mut out.modbus_control);
        assert(self.registry.assets@ =~= all_control(s6));
        assert(out.modbus_control@ =~= control_intents(s6));
        proof {
            lemma_keeps_invariants(s6, self.registry.assets@);
        }
        export_metering_data(&self.registry, &mut out.balancer_metering);
        assert(out.balancer_metering@ =~= changed_meterings(self.registry.assets@));
        assert(command_views(out.ocpp_commands@) =~= ocpp_responses(s2, input.ocpp_requests@, now)
            + generic_stage_commands(h, o.generic_init_counter as nat)
            + alfen_stage_commands(s4, o.alfen_init_counter as nat)
            + profile_commands(s5, o.profile_counter as nat, now));
        assert(out.diagnostics@ =~= unknown_setpoint_diags(s0, input.balancer_setpoints@)
            + unknown_response_diags(s1, input.modbus_responses@)
            + ocpp_diags(s2, input.ocpp_requests@)
            + generic_stage_diags(h, o.generic_init_counter as nat)
            + alfen_stage_diags(s4, o.alfen_init_counter as nat)
            + profile_diags(s5, o.profile_counter as nat, now));
        assert(tick_chain(o, *input, *self, out, h));
        out
    }
}

} // verus!
