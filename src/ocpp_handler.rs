//! OCPP request handler: applies BootNotification, StatusNotification and
//! MeterValues to the charger that sent them and answers each with the
//! request's message id.

use vstd::prelude::*;
use crate::common::{EOperationalStatus, EMeteringDataSource};
use crate::components::CurrentMeterReading;
use crate::messages::{
    OcppCommandToAsset, CommandView, Diagnostic, DiagnosticKind, DecodedOcppRequest,
    InboundOcppPayload, command_views, lemma_command_views_push,
};
use crate::meter::{samples_applied, apply_sampled_values};
use crate::ocpp_components::{OcppConnectionState, EGunStatusOcpp, Gun};
use crate::ocpp_types::{
    EOutgoingOcppMessage, BootNotificationConfPayload, RegistrationStatus, StatusNotificationReqPayload,
    StatusNotificationConfPayload, MeterValuesConfPayload, MessageView,
};
use crate::registry::{Asset, AssetRegistry, ids_unique, guns_of};
use crate::text::text_eq;
use crate::time::{Timestamp, rfc3339_of_millis, format_rfc3339};

verus! {

/// The connector status an OCPP status text names, if it names one.
pub open spec fn gun_status_named(s: Seq<char>) -> Option<EGunStatusOcpp> {
    if s == "Available"@ {
        Some(EGunStatusOcpp::Available)
    } else if s == "Preparing"@ {
        Some(EGunStatusOcpp::Preparing)
    } else if s == "Charging"@ {
        Some(EGunStatusOcpp::Charging)
    } else if s == "SuspendedEV"@ {
        Some(EGunStatusOcpp::SuspendedEV)
    } else if s == "SuspendedEVSE"@ {
        Some(EGunStatusOcpp::SuspendedEVSE)
    } else if s == "Finishing"@ {
        Some(EGunStatusOcpp::Finishing)
    } else if s == "Reserved"@ {
        Some(EGunStatusOcpp::Reserved)
    } else if s == "Unavailable"@ {
        Some(EGunStatusOcpp::Unavailable)
    } else if s == "Faulted"@ {
        Some(EGunStatusOcpp::Faulted)
    } else {
        None
    }
}

/// The connector status for an OCPP status text; unknown texts mean
/// `Unavailable`.
pub open spec fn gun_status_of(s: Seq<char>) -> EGunStatusOcpp {
    match gun_status_named(s) {
        Some(g) => g,
        None => EGunStatusOcpp::Unavailable,
    }
}

/// Recognizes an OCPP status text.
pub fn parse_gun_status(status: &str) -> (r: Option<EGunStatusOcpp>)
    ensures
        r == gun_status_named(status@),
{
    if text_eq(status, "Available") {
        Some(EGunStatusOcpp::Available)
    } else if text_eq(status, "Preparing") {
        Some(EGunStatusOcpp::Preparing)
    } else if text_eq(status, "Charging") {
        Some(EGunStatusOcpp::Charging)
    } else if text_eq(status, "SuspendedEV") {
        Some(EGunStatusOcpp::SuspendedEV)
    } else if text_eq(status, "SuspendedEVSE") {
        Some(EGunStatusOcpp::SuspendedEVSE)
    } else if text_eq(status, "Finishing") {
        Some(EGunStatusOcpp::Finishing)
    } else if text_eq(status, "Reserved") {
        Some(EGunStatusOcpp::Reserved)
    } else if text_eq(status, "Unavailable") {
        Some(EGunStatusOcpp::Unavailable)
    } else if text_eq(status, "Faulted") {
        Some(EGunStatusOcpp::Faulted)
    } else {
        None
    }
}

/// Translates an OCPP status text into a connector status.
pub fn map_status_to_gun_status(status: &str) -> (r: EGunStatusOcpp)
    ensures
        r == gun_status_of(status@),
{
    match parse_gun_status(status) {
        Some(g) => g,
        None => EGunStatusOcpp::Unavailable,
    }
}

/// An asset that takes OCPP requests: it has a connection state and guns.
pub open spec fn ocpp_peer(a: Asset) -> bool {
    a.connection is Some && a.guns is Some
}

/// Whether an asset's readings come over OCPP.
pub open spec fn metered_by_ocpp(a: Asset) -> bool {
    a.metering_source is Some && a.metering_source->0.source_type == EMeteringDataSource::Ocpp
}

/// Whether the charger with this id takes OCPP requests.
pub open spec fn has_peer(assets: Seq<Asset>, id: Seq<char>) -> bool {
    exists|i: int| 0 <= i < assets.len() && #[trigger] assets[i].id() == id && ocpp_peer(assets[i])
}

/// `k` is the first gun with the connector id.
pub open spec fn is_first_connector(g: Seq<Gun>, cid: u32, k: int) -> bool {
    &&& 0 <= k < g.len()
    &&& g[k].connector_id == cid
    &&& forall|j: int| 0 <= j < k ==> #[trigger] g[j].connector_id != cid
}

/// Index of the first gun with the connector id, or -1.
pub open spec fn first_connector(g: Seq<Gun>, cid: u32) -> int {
    if exists|k: int| is_first_connector(g, cid, k) {
        choose|k: int| is_first_connector(g, cid, k)
    } else {
        -1
    }
}

proof fn lemma_first_connector(g: Seq<Gun>, cid: u32, k: int)
    requires
        is_first_connector(g, cid, k),
    ensures
        first_connector(g, cid) == k,
{
    let c = choose|k: int| is_first_connector(g, cid, k);
    assert(is_first_connector(g, cid, c));
    if c < k {
        assert(g[c].connector_id != cid);
    } else if c > k {
        assert(g[k].connector_id != cid);
    }
}

/// The parts of a charger that OCPP requests change.
pub struct OcppDyn {
    pub status: EOperationalStatus,
    pub reading: CurrentMeterReading,
    pub connection: Option<OcppConnectionState>,
    pub reading_changed: bool,
    pub guns: Seq<Gun>,
}

pub open spec fn ocpp_dyn(a: Asset) -> OcppDyn {
    OcppDyn {
        status: a.status,
        reading: a.reading,
        connection: a.connection,
        reading_changed: a.reading_changed,
        guns: guns_of(a),
    }
}

/// `new` differs from `old` at most in what OCPP requests change, and its
/// guns are the same connectors.
pub open spec fn ocpp_frame(old: Asset, new: Asset) -> bool {
    &&& new == Asset {
        status: new.status,
        reading: new.reading,
        connection: new.connection,
        reading_changed: new.reading_changed,
        guns: new.guns,
        ..old
    }
    &&& (new.guns is Some <==> old.guns is Some)
    &&& (new.connection is Some <==> old.connection is Some)
    &&& guns_of(new).len() == guns_of(old).len()
    &&& forall|j: int| 0 <= j < guns_of(old).len() ==>
        (#[trigger] guns_of(new)[j]).connector_id == guns_of(old)[j].connector_id
            && guns_of(new)[j].gun_id == guns_of(old)[j].gun_id
}

/// Operational status after a whole-charger status notification: faulted
/// on a fault or an error code, back online from a fault otherwise.
pub open spec fn charger_status_after(current: EOperationalStatus, g: EGunStatusOcpp, error_code: Seq<char>) -> EOperationalStatus {
    if g == EGunStatusOcpp::Faulted || error_code != "NoError"@ {
        EOperationalStatus::Faulted
    } else if current == EOperationalStatus::Faulted {
        EOperationalStatus::Online
    } else {
        current
    }
}

/// The effect of a StatusNotification: connector 0 sets every gun and the
/// charger's status, another connector sets its first gun.
pub open spec fn status_step(d: OcppDyn, p: StatusNotificationReqPayload) -> OcppDyn {
    let g = gun_status_of(p.status@);
    if p.connector_id == 0 {
        OcppDyn {
            status: charger_status_after(d.status, g, p.error_code@),
            guns: d.guns.map_values(|x: Gun| Gun { status: g, ..x }),
            ..d
        }
    } else {
        let k = first_connector(d.guns, p.connector_id);
        if k >= 0 {
            OcppDyn { guns: d.guns.update(k, Gun { status: g, ..d.guns[k] }), ..d }
        } else {
            d
        }
    }
}

/// The effect of one request on the charger `a` it addresses.
pub open spec fn ocpp_step(a: Asset, d: OcppDyn, r: DecodedOcppRequest, now: Timestamp) -> OcppDyn {
    match r.payload {
        InboundOcppPayload::BootNotification(_) => OcppDyn {
            status: EOperationalStatus::Online,
            connection: Some(OcppConnectionState {
                is_connected: true,
                last_heartbeat_rcvd: Some(now),
                ocpp_message_id_counter: d.connection->0.ocpp_message_id_counter,
            }),
            ..d
        },
        InboundOcppPayload::StatusNotification(p) => status_step(d, p),
        InboundOcppPayload::MeterValues(p) => {
            if metered_by_ocpp(a) && p.meter_value@.len() > 0 {
                OcppDyn {
                    reading: CurrentMeterReading {
                        timestamp: now,
                        ..samples_applied(d.reading, p.meter_value@[0].sampled_value@)
                    },
                    reading_changed: true,
                    ..d
                }
            } else {
                d
            }
        },
        _ => d,
    }
}

/// Whether a request addresses the charger `a`.
pub open spec fn addresses(r: DecodedOcppRequest, a: Asset) -> bool {
    r.request.charge_point_id@ == a.id() && ocpp_peer(a)
}

/// The state of a charger after the requests, in order.
pub open spec fn ocpp_fold(a: Asset, reqs: Seq<DecodedOcppRequest>, now: Timestamp) -> OcppDyn
    decreases reqs.len(),
{
    if reqs.len() == 0 {
        ocpp_dyn(a)
    } else {
        let d = ocpp_fold(a, reqs.drop_last(), now);
        if addresses(reqs.last(), a) {
            ocpp_step(a, d, reqs.last(), now)
        } else {
            d
        }
    }
}

/// The response to a request, echoing its message id; none when no charger
/// takes it, or its payload is malformed or unhandled.
pub open spec fn ocpp_response(assets: Seq<Asset>, r: DecodedOcppRequest, now: Timestamp) -> Option<CommandView> {
    let cp = r.request.charge_point_id@;
    let id = Some(r.request.ocpp_message_id@);
    if !has_peer(assets, cp) {
        None
    } else {
        match r.payload {
            InboundOcppPayload::BootNotification(_) => Some(CommandView {
                charge_point_id: cp,
                message: MessageView::BootNotificationResponse {
                    current_time: rfc3339_of_millis(now.unix_millis as int),
                    interval: 300,
                    status: RegistrationStatus::Accepted,
                },
                ocpp_message_id: id,
            }),
            InboundOcppPayload::StatusNotification(_) => Some(CommandView {
                charge_point_id: cp,
                message: MessageView::StatusNotificationResponse,
                ocpp_message_id: id,
            }),
            InboundOcppPayload::MeterValues(_) => Some(CommandView {
                charge_point_id: cp,
                message: MessageView::MeterValuesResponse,
                ocpp_message_id: id,
            }),
            _ => None,
        }
    }
}

pub open spec fn opt_seq<T>(o: Option<T>) -> Seq<T> {
    match o {
        Some(x) => seq![x],
        None => seq![],
    }
}

/// The responses to the requests, in order.
pub open spec fn ocpp_responses(assets: Seq<Asset>, reqs: Seq<DecodedOcppRequest>, now: Timestamp) -> Seq<CommandView>
    decreases reqs.len(),
{
    if reqs.len() == 0 {
        seq![]
    } else {
        ocpp_responses(assets, reqs.drop_last(), now) + opt_seq(ocpp_response(assets, reqs.last(), now))
    }
}

/// The guns of the charger with the id.
pub open spec fn peer_guns(assets: Seq<Asset>, id: Seq<char>) -> Seq<Gun> {
    guns_of(assets[choose|i: int| 0 <= i < assets.len() && #[trigger] assets[i].id() == id && ocpp_peer(assets[i])])
}

/// The warnings a request raises.
pub open spec fn ocpp_request_diags(assets: Seq<Asset>, r: DecodedOcppRequest) -> Seq<Diagnostic> {
    let cp = r.request.charge_point_id;
    if !has_peer(assets, cp@) {
        seq![Diagnostic { kind: DiagnosticKind::UnknownOcppPeer, subject: cp }]
    } else {
        match r.payload {
            InboundOcppPayload::StatusNotification(p) => {
                (if gun_status_named(p.status@) is None {
                    seq![Diagnostic { kind: DiagnosticKind::UnknownGunStatus, subject: p.status }]
                } else {
                    seq![]
                }) + (if p.connector_id != 0 && first_connector(peer_guns(assets, cp@), p.connector_id) < 0 {
                    seq![Diagnostic { kind: DiagnosticKind::UnknownConnector, subject: cp }]
                } else {
                    seq![]
                })
            },
            InboundOcppPayload::Malformed => seq![Diagnostic { kind: DiagnosticKind::InvalidOcppPayload, subject: r.request.action }],
            InboundOcppPayload::Unhandled => seq![Diagnostic { kind: DiagnosticKind::UnhandledOcppAction, subject: r.request.action }],
            _ => seq![],
        }
    }
}

/// The warnings the requests raise, in order.
pub open spec fn ocpp_diags(assets: Seq<Asset>, reqs: Seq<DecodedOcppRequest>) -> Seq<Diagnostic>
    decreases reqs.len(),
{
    if reqs.len() == 0 {
        seq![]
    } else {
        ocpp_diags(assets, reqs.drop_last()) + ocpp_request_diags(assets, reqs.last())
    }
}

proof fn lemma_peer_guns(assets: Seq<Asset>, id: Seq<char>, i: int)
    requires
        ids_unique(assets),
        0 <= i < assets.len(),
        assets[i].id() == id,
        ocpp_peer(assets[i]),
    ensures
        has_peer(assets, id),
        peer_guns(assets, id) == guns_of(assets[i]),
{
    let w = choose|w: int| 0 <= w < assets.len() && #[trigger] assets[w].id() == id && ocpp_peer(assets[w]);
    assert(0 <= w < assets.len() && assets[w].id() == id && ocpp_peer(assets[w]));
    if w != i {
        assert(assets[w].id() != assets[i].id());
    }
}

proof fn lemma_first_connector_same(g1: Seq<Gun>, g2: Seq<Gun>, cid: u32)
    requires
        g1.len() == g2.len(),
        forall|j: int| 0 <= j < g1.len() ==> (#[trigger] g1[j]).connector_id == g2[j].connector_id,
    ensures
        first_connector(g1, cid) == first_connector(g2, cid),
{
    if exists|k: int| is_first_connector(g1, cid, k) {
        let k = choose|k: int| is_first_connector(g1, cid, k);
        assert forall|j: int| 0 <= j < k implies #[trigger] g2[j].connector_id != cid by {
            assert(g1[j].connector_id != cid);
        }
        assert(is_first_connector(g2, cid, k));
        lemma_first_connector(g1, cid, k);
        lemma_first_connector(g2, cid, k);
    } else if exists|k: int| is_first_connector(g2, cid, k) {
        let k = choose|k: int| is_first_connector(g2, cid, k);
        assert forall|j: int| 0 <= j < k implies #[trigger] g1[j].connector_id != cid by {
            assert(g2[j].connector_id != cid);
        }
        assert(is_first_connector(g1, cid, k));
    }
}

proof fn lemma_framed_ids(orig: Seq<Asset>, cur: Seq<Asset>)
    requires
        orig.len() == cur.len(),
        ids_unique(orig),
        forall|i: int| 0 <= i < orig.len() ==> #[trigger] ocpp_frame(orig[i], cur[i]),
    ensures
        ids_unique(cur),
{
    assert forall|i: int, j: int| 0 <= i < cur.len() && 0 <= j < cur.len() && i != j implies
        #[trigger] cur[i].id() != #[trigger] cur[j].id() by {
        assert(ocpp_frame(orig[i], cur[i]));
        assert(ocpp_frame(orig[j], cur[j]));
        assert(orig[i].id() != orig[j].id());
    }
}

/// Assets related by OCPP frames answer requests alike.
proof fn lemma_framed_alike(orig: Seq<Asset>, cur: Seq<Asset>, r: DecodedOcppRequest, now: Timestamp)
    requires
        orig.len() == cur.len(),
        ids_unique(orig),
        forall|i: int| 0 <= i < orig.len() ==> #[trigger] ocpp_frame(orig[i], cur[i]),
    ensures
        ids_unique(cur),
        ocpp_response(cur, r, now) == ocpp_response(orig, r, now),
        ocpp_request_diags(cur, r) == ocpp_request_diags(orig, r),
{
    let id = r.request.charge_point_id@;
    assert forall|i: int| 0 <= i < orig.len() implies #[trigger] cur[i].id() == orig[i].id()
        && (ocpp_peer(cur[i]) <==> ocpp_peer(orig[i])) by {
        assert(ocpp_frame(orig[i], cur[i]));
    }
    assert forall|i: int, j: int| 0 <= i < cur.len() && 0 <= j < cur.len() && i != j implies
        #[trigger] cur[i].id() != #[trigger] cur[j].id() by {
        assert(orig[i].id() != orig[j].id());
    }
    if has_peer(orig, id) {
        let w = choose|w: int| 0 <= w < orig.len() && #[trigger] orig[w].id() == id && ocpp_peer(orig[w]);
        assert(cur[w].id() == id);
        lemma_peer_guns(orig, id, w);
        lemma_peer_guns(cur, id, w);
        assert(ocpp_frame(orig[w], cur[w]));
        match r.payload {
            InboundOcppPayload::StatusNotification(p) => {
                lemma_first_connector_same(guns_of(orig[w]), guns_of(cur[w]), p.connector_id);
            },
            _ => {},
        }
    } else if has_peer(cur, id) {
        let w = choose|w: int| 0 <= w < cur.len() && #[trigger] cur[w].id() == id && ocpp_peer(cur[w]);
        assert(orig[w].id() == id);
    }
}

/// Applies a BootNotification to the charger.
fn apply_boot(a: &mut Asset, r: &DecodedOcppRequest, now: Timestamp)
    requires
        ocpp_peer(*old(a)),
        r.payload is BootNotification,
    ensures
        ocpp_frame(*old(a), *final(a)),
        ocpp_dyn(*final(a)) == ocpp_step(*old(a), ocpp_dyn(*old(a)), *r, now),
{
    let c = a.connection.unwrap();
    a.connection = Some(OcppConnectionState {
        is_connected: true,
        last_heartbeat_rcvd: Some(now),
        ocpp_message_id_counter: c.ocpp_message_id_counter,
    });
    a.status = EOperationalStatus::Online;
}

/// Applies a StatusNotification to the charger, reporting an unknown status
/// text and an unknown connector.
fn apply_status(a: &mut Asset, r: &DecodedOcppRequest, diags: &mut Vec<Diagnostic>)
    requires
        ocpp_peer(*old(a)),
        r.payload is StatusNotification,
    ensures
        ocpp_frame(*old(a), *final(a)),
        ocpp_dyn(*final(a)) == status_step(ocpp_dyn(*old(a)), r.payload->StatusNotification_0),
        ({
            let p = r.payload->StatusNotification_0;
            final(diags)@ == old(diags)@ + (if gun_status_named(p.status@) is None {
                seq![Diagnostic { kind: DiagnosticKind::UnknownGunStatus, subject: p.status }]
            } else {
                seq![]
            }) + (if p.connector_id != 0 && first_connector(guns_of(*old(a)), p.connector_id) < 0 {
                seq![Diagnostic { kind: DiagnosticKind::UnknownConnector, subject: r.request.charge_point_id }]
            } else {
                seq![]
            })
        }),
{
    let p = match &r.payload {
        InboundOcppPayload::StatusNotification(p) => p,
        _ => { return; },
    };
    let known = parse_gun_status(p.status.as_str());
    let g = match known {
        Some(g) => g,
        None => EGunStatusOcpp::Unavailable,
    };
    if known.is_none() {
        diags.push(Diagnostic { kind: DiagnosticKind::UnknownGunStatus, subject: p.status.clone() });
    }
    let mut guns = a.guns.take().unwrap();
    let ghost g0 = guns.0@;
    let n = guns.0.len();
    if p.connector_id == 0 {
        let current = a.status;
        let faulted = match g {
            EGunStatusOcpp::Faulted => true,
            _ => false,
        };
        let new_status = if faulted || !text_eq(p.error_code.as_str(), "NoError") {
            EOperationalStatus::Faulted
        } else if current == EOperationalStatus::Faulted {
            EOperationalStatus::Online
        } else {
            current
        };
        a.status = new_status;
        let mut j: usize = 0;
        while j < n
            invariant
                n == g0.len(),
                j <= n,
                guns.0@.len() == n,
                forall|k: int| 0 <= k < j ==> #[trigger] guns.0@[k] == (Gun { status: g, ..g0[k] }),
                forall|k: int| j <= k < n ==> #[trigger] guns.0@[k] == g0[k],
            decreases n - j,
        {
            let old_gun = guns.0[j];
            guns.0.set(j, Gun { status: g, ..old_gun });
            j = j + 1;
        }
        assert(guns.0@ =~= g0.map_values(|x: Gun| Gun { status: g, ..x }));
    } else {
        let mut j: usize = 0;
        let mut hit = false;
        while j < n
            invariant_except_break
                n == g0.len(),
                j <= n,
                guns.0@ == g0,
                !hit,
                forall|k: int| 0 <= k < j ==> #[trigger] g0[k].connector_id != p.connector_id,
            ensures
                n == g0.len(),
                hit ==> j < n && is_first_connector(g0, p.connector_id, j as int)
                    && guns.0@ == g0.update(j as int, Gun { status: g, ..g0[j as int] }),
                !hit ==> guns.0@ == g0 && forall|k: int| 0 <= k < n ==> #[trigger] g0[k].connector_id != p.connector_id,
            decreases n - j,
        {
            if guns.0[j].connector_id == p.connector_id {
                let old_gun = guns.0[j];
                guns.0.set(j, Gun { status: g, ..old_gun });
                hit = true;
                break;
            }
            j = j + 1;
        }
        if hit {
            proof {
                lemma_first_connector(g0, p.connector_id, j as int);
            }
        } else {
            assert(!(exists|k: int| is_first_connector(g0, p.connector_id, k)));
            diags.push(Diagnostic { kind: DiagnosticKind::UnknownConnector, subject: r.request.charge_point_id.clone() });
        }
    }
    a.guns = Some(guns);
    assert(final(diags)@ =~= old(diags)@ + (if gun_status_named(p.status@) is None {
        seq![Diagnostic { kind: DiagnosticKind::UnknownGunStatus, subject: p.status }]
    } else {
        seq![]
    }) + (if p.connector_id != 0 && first_connector(g0, p.connector_id) < 0 {
        seq![Diagnostic { kind: DiagnosticKind::UnknownConnector, subject: r.request.charge_point_id }]
    } else {
        seq![]
    }));
}

/// Applies MeterValues to the charger when its readings come over OCPP.
fn apply_meter(a: &mut Asset, r: &DecodedOcppRequest, now: Timestamp)
    requires
        ocpp_peer(*old(a)),
        r.payload is MeterValues,
    ensures
        ocpp_frame(*old(a), *final(a)),
        ocpp_dyn(*final(a)) == ocpp_step(*old(a), ocpp_dyn(*old(a)), *r, now),
{
    let p = match &r.payload {
        InboundOcppPayload::MeterValues(p) => p,
        _ => { return; },
    };
    let is_ocpp = match &a.metering_source {
        Some(ms) => match ms.source_type {
            EMeteringDataSource::Ocpp => true,
            _ => false,
        },
        None => false,
    };
    if is_ocpp && p.meter_value.len() > 0 {
        let mut rd = a.reading;
        apply_sampled_values(&mut rd, &p.meter_value[0].sampled_value);
        rd.timestamp = now;
        a.reading = rd;
        a.reading_changed = true;
    }
}

/// Handles one request.
fn handle_ocpp_request(
    registry: &mut AssetRegistry,
    r: &DecodedOcppRequest,
    now: Timestamp,
    out: &mut Vec<OcppCommandToAsset>,
    diags: &mut Vec<Diagnostic>,
)
    requires
        old(registry).wf(),
        now.wf(),
    ensures
        final(registry).assets@.len() == old(registry).assets@.len(),
        forall|i: int| 0 <= i < old(registry).assets@.len() ==> {
            &&& #[trigger] ocpp_frame(old(registry).assets@[i], final(registry).assets@[i])
            &&& ocpp_dyn(final(registry).assets@[i]) == if addresses(*r, old(registry).assets@[i]) {
                ocpp_step(old(registry).assets@[i], ocpp_dyn(old(registry).assets@[i]), *r, now)
            } else {
                ocpp_dyn(old(registry).assets@[i])
            }
        },
        command_views(final(out)@) == command_views(old(out)@) + opt_seq(ocpp_response(old(registry).assets@, *r, now)),
        final(diags)@ == old(diags)@ + ocpp_request_diags(old(registry).assets@, *r),
{
    let ghost orig = registry.assets@;
    let cp = r.request.charge_point_id.as_str();
    let found = registry.by_id(cp);
    let i = match found {
        Some(i) => i,
        None => {
            diags.push(Diagnostic { kind: DiagnosticKind::UnknownOcppPeer, subject: r.request.charge_point_id.clone() });
            assert(!has_peer(orig, cp@)) by {
                if has_peer(orig, cp@) {
                    let w = choose|w: int| 0 <= w < orig.len() && #[trigger] orig[w].id() == cp@ && ocpp_peer(orig[w]);
                    assert(orig[w].id() == cp@);
                }
            }
            assert(command_views(out@) =~= command_views(old(out)@) + opt_seq(ocpp_response(orig, *r, now)));
            return;
        },
    };
    let peer = registry.assets[i].connection.is_some() && registry.assets[i].guns.is_some();
    if !peer {
        diags.push(Diagnostic { kind: DiagnosticKind::UnknownOcppPeer, subject: r.request.charge_point_id.clone() });
        assert(!has_peer(orig, cp@)) by {
            if has_peer(orig, cp@) {
                let w = choose|w: int| 0 <= w < orig.len() && #[trigger] orig[w].id() == cp@ && ocpp_peer(orig[w]);
                if w != i {
                    assert(orig[w].id() != orig[i as int].id());
                }
            }
        }
        assert(command_views(out@) =~= command_views(old(out)@) + opt_seq(ocpp_response(orig, *r, now)));
        return;
    }
    proof {
        lemma_peer_guns(orig, cp@, i as int);
        assert forall|j: int| 0 <= j < orig.len() && j != i implies !addresses(*r, #[trigger] orig[j]) by {
            assert(orig[j].id() != orig[i as int].id());
        }
    }
    let message_type = match &r.payload {
        InboundOcppPayload::BootNotification(_) => {
            apply_boot(&mut registry.assets[i], r, now);
            Some(EOutgoingOcppMessage::BootNotificationResponse(BootNotificationConfPayload {
                current_time: format_rfc3339(now),
                interval: 300,
                status: RegistrationStatus::Accepted,
            }))
        },
        InboundOcppPayload::StatusNotification(_) => {
            apply_status(&mut registry.assets[i], r, diags);
            Some(EOutgoingOcppMessage::StatusNotificationResponse(StatusNotificationConfPayload {}))
        },
        InboundOcppPayload::MeterValues(_) => {
            apply_meter(&mut registry.assets[i], r, now);
            Some(EOutgoingOcppMessage::MeterValuesResponse(MeterValuesConfPayload {}))
        },
        InboundOcppPayload::Malformed => {
            diags.push(Diagnostic { kind: DiagnosticKind::InvalidOcppPayload, subject: r.request.action.clone() });
            None
        },
        InboundOcppPayload::Unhandled => {
            diags.push(Diagnostic { kind: DiagnosticKind::UnhandledOcppAction, subject: r.request.action.clone() });
            None
        },
    };
    match message_type {
        Some(m) => {
            let cmd = OcppCommandToAsset {
                charge_point_id: r.request.charge_point_id.clone(),
                message_type: m,
                ocpp_message_id: Some(r.request.ocpp_message_id.clone()),
            };
            proof {
                lemma_command_views_push(out@, cmd);
            }
            out.push(cmd);
        },
        None => {
            assert(command_views(out@) =~= command_views(old(out)@) + opt_seq(ocpp_response(orig, *r, now)));
        },
    }
    assert(diags@ =~= old(diags)@ + ocpp_request_diags(orig, *r));
}

/// `cur` is the charger `orig` after the requests.
pub open spec fn ocpp_handled(orig: Asset, cur: Asset, reqs: Seq<DecodedOcppRequest>, now: Timestamp) -> bool {
    ocpp_frame(orig, cur) && ocpp_dyn(cur) == ocpp_fold(orig, reqs, now)
}

/// Handles the requests in arrival order: each is applied to the charger
/// that sent it and answered with its own message id.
pub fn ocpp_request_handler(
    registry: &mut AssetRegistry,
    reqs: &Vec<DecodedOcppRequest>,
    now: Timestamp,
    out: &mut Vec<OcppCommandToAsset>,
    diags: &mut Vec<Diagnostic>,
)
    requires
        old(registry).wf(),
        now.wf(),
    ensures
        final(registry).wf(),
        final(registry).assets@.len() == old(registry).assets@.len(),
        forall|i: int| 0 <= i < old(registry).assets@.len() ==>
            #[trigger] ocpp_handled(old(registry).assets@[i], final(registry).assets@[i], reqs@, now),
        command_views(final(out)@) == command_views(old(out)@) + ocpp_responses(old(registry).assets@, reqs@, now),
        final(diags)@ == old(diags)@ + ocpp_diags(old(registry).assets@, reqs@),
{
    let ghost orig = registry.assets@;
    let mut k: usize = 0;
    while k < reqs.len()
        invariant
            k <= reqs@.len(),
            now.wf(),
            ids_unique(orig),
            registry.assets@.len() == orig.len(),
            forall|i: int| 0 <= i < orig.len() ==>
                #[trigger] ocpp_handled(orig[i], registry.assets@[i], reqs@.subrange(0, k as int), now),
            command_views(out@) == command_views(old(out)@) + ocpp_responses(orig, reqs@.subrange(0, k as int), now),
            diags@ == old(diags)@ + ocpp_diags(orig, reqs@.subrange(0, k as int)),
        decreases reqs@.len() - k,
    {
        let ghost cur = registry.assets@;
        let ghost pre = reqs@.subrange(0, k as int);
        let ghost post = reqs@.subrange(0, k + 1);
        assert(post.drop_last() =~= pre);
        assert(post.last() == reqs@[k as int]);
        proof {
            assert forall|i: int| 0 <= i < orig.len() implies #[trigger] ocpp_frame(orig[i], cur[i]) by {
                assert(ocpp_handled(orig[i], cur[i], pre, now));
            }
            lemma_framed_alike(orig, cur, reqs@[k as int], now);
        }
        handle_ocpp_request(registry, &reqs[k], now, out, diags);
        proof {
            assert forall|i: int| 0 <= i < orig.len() implies
                #[trigger] ocpp_handled(orig[i], registry.assets@[i], post, now) by {
                assert(ocpp_handled(orig[i], cur[i], pre, now));
                assert(ocpp_frame(orig[i], cur[i]));
                assert(ocpp_frame(cur[i], registry.assets@[i]));
                assert(addresses(reqs@[k as int], cur[i]) == addresses(reqs@[k as int], orig[i]));
            }
            assert(ocpp_diags(orig, post) == ocpp_diags(orig, pre) + ocpp_request_diags(orig, reqs@[k as int]));
        }
        assert(diags@ =~= old(diags)@ + ocpp_diags(orig, post));
        assert(command_views(out@) =~= command_views(old(out)@) + ocpp_responses(orig, post, now));
        k = k + 1;
    }
    assert(reqs@.subrange(0, reqs@.len() as int) =~= reqs@);
    proof {
        let fin = registry.assets@;
        assert forall|i: int| 0 <= i < orig.len() implies #[trigger] ocpp_frame(orig[i], fin[i]) by {
            assert(ocpp_handled(orig[i], fin[i], reqs@, now));
        }
        lemma_framed_ids(orig, fin);
    }
}

} // verus!
