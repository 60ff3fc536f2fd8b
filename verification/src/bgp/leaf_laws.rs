//! What each leaf holds once it is assigned, and what finding its entry comes to.

use vstd::prelude::*;
use crate::args::{addr_arg, rest, string_arg, ArgView, ConfigOp};
use crate::bgp::publication_laws::{neighbor_or_new, vrf_or_new};
use crate::bgp::staging::{stage_neighbor, stage_vrf, Leaf};
use crate::bgp::state::{BgpView, BgpVrfMsgView, VrfDeliveryView};
use crate::bgp::types::{BgpVrfConfigView, BgpVrfEncapsulation, BgpVrfLabelMode,
    BgpVrfMobileUplaneView, BgpVrfNeighborConfigView, MupDataplane, MupRouteBindingView,
    MupSegmentMode, MupSrv6Direction, TimerConfig};
use crate::bgp::vrf_config::{afi_safi_enabled_leaf, connect_retry_time_leaf, description_leaf,
    encapsulation_leaf, evpn_advertise_ipv4_leaf, evpn_advertise_ipv6_leaf, evpn_l3vni_leaf,
    evpn_router_mac_leaf, hold_time_leaf, idle_hold_time_leaf, inter_as_hybrid_leaf,
    label_mode_leaf, mup_dataplane_leaf, mup_ext_comm_leaf, mup_network_instance_leaf,
    mup_route_ext_comm_leaf, mup_route_leaf, mup_segment_leaf, mup_segment_prefix_leaf,
    neighbor_leaf, peer_group_leaf, rd_leaf, remote_as_leaf, router_id_leaf, vrf_staged};
use crate::net::{AfiSafi, IpAddr, IpNet, Ipv4Addr, RouteDistinguisherView};

verus! {

/// Whether an instance is another one in which the configuration of one VRF is
/// exchanged, and nothing else.
pub open spec fn only_vrf_differs(
    after: BgpView,
    before: BgpView,
    name: Seq<char>,
    cfg: BgpVrfConfigView,
) -> bool {
    &&& after.vrfs.contains_key(name) && after.vrfs[name] == cfg
    &&& forall|other: Seq<char>|
        other != name ==> #[trigger] after.vrfs.contains_key(other) == before.vrfs.contains_key(
            other,
        ) && after.vrfs[other] == before.vrfs[other]
    &&& after.pending == before.pending
    &&& after.registry == before.registry
    &&& after.outbox == before.outbox
}

/// What a callback for a leaf of a VRF does, for every operation. Without a name
/// or a key nothing happens, and neither for a delete in a VRF that is not
/// there. Otherwise the entry is there afterwards: with the leaf assigned where
/// the value reads, with the leaf cleared by a delete, and else as it was.
pub proof fn vrf_leaf_callback<K, T>(
    bgp: BgpView,
    args: Seq<ArgView>,
    key: Option<K>,
    value: Option<T>,
    op: ConfigOp,
    leaf: spec_fn(K) -> Leaf<BgpVrfConfigView, T>,
)
    ensures
        ({
            let (after, r) = stage_vrf(bgp, args, key, value, op, leaf);
            let name = string_arg(args)->0;
            let cfg = vrf_or_new(bgp.vrfs, name);
            let l = leaf(key->0);
            if string_arg(args) is None || key is None {
                after == bgp && r is None
            } else if op == ConfigOp::Delete {
                if bgp.vrfs.contains_key(name) {
                    r is Some && only_vrf_differs(after, bgp, name, (l.clear)(cfg))
                } else {
                    after == bgp && r is None
                }
            } else if op == ConfigOp::Assign && value is Some {
                r is Some && only_vrf_differs(after, bgp, name, (l.set)(cfg, value->0))
            } else {
                (r is Some == (op != ConfigOp::Assign)) && only_vrf_differs(after, bgp, name, cfg)
            }
        }),
{
}

/// Whether a configuration is another one in which one neighbor is exchanged,
/// and nothing else.
pub open spec fn only_neighbor_differs(
    after: BgpVrfConfigView,
    before: BgpVrfConfigView,
    address: IpAddr,
    neighbor: BgpVrfNeighborConfigView,
) -> bool {
    &&& after.neighbors.contains_key(address) && after.neighbors[address] == neighbor
    &&& forall|other: IpAddr|
        other != address ==> #[trigger] after.neighbors.contains_key(other)
            == before.neighbors.contains_key(other) && after.neighbors[other]
            == before.neighbors[other]
    &&& after == BgpVrfConfigView { neighbors: after.neighbors, ..before }
}

/// What a callback for a leaf of a neighbor does, for every operation. It works
/// as for a VRF, with the neighbor as the entry; a delete where the VRF or the
/// neighbor is not there does nothing, and an operation that neither assigns nor
/// deletes reaches no neighbor.
pub proof fn neighbor_leaf_callback<K, T>(
    bgp: BgpView,
    args: Seq<ArgView>,
    key: Option<K>,
    value: Option<T>,
    op: ConfigOp,
    leaf: spec_fn(K) -> Leaf<BgpVrfNeighborConfigView, T>,
)
    ensures
        ({
            let (after, r) = stage_neighbor(bgp, args, key, value, op, leaf);
            let name = string_arg(args)->0;
            let address = addr_arg(rest(args))->0;
            let cfg = vrf_or_new(bgp.vrfs, name);
            let neighbor = neighbor_or_new(cfg, address);
            let l = leaf(key->0);
            let new_cfg = after.vrfs[name];
            if string_arg(args) is None || addr_arg(rest(args)) is None || key is None || (op
                == ConfigOp::Delete && !(bgp.vrfs.contains_key(name)
                && cfg.neighbors.contains_key(address))) {
                r is None && after.vrfs =~= bgp.vrfs && after.pending == bgp.pending
                    && after.registry == bgp.registry && after.outbox == bgp.outbox
            } else if op == ConfigOp::Assign {
                &&& r is Some == value is Some
                &&& only_vrf_differs(after, bgp, name, new_cfg)
                &&& only_neighbor_differs(
                    new_cfg,
                    cfg,
                    address,
                    if value is Some {
                        (l.set)(neighbor, value->0)
                    } else {
                        neighbor
                    },
                )
            } else if op == ConfigOp::Delete {
                &&& r is Some
                &&& only_vrf_differs(after, bgp, name, new_cfg)
                &&& only_neighbor_differs(new_cfg, cfg, address, (l.clear)(neighbor))
            } else {
                r is None && only_vrf_differs(after, bgp, name, cfg)
            }
        }),
{
}

/// What the callback for a VRF does: an assignment adds an empty VRF where there
/// is none, and a delete removes it. No other VRF is touched, and nothing else.
pub proof fn vrf_callback(bgp: BgpView, args: Seq<ArgView>, op: ConfigOp)
    ensures
        ({
            let (after, r) = vrf_staged(bgp, args, op);
            let name = string_arg(args)->0;
            if string_arg(args) is None {
                after == bgp && r is None
            } else {
                &&& r is Some
                &&& after.pending == bgp.pending
                &&& after.registry == bgp.registry
                &&& after.outbox == bgp.outbox
                &&& forall|other: Seq<char>|
                    other != name ==> #[trigger] after.vrfs.contains_key(other)
                        == bgp.vrfs.contains_key(other) && after.vrfs[other] == bgp.vrfs[other]
                &&& match op {
                    ConfigOp::Assign => after.vrfs.contains_key(name) && after.vrfs[name]
                        == vrf_or_new(bgp.vrfs, name),
                    ConfigOp::Delete => !after.vrfs.contains_key(name),
                    _ => after == bgp,
                }
            }
        }),
{
}

/// The route distinguisher is held as it is assigned; deleting it leaves none.
pub proof fn rd_is_held(s: BgpVrfConfigView, v: RouteDistinguisherView)
    ensures
        (rd_leaf().set)(s, v) == (BgpVrfConfigView { rd: Some(v), ..s }),
        (rd_leaf().clear)(s) == (BgpVrfConfigView { rd: None, ..s }),
{
}

/// So is the router identifier.
pub proof fn router_id_is_held(s: BgpVrfConfigView, v: Ipv4Addr)
    ensures
        (router_id_leaf().set)(s, v) == (BgpVrfConfigView { router_id: Some(v), ..s }),
        (router_id_leaf().clear)(s) == (BgpVrfConfigView { router_id: None, ..s }),
{
}

/// The label mode is held as it is assigned; deleting it goes back to one label
/// for the VRF.
pub proof fn label_mode_is_held(s: BgpVrfConfigView, v: BgpVrfLabelMode)
    ensures
        (label_mode_leaf().set)(s, v) == (BgpVrfConfigView { label_mode: v, ..s }),
        (label_mode_leaf().clear)(s) == (BgpVrfConfigView { label_mode: BgpVrfLabelMode::Vrf, ..s }),
{
}

/// The encapsulation is held as it is assigned; deleting it goes back to MPLS.
pub proof fn encapsulation_is_held(s: BgpVrfConfigView, v: BgpVrfEncapsulation)
    ensures
        (encapsulation_leaf().set)(s, v) == (BgpVrfConfigView { encapsulation: v, ..s }),
        (encapsulation_leaf().clear)(s) == (BgpVrfConfigView { encapsulation: BgpVrfEncapsulation::Mpls, ..s }),
{
}

/// The inter-AS switch is held as it is assigned; deleting it switches it off.
pub proof fn inter_as_hybrid_is_held(s: BgpVrfConfigView, v: bool)
    ensures
        (inter_as_hybrid_leaf().set)(s, v) == (BgpVrfConfigView { inter_as_hybrid: v, ..s }),
        (inter_as_hybrid_leaf().clear)(s) == (BgpVrfConfigView { inter_as_hybrid: false, ..s }),
{
}

/// So is the advertisement of IPv4 routes.
pub proof fn evpn_advertise_ipv4_is_held(s: BgpVrfConfigView, v: bool)
    ensures
        (evpn_advertise_ipv4_leaf().set)(s, v) == (BgpVrfConfigView { evpn_advertise_v4: v, ..s }),
        (evpn_advertise_ipv4_leaf().clear)(s) == (BgpVrfConfigView { evpn_advertise_v4: false, ..s }),
{
}

/// So is the advertisement of IPv6 routes.
pub proof fn evpn_advertise_ipv6_is_held(s: BgpVrfConfigView, v: bool)
    ensures
        (evpn_advertise_ipv6_leaf().set)(s, v) == (BgpVrfConfigView { evpn_advertise_v6: v, ..s }),
        (evpn_advertise_ipv6_leaf().clear)(s) == (BgpVrfConfigView { evpn_advertise_v6: false, ..s }),
{
}

/// The L3VNI is held as it is assigned; deleting it leaves none.
pub proof fn evpn_l3vni_is_held(s: BgpVrfConfigView, v: u32)
    ensures
        (evpn_l3vni_leaf().set)(s, v) == (BgpVrfConfigView { l3vni: Some(v), ..s }),
        (evpn_l3vni_leaf().clear)(s) == (BgpVrfConfigView { l3vni: None, ..s }),
{
}

/// So is the router MAC address.
pub proof fn evpn_router_mac_is_held(s: BgpVrfConfigView, v: Seq<u8>)
    ensures
        (evpn_router_mac_leaf().set)(s, v) == (BgpVrfConfigView { router_mac: Some(v), ..s }),
        (evpn_router_mac_leaf().clear)(s) == (BgpVrfConfigView { router_mac: None, ..s }),
{
}

/// The forwarding plane is held as it is assigned; deleting it goes back to the
/// SRv6 endpoint.
pub proof fn mup_dataplane_is_held(s: BgpVrfConfigView, v: MupDataplane)
    ensures
        (mup_dataplane_leaf().set)(s, v) == (BgpVrfConfigView { mobile_uplane: BgpVrfMobileUplaneView { dataplane: v, ..s.mobile_uplane }, ..s }),
        (mup_dataplane_leaf().clear)(s) == (BgpVrfConfigView { mobile_uplane: BgpVrfMobileUplaneView { dataplane: MupDataplane::EndDt46, ..s.mobile_uplane }, ..s }),
{
}

/// The extended community of the direct segment is held as it is assigned;
/// deleting it leaves none.
pub proof fn mup_ext_comm_is_held(s: BgpVrfConfigView, v: RouteDistinguisherView)
    ensures
        (mup_ext_comm_leaf().set)(s, v) == (BgpVrfConfigView { mobile_uplane: BgpVrfMobileUplaneView { mup_ext_comm: Some(v), ..s.mobile_uplane }, ..s }),
        (mup_ext_comm_leaf().clear)(s) == (BgpVrfConfigView { mobile_uplane: BgpVrfMobileUplaneView { mup_ext_comm: None, ..s.mobile_uplane }, ..s }),
{
}

/// So is the prefix of the interwork segment.
pub proof fn mup_segment_prefix_is_held(s: BgpVrfConfigView, v: IpNet)
    ensures
        (mup_segment_prefix_leaf().set)(s, v) == (BgpVrfConfigView { mobile_uplane: BgpVrfMobileUplaneView { interwork_prefix: Some(v), ..s.mobile_uplane }, ..s }),
        (mup_segment_prefix_leaf().clear)(s) == (BgpVrfConfigView { mobile_uplane: BgpVrfMobileUplaneView { interwork_prefix: None, ..s.mobile_uplane }, ..s }),
{
}

/// The neighbor's autonomous system is held as it is assigned; deleting it leaves
/// none.
pub proof fn remote_as_is_held(s: BgpVrfNeighborConfigView, v: u32)
    ensures
        (remote_as_leaf().set)(s, v) == (BgpVrfNeighborConfigView { remote_as: Some(v), ..s }),
        (remote_as_leaf().clear)(s) == (BgpVrfNeighborConfigView { remote_as: None, ..s }),
{
}

/// So is the peer group.
pub proof fn peer_group_is_held(s: BgpVrfNeighborConfigView, v: Seq<char>)
    ensures
        (peer_group_leaf().set)(s, v) == (BgpVrfNeighborConfigView { peer_group: Some(v), ..s }),
        (peer_group_leaf().clear)(s) == (BgpVrfNeighborConfigView { peer_group: None, ..s }),
{
}

/// So is the description.
pub proof fn description_is_held(s: BgpVrfNeighborConfigView, v: Seq<char>)
    ensures
        (description_leaf().set)(s, v) == (BgpVrfNeighborConfigView { description: Some(v), ..s }),
        (description_leaf().clear)(s) == (BgpVrfNeighborConfigView { description: None, ..s }),
{
}

/// So is the connect retry timer, beside the other timers.
pub proof fn connect_retry_time_is_held(s: BgpVrfNeighborConfigView, v: u16)
    ensures
        (connect_retry_time_leaf().set)(s, v) == (BgpVrfNeighborConfigView { timer: TimerConfig { connect_retry_time: Some(v), ..s.timer }, ..s }),
        (connect_retry_time_leaf().clear)(s) == (BgpVrfNeighborConfigView { timer: TimerConfig { connect_retry_time: None, ..s.timer }, ..s }),
{
}

/// So is the hold timer, beside the other timers.
pub proof fn hold_time_is_held(s: BgpVrfNeighborConfigView, v: u16)
    ensures
        (hold_time_leaf().set)(s, v) == (BgpVrfNeighborConfigView { timer: TimerConfig { hold_time: Some(v), ..s.timer }, ..s }),
        (hold_time_leaf().clear)(s) == (BgpVrfNeighborConfigView { timer: TimerConfig { hold_time: None, ..s.timer }, ..s }),
{
}

/// So is the idle hold timer, beside the other timers.
pub proof fn idle_hold_time_is_held(s: BgpVrfNeighborConfigView, v: u16)
    ensures
        (idle_hold_time_leaf().set)(s, v) == (BgpVrfNeighborConfigView { timer: TimerConfig { idle_hold_time: Some(v), ..s.timer }, ..s }),
        (idle_hold_time_leaf().clear)(s) == (BgpVrfNeighborConfigView { timer: TimerConfig { idle_hold_time: None, ..s.timer }, ..s }),
{
}

/// The statement on a family is held as it is made; deleting it leaves none, and
/// the statements on other families stay.
pub proof fn afi_safi_enabled_is_held(s: BgpVrfNeighborConfigView, v: bool, family: AfiSafi)
    ensures
        ({
            let set = (afi_safi_enabled_leaf(family).set)(s, v);
            let cleared = (afi_safi_enabled_leaf(family).clear)(s);
            &&& set == BgpVrfNeighborConfigView { mp_explicit: set.mp_explicit, ..s }
            &&& cleared == BgpVrfNeighborConfigView { mp_explicit: cleared.mp_explicit, ..s }
            &&& set.mp_explicit.contains_key(family) && set.mp_explicit[family] == v
            &&& !cleared.mp_explicit.contains_key(family)
            &&& forall|other: AfiSafi|
                other != family ==> #[trigger] set.mp_explicit.contains_key(other)
                    == s.mp_explicit.contains_key(other) && set.mp_explicit[other]
                    == s.mp_explicit[other]
            &&& forall|other: AfiSafi|
                other != family ==> #[trigger] cleared.mp_explicit.contains_key(other)
                    == s.mp_explicit.contains_key(other) && cleared.mp_explicit[other]
                    == s.mp_explicit[other]
        }),
{
}

/// A neighbor is added empty where there is none, and removed whole; the other
/// neighbors and the rest of the configuration stay.
pub proof fn neighbor_is_held(s: BgpVrfConfigView, address: IpAddr)
    ensures
        ({
            let set = (neighbor_leaf(address).set)(s, ());
            let cleared = (neighbor_leaf(address).clear)(s);
            &&& only_neighbor_differs(set, s, address, neighbor_or_new(s, address))
            &&& cleared == BgpVrfConfigView { neighbors: cleared.neighbors, ..s }
            &&& !cleared.neighbors.contains_key(address)
            &&& forall|other: IpAddr|
                other != address ==> #[trigger] cleared.neighbors.contains_key(other)
                    == s.neighbors.contains_key(other) && cleared.neighbors[other]
                    == s.neighbors[other]
        }),
{
}

/// The binding of a direction, an empty one where there is none.
pub open spec fn binding_or_new(
    s: BgpVrfConfigView,
    direction: MupSrv6Direction,
) -> MupRouteBindingView {
    if s.mobile_uplane.routes.contains_key(direction) {
        s.mobile_uplane.routes[direction]
    } else {
        MupRouteBindingView { network_instance: None, mup_ext_comm: None }
    }
}

/// Whether a configuration is another one in which the binding of one direction
/// is exchanged, and nothing else.
pub open spec fn only_route_differs(
    after: BgpVrfConfigView,
    before: BgpVrfConfigView,
    direction: MupSrv6Direction,
    binding: Option<MupRouteBindingView>,
) -> bool {
    let routes = after.mobile_uplane.routes;
    let old_routes = before.mobile_uplane.routes;
    &&& routes.contains_key(direction) == binding is Some
    &&& binding is Some ==> routes[direction] == binding->0
    &&& forall|other: MupSrv6Direction|
        other != direction ==> #[trigger] routes.contains_key(other) == old_routes.contains_key(
            other,
        ) && routes[other] == old_routes[other]
    &&& after == BgpVrfConfigView {
        mobile_uplane: BgpVrfMobileUplaneView { routes, ..before.mobile_uplane },
        ..before
    }
}

/// The bindings of the mobile user plane: adding one keeps what it holds, and
/// removing it takes all of it; a network instance or a community is held as it
/// is assigned, and deleting either makes no binding.
pub proof fn mup_bindings_are_held(
    s: BgpVrfConfigView,
    direction: MupSrv6Direction,
    instance: Seq<char>,
    community: RouteDistinguisherView,
)
    ensures
        ({
            let old = binding_or_new(s, direction);
            let there = s.mobile_uplane.routes.contains_key(direction);
            let route = mup_route_leaf(direction);
            let ni = mup_network_instance_leaf(direction);
            let comm = mup_route_ext_comm_leaf(direction);
            &&& only_route_differs((route.set)(s, ()), s, direction, Some(old))
            &&& only_route_differs((route.clear)(s), s, direction, None)
            &&& only_route_differs(
                (ni.set)(s, instance),
                s,
                direction,
                Some(MupRouteBindingView { network_instance: Some(instance), ..old }),
            )
            &&& only_route_differs(
                (ni.clear)(s),
                s,
                direction,
                if there {
                    Some(MupRouteBindingView { network_instance: None, ..old })
                } else {
                    None
                },
            )
            &&& only_route_differs(
                (comm.set)(s, community),
                s,
                direction,
                Some(MupRouteBindingView { mup_ext_comm: Some(community), ..old }),
            )
            &&& only_route_differs(
                (comm.clear)(s),
                s,
                direction,
                if there {
                    Some(MupRouteBindingView { mup_ext_comm: None, ..old })
                } else {
                    None
                },
            )
        }),
{
}

/// A segment is held in the mode that is assigned; deleting it clears a segment
/// of its own mode and no other.
pub proof fn mup_segment_is_held(s: BgpVrfConfigView, mode: MupSegmentMode)
    ensures
        ({
            let set = (mup_segment_leaf(mode).set)(s, ());
            let cleared = (mup_segment_leaf(mode).clear)(s);
            &&& set == BgpVrfConfigView {
                mobile_uplane: BgpVrfMobileUplaneView { segment: Some(mode), ..s.mobile_uplane },
                ..s
            }
            &&& cleared == BgpVrfConfigView {
                mobile_uplane: BgpVrfMobileUplaneView {
                    segment: cleared.mobile_uplane.segment,
                    ..s.mobile_uplane
                },
                ..s
            }
            &&& cleared.mobile_uplane.segment == if s.mobile_uplane.segment == Some(mode) {
                None
            } else {
                s.mobile_uplane.segment
            }
        }),
{
}

/// What is told to a VRF is queued for its inbox, each message once and in
/// order, where the VRF is running, and dropped where it is not.
pub proof fn telling_a_vrf(bgp: BgpView, vrf: Seq<char>, msgs: Seq<BgpVrfMsgView>)
    ensures
        ({
            let after = bgp.tell(vrf, msgs);
            let n = bgp.outbox.len();
            &&& after.vrfs == bgp.vrfs
            &&& after.pending == bgp.pending
            &&& after.registry == bgp.registry
            &&& bgp.outbox.is_prefix_of(after.outbox)
            &&& if bgp.registry.contains_key(vrf) {
                &&& after.outbox.len() == n + msgs.len()
                &&& forall|i: int|
                    0 <= i < msgs.len() ==> #[trigger] after.outbox[n + i] == (VrfDeliveryView {
                        inbox: bgp.registry[vrf],
                        msg: msgs[i],
                    })
            } else {
                after.outbox.len() == n
            }
        }),
{
    assert(bgp.outbox =~= bgp.tell(vrf, msgs).outbox.subrange(0, bgp.outbox.len() as int));
}

/// A VRF, a neighbor and a family of which nothing is configured hold nothing:
/// no name, no number, no entry, and every switch off.
pub proof fn new_entries_are_empty()
    ensures
        ({
            let cfg = BgpVrfConfigView::unset();
            let up = cfg.mobile_uplane;
            &&& cfg.rd is None && cfg.router_id is None
            &&& cfg.label_mode == BgpVrfLabelMode::Vrf
            &&& cfg.encapsulation == BgpVrfEncapsulation::Mpls
            &&& forall|address: IpAddr| !#[trigger] cfg.neighbors.contains_key(address)
            &&& cfg.ipv4_unicast is None && cfg.ipv6_unicast is None
            &&& !cfg.evpn_advertise_v4 && !cfg.evpn_advertise_v6 && !cfg.inter_as_hybrid
            &&& cfg.l3vni is None && cfg.router_mac is None
            &&& forall|direction: MupSrv6Direction| !#[trigger] up.routes.contains_key(direction)
            &&& up.segment is None && up.mup_ext_comm is None && up.interwork_prefix is None
            &&& up.dataplane == MupDataplane::EndDt46
        }),
        ({
            let neighbor = BgpVrfNeighborConfigView::unset();
            let timer = neighbor.timer;
            &&& neighbor.remote_as is None && neighbor.peer_group is None
            &&& neighbor.description is None
            &&& forall|family: AfiSafi| !#[trigger] neighbor.mp_explicit.contains_key(family)
            &&& forall|family: AfiSafi| !#[trigger] neighbor.prefix_set.contains_key(family)
            &&& timer.connect_retry_time is None && timer.hold_time is None
            &&& timer.idle_hold_time is None && timer.min_adv_interval is None
            &&& timer.orig_interval is None && timer.delay_open_time is None
        }),
{
}

} // verus!
