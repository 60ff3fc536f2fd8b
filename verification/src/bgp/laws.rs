//! What holds of the configuration callbacks taken together.

use vstd::prelude::*;
use crate::args::{addr_arg, rest, string_arg, ArgView, ConfigOp};
use crate::bgp::networks::{ipv4_network_staged, ipv4_staged, ipv6_network_staged, ipv6_staged,
    redistribute_staged, source_staged};
use crate::bgp::prefix_set::prefix_set_staged;
use crate::bgp::staging::{stage_neighbor, stage_vrf, Leaf};
use crate::bgp::state::BgpView;
use crate::bgp::types::{BgpRedistSource, BgpVrfConfigView, BgpVrfNeighborConfigView, InOut,
    MupSegmentMode, MupSrv6Direction, RedistAfi};
use crate::bgp::vrf_config::{afi_safi_enabled_leaf, connect_retry_time_leaf, description_leaf,
    encapsulation_leaf, evpn_advertise_ipv4_leaf, evpn_advertise_ipv6_leaf, evpn_l3vni_leaf,
    evpn_router_mac_leaf, hold_time_leaf, idle_hold_time_leaf, inter_as_hybrid_leaf,
    label_mode_leaf, mup_dataplane_leaf, mup_ext_comm_leaf, mup_network_instance_leaf,
    mup_route_ext_comm_leaf, mup_route_leaf, mup_segment_leaf, mup_segment_prefix_leaf,
    neighbor_leaf, peer_group_leaf, rd_leaf, remote_as_leaf, router_id_leaf, vrf_staged};
use crate::net::{AfiSafi, IpAddr, RouteDistinguisherView};

verus! {

/// Whether the arguments name a VRF that is not configured.
pub open spec fn vrf_gone(bgp: BgpView, args: Seq<ArgView>) -> bool {
    string_arg(args) matches Some(name) && !bgp.vrfs.contains_key(name)
}

/// Whether the arguments name a neighbor that is not configured.
pub open spec fn neighbor_gone(bgp: BgpView, args: Seq<ArgView>) -> bool {
    &&& string_arg(args) matches Some(name)
    &&& addr_arg(rest(args)) matches Some(address)
    &&& bgp.vrfs.contains_key(name)
    &&& !bgp.vrfs[name].neighbors.contains_key(address)
}

/// Deleting a VRF removes its entry, and no delete that arrives later, for
/// anything inside the VRF, brings the entry back or has any other effect.
pub proof fn vrf_delete_is_final<K, T, L, U>(
    bgp: BgpView,
    args: Seq<ArgView>,
    child: Seq<ArgView>,
    key: Option<K>,
    value: Option<T>,
    leaf: spec_fn(K) -> Leaf<BgpVrfConfigView, T>,
    neighbor_key: Option<L>,
    neighbor_value: Option<U>,
    neighbor_leaf: spec_fn(L) -> Leaf<BgpVrfNeighborConfigView, U>,
    direction: InOut,
    afi: RedistAfi,
    source: BgpRedistSource,
)
    requires
        string_arg(args) is Some,
        string_arg(child) == string_arg(args),
    ensures
        ({
            let gone = vrf_staged(bgp, args, ConfigOp::Delete).0;
            &&& vrf_gone(gone, child)
            &&& stage_vrf(gone, child, key, value, ConfigOp::Delete, leaf) == (gone, None::<()>)
            &&& stage_neighbor(
                gone,
                child,
                neighbor_key,
                neighbor_value,
                ConfigOp::Delete,
                neighbor_leaf,
            ) == (gone, None::<()>)
            &&& prefix_set_staged(gone, child, ConfigOp::Delete, direction) == (gone, None::<()>)
            &&& ipv4_staged(gone, child, ConfigOp::Delete).0 == gone
            &&& ipv6_staged(gone, child, ConfigOp::Delete).0 == gone
            &&& ipv4_network_staged(gone, child, ConfigOp::Delete) == (gone, None::<()>)
            &&& ipv6_network_staged(gone, child, ConfigOp::Delete) == (gone, None::<()>)
            &&& redistribute_staged(gone, child, ConfigOp::Delete, afi).0 == gone
            &&& source_staged(gone, child, ConfigOp::Delete, afi, source).0 == gone
        }),
{
    let gone = vrf_staged(bgp, args, ConfigOp::Delete).0;
    assert(gone.outbox + Seq::empty() =~= gone.outbox);
    assert(ipv4_staged(gone, child, ConfigOp::Delete).0.outbox =~= gone.outbox);
    assert(ipv6_staged(gone, child, ConfigOp::Delete).0.outbox =~= gone.outbox);
}

/// Deleting a neighbor removes its entry, and no delete that arrives later, for
/// anything of that neighbor, brings the entry back or has any other effect.
pub proof fn neighbor_delete_is_final<K, T>(
    bgp: BgpView,
    args: Seq<ArgView>,
    child: Seq<ArgView>,
    key: Option<K>,
    value: Option<T>,
    leaf: spec_fn(K) -> Leaf<BgpVrfNeighborConfigView, T>,
    direction: InOut,
)
    requires
        string_arg(args) matches Some(name) && bgp.vrfs.contains_key(name),
        addr_arg(rest(args)) is Some,
        string_arg(child) == string_arg(args),
        addr_arg(rest(child)) == addr_arg(rest(args)),
    ensures
        ({
            let gone = stage_vrf(
                bgp,
                args,
                addr_arg(rest(args)),
                Some(()),
                ConfigOp::Delete,
                |address: IpAddr| neighbor_leaf(address),
            ).0;
            &&& neighbor_gone(gone, child)
            &&& stage_neighbor(gone, child, key, value, ConfigOp::Delete, leaf) == (
                gone,
                None::<()>,
            )
            &&& prefix_set_staged(gone, child, ConfigOp::Delete, direction).0 == gone
        }),
{
    let gone = stage_vrf(
        bgp,
        args,
        addr_arg(rest(args)),
        Some(()),
        ConfigOp::Delete,
        |address: IpAddr| neighbor_leaf(address),
    ).0;
    let name = string_arg(args)->0;
    assert(gone.vrfs.insert(name, gone.vrfs[name]) =~= gone.vrfs);
}

/// Deleting a leaf of a VRF leaves no VRF that was not there before. Deleting a
/// leaf or a binding of a neighbor leaves neither a VRF nor a neighbor that was
/// not there before.
pub proof fn delete_never_creates<K, T, L, U>(
    bgp: BgpView,
    args: Seq<ArgView>,
    key: Option<K>,
    value: Option<T>,
    leaf: spec_fn(K) -> Leaf<BgpVrfConfigView, T>,
    neighbor_key: Option<L>,
    neighbor_value: Option<U>,
    neighbor_leaf: spec_fn(L) -> Leaf<BgpVrfNeighborConfigView, U>,
    direction: InOut,
)
    ensures
        stage_vrf(bgp, args, key, value, ConfigOp::Delete, leaf).0.vrfs.dom() == bgp.vrfs.dom(),
        ({
            let after = stage_neighbor(
                bgp,
                args,
                neighbor_key,
                neighbor_value,
                ConfigOp::Delete,
                neighbor_leaf,
            ).0;
            &&& after.vrfs.dom() == bgp.vrfs.dom()
            &&& forall|name: Seq<char>| #[trigger]
                bgp.vrfs.contains_key(name) ==> after.vrfs[name].neighbors.dom()
                    == bgp.vrfs[name].neighbors.dom()
        }),
        ({
            let after = prefix_set_staged(bgp, args, ConfigOp::Delete, direction).0;
            &&& after.vrfs.dom() == bgp.vrfs.dom()
            &&& forall|name: Seq<char>| #[trigger]
                bgp.vrfs.contains_key(name) ==> after.vrfs[name].neighbors.dom()
                    == bgp.vrfs[name].neighbors.dom()
        }),
{
    let a = stage_vrf(bgp, args, key, value, ConfigOp::Delete, leaf).0;
    assert(a.vrfs.dom() =~= bgp.vrfs.dom());
    let b = stage_neighbor(
        bgp,
        args,
        neighbor_key,
        neighbor_value,
        ConfigOp::Delete,
        neighbor_leaf,
    ).0;
    assert(b.vrfs.dom() =~= bgp.vrfs.dom());
    assert forall|name: Seq<char>| #[trigger]
        bgp.vrfs.contains_key(name) implies b.vrfs[name].neighbors.dom()
        == bgp.vrfs[name].neighbors.dom() by {
        assert(b.vrfs[name].neighbors.dom() =~= bgp.vrfs[name].neighbors.dom());
    }
    let c = prefix_set_staged(bgp, args, ConfigOp::Delete, direction).0;
    assert(c.vrfs.dom() =~= bgp.vrfs.dom());
    assert forall|name: Seq<char>| #[trigger]
        bgp.vrfs.contains_key(name) implies c.vrfs[name].neighbors.dom()
        == bgp.vrfs[name].neighbors.dom() by {
        assert(c.vrfs[name].neighbors.dom() =~= bgp.vrfs[name].neighbors.dom());
    }
}

/// A leaf may be staged ahead of its VRF: the two callbacks commute.
pub proof fn leaf_may_precede_vrf<K, T>(
    bgp: BgpView,
    args: Seq<ArgView>,
    child: Seq<ArgView>,
    key: Option<K>,
    value: Option<T>,
    leaf: spec_fn(K) -> Leaf<BgpVrfConfigView, T>,
)
    requires
        string_arg(args) is Some,
        string_arg(child) == string_arg(args),
        key is Some,
    ensures
        stage_vrf(
            vrf_staged(bgp, args, ConfigOp::Assign).0,
            child,
            key,
            value,
            ConfigOp::Assign,
            leaf,
        ).0 == vrf_staged(
            stage_vrf(bgp, child, key, value, ConfigOp::Assign, leaf).0,
            args,
            ConfigOp::Assign,
        ).0,
{
    let name = string_arg(args)->0;
    let left = stage_vrf(
        vrf_staged(bgp, args, ConfigOp::Assign).0,
        child,
        key,
        value,
        ConfigOp::Assign,
        leaf,
    ).0;
    let right = vrf_staged(
        stage_vrf(bgp, child, key, value, ConfigOp::Assign, leaf).0,
        args,
        ConfigOp::Assign,
    ).0;
    assert(left.vrfs =~= right.vrfs);
}

/// A leaf of a neighbor may be staged ahead of the neighbor: the two callbacks
/// commute.
pub proof fn leaf_may_precede_neighbor<K, T>(
    bgp: BgpView,
    args: Seq<ArgView>,
    child: Seq<ArgView>,
    key: Option<K>,
    value: Option<T>,
    leaf: spec_fn(K) -> Leaf<BgpVrfNeighborConfigView, T>,
)
    requires
        string_arg(args) is Some,
        addr_arg(rest(args)) is Some,
        string_arg(child) == string_arg(args),
        addr_arg(rest(child)) == addr_arg(rest(args)),
        key is Some,
    ensures
        stage_neighbor(
            stage_vrf(
                bgp,
                args,
                addr_arg(rest(args)),
                Some(()),
                ConfigOp::Assign,
                |address: IpAddr| neighbor_leaf(address),
            ).0,
            child,
            key,
            value,
            ConfigOp::Assign,
            leaf,
        ).0 == stage_vrf(
            stage_neighbor(bgp, child, key, value, ConfigOp::Assign, leaf).0,
            args,
            addr_arg(rest(args)),
            Some(()),
            ConfigOp::Assign,
            |address: IpAddr| neighbor_leaf(address),
        ).0,
{
    let name = string_arg(args)->0;
    let address = addr_arg(rest(args))->0;
    let list = |address: IpAddr| neighbor_leaf(address);
    let a = stage_vrf(bgp, args, Some(address), Some(()), ConfigOp::Assign, list).0;
    let left = stage_neighbor(a, child, key, value, ConfigOp::Assign, leaf).0;
    let b = stage_neighbor(bgp, child, key, value, ConfigOp::Assign, leaf).0;
    let right = stage_vrf(b, args, Some(address), Some(()), ConfigOp::Assign, list).0;
    assert(left.vrfs[name].neighbors =~= right.vrfs[name].neighbors);
    assert(left.vrfs =~= right.vrfs);
}

/// An assignment whose value does not read fails and leaves the leaf alone. All
/// that it may leave behind is an empty entry for a VRF that was not there.
pub proof fn unreadable_value_is_refused<K, T>(
    bgp: BgpView,
    args: Seq<ArgView>,
    key: Option<K>,
    leaf: spec_fn(K) -> Leaf<BgpVrfConfigView, T>,
)
    ensures
        ({
            let (after, r) = stage_vrf(bgp, args, key, None::<T>, ConfigOp::Assign, leaf);
            &&& r is None
            &&& after == bgp || (vrf_gone(bgp, args) && after == bgp.with_vrf(
                string_arg(args)->0,
                BgpVrfConfigView::unset(),
            ))
        }),
{
    if string_arg(args) is Some && bgp.vrfs.contains_key(string_arg(args)->0) {
        let name = string_arg(args)->0;
        assert(bgp.vrfs.insert(name, bgp.vrfs[name]) =~= bgp.vrfs);
    }
}

/// The same for a leaf of a neighbor, which may leave an empty neighbor behind.
pub proof fn unreadable_neighbor_value_is_refused<K, T>(
    bgp: BgpView,
    args: Seq<ArgView>,
    key: Option<K>,
    leaf: spec_fn(K) -> Leaf<BgpVrfNeighborConfigView, T>,
)
    requires
        string_arg(args) matches Some(name) ==> bgp.vrfs.contains_key(name),
    ensures
        ({
            let (after, r) = stage_neighbor(bgp, args, key, None::<T>, ConfigOp::Assign, leaf);
            &&& r is None
            &&& after == bgp || (neighbor_gone(bgp, args) && after == bgp.with_vrf(
                string_arg(args)->0,
                bgp.vrfs[string_arg(args)->0].with_neighbor(
                    addr_arg(rest(args))->0,
                    BgpVrfNeighborConfigView::unset(),
                ),
            ))
        }),
{
    if string_arg(args) is Some && addr_arg(rest(args)) is Some && key is Some {
        let name = string_arg(args)->0;
        let address = addr_arg(rest(args))->0;
        let neighbors = bgp.vrfs[name].neighbors;
        if neighbors.contains_key(address) {
            assert(neighbors.insert(address, neighbors[address]) =~= neighbors);
            assert(bgp.vrfs.insert(name, bgp.vrfs[name]) =~= bgp.vrfs);
        }
    }
}

/// Assigning a leaf and then deleting it is deleting it; assigning it twice is
/// assigning the second value. Nothing else of the instance is touched.
pub proof fn vrf_leaf_overwrites<K, T>(
    bgp: BgpView,
    args: Seq<ArgView>,
    key: K,
    first: T,
    second: T,
    leaf: spec_fn(K) -> Leaf<BgpVrfConfigView, T>,
)
    requires
        string_arg(args) matches Some(name) && bgp.vrfs.contains_key(name),
        leaf(key).lawful(),
    ensures
        ({
            let once = stage_vrf(bgp, args, Some(key), Some(first), ConfigOp::Assign, leaf).0;
            &&& stage_vrf(once, args, Some(key), None::<T>, ConfigOp::Delete, leaf) == stage_vrf(
                bgp,
                args,
                Some(key),
                None::<T>,
                ConfigOp::Delete,
                leaf,
            )
            &&& stage_vrf(once, args, Some(key), Some(second), ConfigOp::Assign, leaf)
                == stage_vrf(bgp, args, Some(key), Some(second), ConfigOp::Assign, leaf)
            &&& once.pending == bgp.pending
            &&& once.registry == bgp.registry
            &&& once.outbox == bgp.outbox
            &&& forall|other: Seq<char>|
                Some(other) != string_arg(args) && #[trigger] bgp.vrfs.contains_key(other)
                    ==> once.vrfs.contains_key(other) && once.vrfs[other] == bgp.vrfs[other]
        }),
{
    let name = string_arg(args)->0;
    let l = leaf(key);
    let cfg = bgp.vrfs[name];
    let set = (l.set)(cfg, first);
    assert((l.clear)(set) == (l.clear)(cfg));
    assert((l.set)(set, second) == (l.set)(cfg, second));
    assert(bgp.vrfs.insert(name, set).insert(name, (l.clear)(set)) =~= bgp.vrfs.insert(
        name,
        (l.clear)(cfg),
    ));
    assert(bgp.vrfs.insert(name, set).insert(name, (l.set)(set, second)) =~= bgp.vrfs.insert(
        name,
        (l.set)(cfg, second),
    ));
}

/// The same for a leaf of a neighbor.
pub proof fn neighbor_leaf_overwrites<K, T>(
    bgp: BgpView,
    args: Seq<ArgView>,
    key: K,
    first: T,
    second: T,
    leaf: spec_fn(K) -> Leaf<BgpVrfNeighborConfigView, T>,
)
    requires
        string_arg(args) matches Some(name) && addr_arg(rest(args)) matches Some(address)
            && bgp.vrfs.contains_key(name) && bgp.vrfs[name].neighbors.contains_key(address),
        leaf(key).lawful(),
    ensures
        ({
            let once = stage_neighbor(bgp, args, Some(key), Some(first), ConfigOp::Assign, leaf).0;
            &&& stage_neighbor(once, args, Some(key), None::<T>, ConfigOp::Delete, leaf)
                == stage_neighbor(bgp, args, Some(key), None::<T>, ConfigOp::Delete, leaf)
            &&& stage_neighbor(once, args, Some(key), Some(second), ConfigOp::Assign, leaf)
                == stage_neighbor(bgp, args, Some(key), Some(second), ConfigOp::Assign, leaf)
        }),
{
    let name = string_arg(args)->0;
    let address = addr_arg(rest(args))->0;
    let l = leaf(key);
    let cfg = bgp.vrfs[name];
    let neighbor = cfg.neighbors[address];
    let set = (l.set)(neighbor, first);
    let with_set = cfg.with_neighbor(address, set);
    assert((l.clear)(set) == (l.clear)(neighbor));
    assert((l.set)(set, second) == (l.set)(neighbor, second));
    assert forall|last: BgpVrfNeighborConfigView| #[trigger]
        with_set.with_neighbor(address, last) == cfg.with_neighbor(address, last) by {
        assert(with_set.neighbors.insert(address, last) =~= cfg.neighbors.insert(address, last));
    }
    assert forall|last: BgpVrfConfigView| #[trigger]
        bgp.vrfs.insert(name, with_set).insert(name, last) == bgp.vrfs.insert(name, last) by {
        assert(bgp.vrfs.insert(name, with_set).insert(name, last) =~= bgp.vrfs.insert(name, last));
    }
}

/// The plain leaves are lawful: each holds one value that a delete takes back
/// without touching anything else.
pub proof fn plain_leaves_are_lawful()
    ensures
        rd_leaf().lawful(),
        router_id_leaf().lawful(),
        label_mode_leaf().lawful(),
        encapsulation_leaf().lawful(),
        inter_as_hybrid_leaf().lawful(),
        evpn_advertise_ipv4_leaf().lawful(),
        evpn_advertise_ipv6_leaf().lawful(),
        evpn_l3vni_leaf().lawful(),
        evpn_router_mac_leaf().lawful(),
        mup_dataplane_leaf().lawful(),
        mup_ext_comm_leaf().lawful(),
        mup_segment_prefix_leaf().lawful(),
        remote_as_leaf().lawful(),
        peer_group_leaf().lawful(),
        description_leaf().lawful(),
        connect_retry_time_leaf().lawful(),
        hold_time_leaf().lawful(),
        idle_hold_time_leaf().lawful(),
        forall|afi_safi: AfiSafi| #[trigger] afi_safi_enabled_leaf(afi_safi).lawful(),
{
    assert forall|afi_safi: AfiSafi| #[trigger] afi_safi_enabled_leaf(afi_safi).lawful() by {
        let l = afi_safi_enabled_leaf(afi_safi);
        assert forall|s: BgpVrfNeighborConfigView, t: bool|
            (l.clear)(#[trigger] (l.set)(s, t)) == (l.clear)(s) by {
            assert((l.clear)((l.set)(s, t)).mp_explicit =~= (l.clear)(s).mp_explicit);
        }
        assert forall|s: BgpVrfNeighborConfigView, t: bool, u: bool|
            (l.set)(#[trigger] (l.set)(s, t), u) == #[trigger] (l.set)(s, u) by {
            assert((l.set)((l.set)(s, t), u).mp_explicit =~= (l.set)(s, u).mp_explicit);
        }
        assert forall|s: BgpVrfNeighborConfigView, t: bool| #[trigger]
            (l.set)((l.clear)(s), t) == (l.set)(s, t) by {
            assert((l.set)((l.clear)(s), t).mp_explicit =~= (l.set)(s, t).mp_explicit);
        }
        assert forall|s: BgpVrfNeighborConfigView|
            (l.clear)(#[trigger] (l.clear)(s)) == (l.clear)(s) by {
            assert((l.clear)((l.clear)(s)).mp_explicit =~= (l.clear)(s).mp_explicit);
        }
    }
}

/// Each timer is a leaf of its own: assigning or deleting one leaves the others
/// as they were, and so does it with the rest of the neighbor.
pub proof fn timers_are_independent(neighbor: BgpVrfNeighborConfigView, seconds: u16)
    ensures
        ({
            let retry = connect_retry_time_leaf();
            let hold = hold_time_leaf();
            let idle = idle_hold_time_leaf();
            &&& forall|after: BgpVrfNeighborConfigView|
                after == (retry.set)(neighbor, seconds) || after == (retry.clear)(neighbor)
                    ==> #[trigger] same_but_timer(after, neighbor) && after.timer.hold_time
                    == neighbor.timer.hold_time && after.timer.idle_hold_time
                    == neighbor.timer.idle_hold_time
            &&& forall|after: BgpVrfNeighborConfigView|
                after == (hold.set)(neighbor, seconds) || after == (hold.clear)(neighbor)
                    ==> #[trigger] same_but_timer(after, neighbor)
                    && after.timer.connect_retry_time == neighbor.timer.connect_retry_time
                    && after.timer.idle_hold_time == neighbor.timer.idle_hold_time
            &&& forall|after: BgpVrfNeighborConfigView|
                after == (idle.set)(neighbor, seconds) || after == (idle.clear)(neighbor)
                    ==> #[trigger] same_but_timer(after, neighbor)
                    && after.timer.connect_retry_time == neighbor.timer.connect_retry_time
                    && after.timer.hold_time == neighbor.timer.hold_time
        }),
{
}

/// Whether two neighbors differ in their timers at most, and not in a timer
/// that no leaf assigns.
pub open spec fn same_but_timer(a: BgpVrfNeighborConfigView, b: BgpVrfNeighborConfigView) -> bool {
    &&& a.remote_as == b.remote_as
    &&& a.peer_group == b.peer_group
    &&& a.description == b.description
    &&& a.mp_explicit == b.mp_explicit
    &&& a.prefix_set == b.prefix_set
    &&& a.timer.min_adv_interval == b.timer.min_adv_interval
    &&& a.timer.orig_interval == b.timer.orig_interval
    &&& a.timer.delay_open_time == b.timer.delay_open_time
}

/// A neighbor is added at most once and removed without trace, and neither
/// touches another neighbor.
pub proof fn neighbor_list(cfg: BgpVrfConfigView, address: IpAddr, other: IpAddr)
    requires
        other != address,
    ensures
        ({
            let l = neighbor_leaf(address);
            let added = (l.set)(cfg, ());
            let removed = (l.clear)(cfg);
            &&& added.neighbors.contains_key(address)
            &&& (l.set)(added, ()) == added
            &&& !removed.neighbors.contains_key(address)
            &&& (l.clear)(added) == removed
            &&& !cfg.neighbors.contains_key(address) ==> removed == cfg
            &&& added.neighbors.contains_key(other) == cfg.neighbors.contains_key(other)
            &&& removed.neighbors.contains_key(other) == cfg.neighbors.contains_key(other)
            &&& added.neighbors[other] == cfg.neighbors[other]
            &&& removed.neighbors[other] == cfg.neighbors[other]
        }),
{
    let l = neighbor_leaf(address);
    assert((l.clear)((l.set)(cfg, ())).neighbors =~= (l.clear)(cfg).neighbors);
    if !cfg.neighbors.contains_key(address) {
        assert((l.clear)(cfg).neighbors =~= cfg.neighbors);
    }
}

/// One VRF may bind both directions of a mobile user plane: whatever is done
/// to the binding of one leaves the other's alone, and removing a binding
/// undoes all that was staged into it.
pub proof fn mup_directions_are_independent(
    cfg: BgpVrfConfigView,
    direction: MupSrv6Direction,
    other: MupSrv6Direction,
    instance: Seq<char>,
    community: RouteDistinguisherView,
)
    requires
        other != direction,
    ensures
        ({
            let route = mup_route_leaf(direction);
            let ni = mup_network_instance_leaf(direction);
            let comm = mup_route_ext_comm_leaf(direction);
            &&& forall|after: BgpVrfConfigView|
                {
                    ||| after == (route.set)(cfg, ())
                    ||| after == (route.clear)(cfg)
                    ||| after == (ni.set)(cfg, instance)
                    ||| after == (ni.clear)(cfg)
                    ||| after == (comm.set)(cfg, community)
                    ||| after == (comm.clear)(cfg)
                } ==> #[trigger] after.mobile_uplane.routes.contains_key(other)
                    == cfg.mobile_uplane.routes.contains_key(other)
                    && after.mobile_uplane.routes[other] == cfg.mobile_uplane.routes[other]
            &&& (route.clear)((route.set)(cfg, ())) == (route.clear)(cfg)
            &&& (route.clear)((ni.set)(cfg, instance)) == (route.clear)(cfg)
            &&& (route.clear)((comm.set)(cfg, community)) == (route.clear)(cfg)
            &&& (ni.clear)((route.clear)(cfg)) == (route.clear)(cfg)
            &&& (comm.clear)((route.clear)(cfg)) == (route.clear)(cfg)
            &&& (ni.set)((comm.set)(cfg, community), instance) == (comm.set)(
                (ni.set)(cfg, instance),
                community,
            )
        }),
{
    let route = mup_route_leaf(direction);
    let ni = mup_network_instance_leaf(direction);
    let comm = mup_route_ext_comm_leaf(direction);
    let cleared = (route.clear)(cfg).mobile_uplane.routes;
    assert((route.clear)((route.set)(cfg, ())).mobile_uplane.routes =~= cleared);
    assert((route.clear)((ni.set)(cfg, instance)).mobile_uplane.routes =~= cleared);
    assert((route.clear)((comm.set)(cfg, community)).mobile_uplane.routes =~= cleared);
    assert((ni.set)((comm.set)(cfg, community), instance).mobile_uplane.routes =~= (comm.set)(
        (ni.set)(cfg, instance),
        community,
    ).mobile_uplane.routes);
}

/// Deleting a segment of one mode leaves a segment of the other mode alone, and
/// takes back an assignment of its own.
pub proof fn mup_segment_modes(cfg: BgpVrfConfigView, mode: MupSegmentMode, other: MupSegmentMode)
    requires
        other != mode,
    ensures
        ((mup_segment_leaf(mode).clear)((mup_segment_leaf(mode).set)(
            cfg,
            (),
        ))).mobile_uplane.segment is None,
        (mup_segment_leaf(mode).clear)((mup_segment_leaf(other).set)(cfg, ())) == (
        mup_segment_leaf(other).set)(cfg, ()),
{
}

} // verus!
