//! When two configurations build the same running VRF, field by field.

use vstd::prelude::*;
use crate::bgp::structure::{neighbor_structure, neighbor_structures, runtime_structure,
    NeighborGroupView};
use crate::bgp::types::{BgpVrfConfigView, BgpVrfNeighborConfigView};
use crate::net::{Afi, AfiSafi, IpAddr, Safi};

verus! {

/// The autonomous system that a session expects: the neighbor's own, or else
/// that of the group that it names.
pub open spec fn effective_as(
    neighbor: BgpVrfNeighborConfigView,
    groups: Map<Seq<char>, NeighborGroupView>,
) -> Option<u32> {
    if neighbor.remote_as is Some {
        neighbor.remote_as
    } else if neighbor.peer_group is Some && groups.contains_key(neighbor.peer_group->0) {
        groups[neighbor.peer_group->0].remote_as
    } else {
        None
    }
}

/// Whether a session has a family: as the neighbor says, or else as the group
/// that it names says, or else by whether the family is unicast of the kind of
/// the neighbor's address.
pub open spec fn effective_family(
    address: IpAddr,
    neighbor: BgpVrfNeighborConfigView,
    groups: Map<Seq<char>, NeighborGroupView>,
    family: AfiSafi,
) -> bool {
    if neighbor.mp_explicit.contains_key(family) {
        neighbor.mp_explicit[family]
    } else if neighbor.peer_group is Some && groups.contains_key(neighbor.peer_group->0)
        && groups[neighbor.peer_group->0].afi_safi.contains_key(family) {
        groups[neighbor.peer_group->0].afi_safi[family]
    } else {
        &&& family.safi == Safi::Unicast
        &&& address is V4 ==> family.afi == Afi::Ip
        &&& address is V6 ==> family.afi == Afi::Ip6
    }
}

/// Whether the session with a neighbor is built alike from two configurations.
pub open spec fn same_session(
    address: IpAddr,
    a: BgpVrfNeighborConfigView,
    a_groups: Map<Seq<char>, NeighborGroupView>,
    b: BgpVrfNeighborConfigView,
    b_groups: Map<Seq<char>, NeighborGroupView>,
) -> bool {
    &&& effective_as(a, a_groups) == effective_as(b, b_groups)
    &&& a.peer_group == b.peer_group
    &&& a.description == b.description
    &&& a.timer.connect_retry_time == b.timer.connect_retry_time
    &&& a.timer.hold_time == b.timer.hold_time
    &&& a.timer.idle_hold_time == b.timer.idle_hold_time
    &&& a.timer.min_adv_interval == b.timer.min_adv_interval
    &&& a.timer.orig_interval == b.timer.orig_interval
    &&& a.timer.delay_open_time == b.timer.delay_open_time
    &&& forall|family: AfiSafi| #[trigger]
        effective_family(address, a, a_groups, family) == effective_family(
            address,
            b,
            b_groups,
            family,
        )
}

/// Whether the same VRF is built from two configurations, by their own fields.
pub open spec fn builds_the_same(
    a: BgpVrfConfigView,
    a_groups: Map<Seq<char>, NeighborGroupView>,
    b: BgpVrfConfigView,
    b_groups: Map<Seq<char>, NeighborGroupView>,
) -> bool {
    &&& a.rd == b.rd
    &&& a.router_id == b.router_id
    &&& a.label_mode == b.label_mode
    &&& a.encapsulation == b.encapsulation
    &&& a.evpn_advertise_v4 == b.evpn_advertise_v4
    &&& a.evpn_advertise_v6 == b.evpn_advertise_v6
    &&& a.l3vni == b.l3vni
    &&& a.router_mac == b.router_mac
    &&& a.inter_as_hybrid == b.inter_as_hybrid
    &&& a.mobile_uplane.dataplane == b.mobile_uplane.dataplane
    &&& forall|address: IpAddr| #[trigger]
        a.neighbors.contains_key(address) == b.neighbors.contains_key(address)
    &&& forall|address: IpAddr| #[trigger]
        a.neighbors.contains_key(address) ==> same_session(
            address,
            a.neighbors[address],
            a_groups,
            b.neighbors[address],
            b_groups,
        )
}

/// One neighbor is built alike just where its session is the same.
proof fn session_is_the_structure(
    address: IpAddr,
    a: BgpVrfNeighborConfigView,
    a_groups: Map<Seq<char>, NeighborGroupView>,
    b: BgpVrfNeighborConfigView,
    b_groups: Map<Seq<char>, NeighborGroupView>,
)
    ensures
        (neighbor_structure(address, a, a_groups) == neighbor_structure(address, b, b_groups))
            == same_session(address, a, a_groups, b, b_groups),
{
    let x = neighbor_structure(address, a, a_groups);
    let y = neighbor_structure(address, b, b_groups);
    assert forall|family: AfiSafi| #[trigger] x.families.contains(family) == effective_family(
        address,
        a,
        a_groups,
        family,
    ) by {}
    assert forall|family: AfiSafi| #[trigger] y.families.contains(family) == effective_family(
        address,
        b,
        b_groups,
        family,
    ) by {}
    if same_session(address, a, a_groups, b, b_groups) {
        assert forall|family: AfiSafi| x.families.contains(family) == y.families.contains(
            family,
        ) by {
            assert(effective_family(address, a, a_groups, family) == effective_family(
                address,
                b,
                b_groups,
                family,
            ));
        }
        assert(x.families =~= y.families);
        assert(a.timer == b.timer);
        assert(x == y);
    }
    if x == y {
        assert forall|family: AfiSafi| #[trigger]
            effective_family(address, a, a_groups, family) == effective_family(
                address,
                b,
                b_groups,
                family,
            ) by {
            assert(x.families.contains(family) == y.families.contains(family));
        }
    }
}

/// Two configurations build the same running VRF if and only if they agree in
/// every field that it is built from, and in the sessions of all neighbors.
pub proof fn structure_is_the_fields(
    a: BgpVrfConfigView,
    a_groups: Map<Seq<char>, NeighborGroupView>,
    b: BgpVrfConfigView,
    b_groups: Map<Seq<char>, NeighborGroupView>,
)
    ensures
        (runtime_structure(a, a_groups) == runtime_structure(b, b_groups)) == builds_the_same(
            a,
            a_groups,
            b,
            b_groups,
        ),
{
    let x = neighbor_structures(a.neighbors, a_groups);
    let y = neighbor_structures(b.neighbors, b_groups);
    if builds_the_same(a, a_groups, b, b_groups) {
        assert forall|address: IpAddr| x.contains_key(address) == y.contains_key(address) by {
            assert(a.neighbors.contains_key(address) == b.neighbors.contains_key(address));
        }
        assert forall|address: IpAddr| x.contains_key(address) implies x[address]
            == y[address] by {
            assert(a.neighbors.contains_key(address));
            session_is_the_structure(
                address,
                a.neighbors[address],
                a_groups,
                b.neighbors[address],
                b_groups,
            );
        }
        assert(x =~= y);
    }
    if runtime_structure(a, a_groups) == runtime_structure(b, b_groups) {
        assert(x == y);
        assert forall|address: IpAddr| #[trigger]
            a.neighbors.contains_key(address) == b.neighbors.contains_key(address) by {
            assert(x.contains_key(address) == y.contains_key(address));
        }
        assert forall|address: IpAddr| #[trigger]
            a.neighbors.contains_key(address) implies same_session(
            address,
            a.neighbors[address],
            a_groups,
            b.neighbors[address],
            b_groups,
        ) by {
            assert(x.contains_key(address) && y.contains_key(address));
            assert(x[address] == y[address]);
            session_is_the_structure(
                address,
                a.neighbors[address],
                a_groups,
                b.neighbors[address],
                b_groups,
            );
        }
    }
}

} // verus!
