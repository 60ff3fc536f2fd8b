//! What of a VRF's configuration a running VRF is built from, and when two
//! configurations build the same one.

use vstd::prelude::*;
use crate::bgp::prefix_set::with_binding;
use crate::bgp::structure_laws::{builds_the_same, structure_is_the_fields};
use crate::bgp::types::{BgpVrfAfConfigView, BgpVrfConfig, BgpVrfConfigView, BgpVrfEncapsulation,
    BgpVrfLabelMode, BgpVrfMobileUplaneView, BgpVrfNeighborConfig, BgpVrfNeighborConfigView, InOut,
    MupDataplane, MupRouteBindingView, MupSegmentMode, MupSrv6Direction, TimerConfig};
use crate::net::{Afi, AfiSafi, IpAddr, IpNet, Ipv4Addr, Ipv4Net, Ipv6Net, RouteDistinguisherView,
    Safi};
use crate::order::{in_order, visited, visited_all, visited_next, visited_none};
use crate::sorted_map::{SortedMap, SortedSet};
use crate::value::Value;

verus! {

/// What a peer group says of one address family.
#[derive(Debug, Clone, Copy, PartialEq, Eq, Structural)]
pub struct GroupAfiSafi {
    pub enabled: bool,
}

impl DeepView for GroupAfiSafi {
    type V = bool;

    open spec fn deep_view(&self) -> bool {
        self.enabled
    }
}

/// A peer group: what its members fall back to where they say nothing.
#[derive(Debug)]
pub struct NeighborGroup {
    pub remote_as: Option<u32>,
    pub afi_safi: SortedMap<AfiSafi, GroupAfiSafi>,
}

/// What a peer group holds.
pub struct NeighborGroupView {
    pub remote_as: Option<u32>,
    pub afi_safi: Map<AfiSafi, bool>,
}

impl View for NeighborGroup {
    type V = NeighborGroupView;

    open spec fn view(&self) -> NeighborGroupView {
        NeighborGroupView { remote_as: self.remote_as, afi_safi: self.afi_safi@ }
    }
}

impl DeepView for NeighborGroup {
    type V = NeighborGroupView;

    open spec fn deep_view(&self) -> NeighborGroupView {
        self@
    }
}

/// The group that a neighbor belongs to, where it names one that exists.
pub open spec fn group_of(
    neighbor: BgpVrfNeighborConfigView,
    groups: Map<Seq<char>, NeighborGroupView>,
) -> Option<NeighborGroupView> {
    match neighbor.peer_group {
        Some(name) => if groups.contains_key(name) {
            Some(groups[name])
        } else {
            None
        },
        None => None,
    }
}

/// The family that a session has by its address alone.
pub open spec fn base_family(address: IpAddr) -> AfiSafi {
    AfiSafi {
        afi: if address is V6 {
            Afi::Ip6
        } else {
            Afi::Ip
        },
        safi: Safi::Unicast,
    }
}

/// Whether a session negotiates a family. The neighbor's own statement comes
/// first, then the group's; where neither speaks of the family, the address
/// decides.
pub open spec fn negotiates(
    address: IpAddr,
    neighbor: BgpVrfNeighborConfigView,
    group: Option<NeighborGroupView>,
    family: AfiSafi,
) -> bool {
    if neighbor.mp_explicit.contains_key(family) {
        neighbor.mp_explicit[family]
    } else if group is Some && group->0.afi_safi.contains_key(family) {
        group->0.afi_safi[family]
    } else {
        family == base_family(address)
    }
}

/// What the session with a neighbor is built from.
pub struct NeighborStructureView {
    pub remote_as: Option<u32>,
    pub peer_group: Option<Seq<char>>,
    pub description: Option<Seq<char>>,
    pub families: Set<AfiSafi>,
    pub timer: TimerConfig,
}

/// What the session with a neighbor is built from, given the peer groups.
pub open spec fn neighbor_structure(
    address: IpAddr,
    neighbor: BgpVrfNeighborConfigView,
    groups: Map<Seq<char>, NeighborGroupView>,
) -> NeighborStructureView {
    let group = group_of(neighbor, groups);
    NeighborStructureView {
        remote_as: match neighbor.remote_as {
            Some(asn) => Some(asn),
            None => match group {
                Some(group) => group.remote_as,
                None => None,
            },
        },
        peer_group: neighbor.peer_group,
        description: neighbor.description,
        families: Set::new(|family: AfiSafi| negotiates(address, neighbor, group, family)),
        timer: neighbor.timer,
    }
}

/// What the sessions of a VRF are built from.
pub open spec fn neighbor_structures(
    neighbors: Map<IpAddr, BgpVrfNeighborConfigView>,
    groups: Map<Seq<char>, NeighborGroupView>,
) -> Map<IpAddr, NeighborStructureView> {
    Map::new(
        |address: IpAddr| neighbors.contains_key(address),
        |address: IpAddr| neighbor_structure(address, neighbors[address], groups),
    )
}

/// What a running VRF is built from. The prefix-sets bound, the prefixes
/// originated, the sources redistributed and the MUP routes are not part of
/// it: a running VRF is told of those.
pub struct RuntimeStructureView {
    pub rd: Option<RouteDistinguisherView>,
    pub router_id: Option<Ipv4Addr>,
    pub label_mode: BgpVrfLabelMode,
    pub encapsulation: BgpVrfEncapsulation,
    pub neighbors: Map<IpAddr, NeighborStructureView>,
    pub evpn_advertise_v4: bool,
    pub evpn_advertise_v6: bool,
    pub l3vni: Option<u32>,
    pub router_mac: Option<Seq<u8>>,
    pub inter_as_hybrid: bool,
    pub dataplane: MupDataplane,
}

/// What a running VRF is built from, given the peer groups.
pub open spec fn runtime_structure(
    cfg: BgpVrfConfigView,
    groups: Map<Seq<char>, NeighborGroupView>,
) -> RuntimeStructureView {
    RuntimeStructureView {
        rd: cfg.rd,
        router_id: cfg.router_id,
        label_mode: cfg.label_mode,
        encapsulation: cfg.encapsulation,
        neighbors: neighbor_structures(cfg.neighbors, groups),
        evpn_advertise_v4: cfg.evpn_advertise_v4,
        evpn_advertise_v6: cfg.evpn_advertise_v6,
        l3vni: cfg.l3vni,
        router_mac: cfg.router_mac,
        inter_as_hybrid: cfg.inter_as_hybrid,
        dataplane: cfg.mobile_uplane.dataplane,
    }
}

/// The session of a neighbor with all fallbacks resolved.
#[derive(Debug)]
struct NeighborStructure {
    remote_as: Option<u32>,
    peer_group: Option<String>,
    description: Option<String>,
    families: SortedSet<AfiSafi>,
    timer: TimerConfig,
}

impl DeepView for NeighborStructure {
    type V = NeighborStructureView;

    closed spec fn deep_view(&self) -> NeighborStructureView {
        NeighborStructureView {
            remote_as: self.remote_as,
            peer_group: self.peer_group.deep_view(),
            description: self.description.deep_view(),
            families: self.families@,
            timer: self.timer,
        }
    }
}

impl Value for NeighborStructure {
    fn duplicate(&self) -> (r: Self) {
        NeighborStructure {
            remote_as: self.remote_as,
            peer_group: self.peer_group.duplicate(),
            description: self.description.duplicate(),
            families: self.families.duplicate(),
            timer: self.timer,
        }
    }

    fn same(&self, other: &Self) -> (r: bool) {
        self.remote_as.same(&other.remote_as) && self.peer_group.same(&other.peer_group)
            && self.description.same(&other.description) && self.families.same(&other.families)
            && self.timer.same(&other.timer)
    }
}

/// Lay one statement over a set of families.
fn overlay(families: &mut SortedSet<AfiSafi>, family: AfiSafi, enabled: bool)
    ensures
        final(families)@ == (if enabled {
            old(families)@.insert(family)
        } else {
            old(families)@.remove(family)
        }),
{
    if enabled {
        families.insert(family);
    } else {
        families.remove(&family);
    }
}

/// Whether a set has the families of another one after the first statements of
/// a map were laid over it.
spec fn overlay_prefix(
    base: Set<AfiSafi>,
    opinions: Map<AfiSafi, bool>,
    n: int,
    families: Set<AfiSafi>,
) -> bool {
    forall|family: AfiSafi| #[trigger]
        families.contains(family) == (if visited::<AfiSafi>(opinions.dom(), n).contains(family) {
            opinions[family]
        } else {
            base.contains(family)
        })
}

/// The families that a session negotiates.
fn effective_families(
    address: &IpAddr,
    neighbor: &BgpVrfNeighborConfig,
    group: Option<&NeighborGroup>,
) -> (r: SortedSet<AfiSafi>)
    ensures
        r@ == Set::new(
            |family: AfiSafi|
                negotiates(
                    *address,
                    neighbor@,
                    match group {
                        Some(group) => Some(group@),
                        None => None,
                    },
                    family,
                ),
        ),
{
    let base = if address.is_ipv6() {
        AfiSafi::new(Afi::Ip6, Safi::Unicast)
    } else {
        AfiSafi::new(Afi::Ip, Safi::Unicast)
    };
    let mut families: SortedSet<AfiSafi> = SortedSet::new();
    families.insert(base);
    let ghost of_address = families@;
    match group {
        Some(group) => {
            let n = group.afi_safi.len();
            let mut i: usize = 0;
            proof {
                visited_none::<AfiSafi>(group.afi_safi@.dom());
            }
            while i < n
                invariant
                    i <= n,
                    group.afi_safi@.dom().finite(),
                    n == in_order::<AfiSafi>(group.afi_safi@.dom()).len(),
                    overlay_prefix(of_address, group.afi_safi@, i as int, families@),
                decreases n - i,
            {
                let ghost before = families@;
                let family = *group.afi_safi.key_at(i);
                overlay(&mut families, family, group.afi_safi.value_at(i).enabled);
                proof {
                    visited_next::<AfiSafi>(group.afi_safi@.dom(), i as int);
                    assert(forall|f: AfiSafi| #[trigger]
                        families@.contains(f) && f != family ==> before.contains(f));
                    assert(forall|f: AfiSafi| #[trigger]
                        before.contains(f) && f != family ==> families@.contains(f));
                }
                i += 1;
            }
            proof {
                visited_all::<AfiSafi>(group.afi_safi@.dom());
            }
        },
        None => {},
    }
    let ghost of_group = families@;
    let n = neighbor.mp_explicit.len();
    let mut i: usize = 0;
    proof {
        visited_none::<AfiSafi>(neighbor.mp_explicit@.dom());
    }
    while i < n
        invariant
            i <= n,
            neighbor.mp_explicit@.dom().finite(),
            n == in_order::<AfiSafi>(neighbor.mp_explicit@.dom()).len(),
            overlay_prefix(of_group, neighbor.mp_explicit@, i as int, families@),
        decreases n - i,
    {
        let ghost before = families@;
        let family = *neighbor.mp_explicit.key_at(i);
        overlay(&mut families, family, *neighbor.mp_explicit.value_at(i));
        proof {
            visited_next::<AfiSafi>(neighbor.mp_explicit@.dom(), i as int);
            assert(forall|f: AfiSafi| #[trigger]
                families@.contains(f) && f != family ==> before.contains(f));
            assert(forall|f: AfiSafi| #[trigger]
                before.contains(f) && f != family ==> families@.contains(f));
        }
        i += 1;
    }
    proof {
        visited_all::<AfiSafi>(neighbor.mp_explicit@.dom());
        let view = match group {
            Some(group) => Some(group@),
            None => None,
        };
        let wanted = Set::new(
            |family: AfiSafi| negotiates(*address, neighbor@, view, family),
        );
        assert forall|family: AfiSafi| #[trigger] families@.contains(family) == wanted.contains(
            family,
        ) by {
            assert(of_group.contains(family) == of_group.contains(family));
        }
        assert(families@ =~= wanted);
    }
    families
}

/// What the session with one neighbor is built from.
fn structure_of(
    address: &IpAddr,
    neighbor: &BgpVrfNeighborConfig,
    groups: &SortedMap<String, NeighborGroup>,
) -> (r: NeighborStructure)
    ensures
        r.deep_view() == neighbor_structure(*address, neighbor@, groups@),
{
    let group = match &neighbor.peer_group {
        Some(name) => groups.get(name),
        None => None,
    };
    let remote_as = match neighbor.remote_as {
        Some(asn) => Some(asn),
        None => match group {
            Some(group) => group.remote_as,
            None => None,
        },
    };
    let families = effective_families(address, neighbor, group);
    assert(families@ =~= neighbor_structure(*address, neighbor@, groups@).families);
    NeighborStructure {
        remote_as,
        peer_group: neighbor.peer_group.duplicate(),
        description: neighbor.description.duplicate(),
        families,
        timer: neighbor.timer,
    }
}

/// What the sessions of a VRF are built from.
fn structures_of(
    neighbors: &SortedMap<IpAddr, BgpVrfNeighborConfig>,
    groups: &SortedMap<String, NeighborGroup>,
) -> (r: SortedMap<IpAddr, NeighborStructure>)
    ensures
        r@ == neighbor_structures(neighbors@, groups@),
{
    let n = neighbors.len();
    let ghost keys = neighbors@.dom();
    let ghost wanted = neighbor_structures(neighbors@, groups@);
    let mut r: SortedMap<IpAddr, NeighborStructure> = SortedMap::new();
    let mut i: usize = 0;
    proof {
        visited_none::<IpAddr>(keys);
    }
    while i < n
        invariant
            i <= n,
            keys == neighbors@.dom(),
            keys.finite(),
            n == in_order::<IpAddr>(keys).len(),
            wanted == neighbor_structures(neighbors@, groups@),
            r@.dom() =~= visited::<IpAddr>(keys, i as int),
            forall|address: IpAddr| #[trigger]
                r@.contains_key(address) ==> r@[address] == wanted[address],
        decreases n - i,
    {
        let address = neighbors.key_at(i);
        let structure = structure_of(address, neighbors.value_at(i), groups);
        proof {
            visited_next::<IpAddr>(keys, i as int);
        }
        r.insert(*address, structure);
        i += 1;
    }
    proof {
        visited_all::<IpAddr>(keys);
        assert(r@ =~= wanted);
    }
    r
}

/// Whether two configurations, each with the peer groups of its time, build the
/// same running VRF. Where they do, a commit need not reset the sessions.
pub fn runtime_structure_eq(
    before: &BgpVrfConfig,
    before_groups: &SortedMap<String, NeighborGroup>,
    after: &BgpVrfConfig,
    after_groups: &SortedMap<String, NeighborGroup>,
) -> (r: bool)
    ensures
        r == (runtime_structure(before@, before_groups@) == runtime_structure(
            after@,
            after_groups@,
        )),
        r == builds_the_same(before@, before_groups@, after@, after_groups@),
{
    proof {
        structure_is_the_fields(before@, before_groups@, after@, after_groups@);
    }
    before.rd.same(&after.rd) && before.router_id.same(&after.router_id) && before.label_mode
        == after.label_mode && before.encapsulation == after.encapsulation && structures_of(
        &before.neighbors,
        before_groups,
    ).same(&structures_of(&after.neighbors, after_groups)) && before.evpn_advertise_v4
        == after.evpn_advertise_v4 && before.evpn_advertise_v6 == after.evpn_advertise_v6
        && before.l3vni.same(&after.l3vni) && before.router_mac.same(&after.router_mac)
        && before.inter_as_hybrid == after.inter_as_hybrid && before.mobile_uplane.dataplane
        == after.mobile_uplane.dataplane
}

/// Binding a prefix-set for a neighbor that exists does not change what the
/// VRF is built from.
pub proof fn structure_ignores_prefix_sets(
    cfg: BgpVrfConfigView,
    groups: Map<Seq<char>, NeighborGroupView>,
    address: IpAddr,
    afi_safi: AfiSafi,
    direction: InOut,
    name: Option<Seq<char>>,
)
    requires
        cfg.neighbors.contains_key(address),
    ensures
        runtime_structure(with_binding(cfg, address, afi_safi, direction, name), groups)
            == runtime_structure(cfg, groups),
{
    let after = with_binding(cfg, address, afi_safi, direction, name);
    assert forall|a: IpAddr| cfg.neighbors.contains_key(a) implies neighbor_structure(
        a,
        #[trigger] after.neighbors[a],
        groups,
    ) == neighbor_structure(a, cfg.neighbors[a], groups) by {
        assert(neighbor_structure(a, after.neighbors[a], groups).families =~= neighbor_structure(
            a,
            cfg.neighbors[a],
            groups,
        ).families);
    }
    assert(neighbor_structures(after.neighbors, groups) =~= neighbor_structures(
        cfg.neighbors,
        groups,
    ));
}

/// Neither do the prefixes that the VRF originates and the sources that it
/// redistributes from, nor the routes and the segment of its MUP service.
pub proof fn structure_ignores_routes(
    cfg: BgpVrfConfigView,
    groups: Map<Seq<char>, NeighborGroupView>,
    ipv4: Option<BgpVrfAfConfigView<Ipv4Net>>,
    ipv6: Option<BgpVrfAfConfigView<Ipv6Net>>,
    routes: Map<MupSrv6Direction, MupRouteBindingView>,
    segment: Option<MupSegmentMode>,
    community: Option<RouteDistinguisherView>,
    prefix: Option<IpNet>,
)
    ensures
        runtime_structure(
            BgpVrfConfigView {
                ipv4_unicast: ipv4,
                ipv6_unicast: ipv6,
                mobile_uplane: BgpVrfMobileUplaneView {
                    routes,
                    segment,
                    mup_ext_comm: community,
                    interwork_prefix: prefix,
                    ..cfg.mobile_uplane
                },
                ..cfg
            },
            groups,
        ) == runtime_structure(cfg, groups),
{
}

/// The configuration with a neighbor's statement on a family exchanged.
pub open spec fn with_statement(
    cfg: BgpVrfConfigView,
    address: IpAddr,
    family: AfiSafi,
    enabled: bool,
) -> BgpVrfConfigView {
    cfg.with_neighbor(
        address,
        BgpVrfNeighborConfigView {
            mp_explicit: cfg.neighbors[address].mp_explicit.insert(family, enabled),
            ..cfg.neighbors[address]
        },
    )
}

/// Spelling out what a session negotiates already does not change what the VRF
/// is built from, and stating the contrary does.
pub proof fn structure_goes_by_effect(
    cfg: BgpVrfConfigView,
    groups: Map<Seq<char>, NeighborGroupView>,
    address: IpAddr,
    family: AfiSafi,
    enabled: bool,
)
    requires
        cfg.neighbors.contains_key(address),
    ensures
        ({
            let neighbor = cfg.neighbors[address];
            let stated = with_statement(cfg, address, family, enabled);
            (runtime_structure(stated, groups) == runtime_structure(cfg, groups)) == (enabled
                == negotiates(address, neighbor, group_of(neighbor, groups), family))
        }),
{
    let neighbor = cfg.neighbors[address];
    let group = group_of(neighbor, groups);
    let stated = with_statement(cfg, address, family, enabled);
    let changed = stated.neighbors[address];
    let before = neighbor_structure(address, neighbor, groups);
    let after = neighbor_structure(address, changed, groups);
    assert(after.families.contains(family) == enabled);
    assert(before.families.contains(family) == negotiates(address, neighbor, group, family));
    if enabled == negotiates(address, neighbor, group, family) {
        assert forall|f: AfiSafi| #[trigger] after.families.contains(f) == before.families.contains(
            f,
        ) by {}
        assert(after.families =~= before.families);
        assert(neighbor_structures(stated.neighbors, groups) =~= neighbor_structures(
            cfg.neighbors,
            groups,
        ));
    } else {
        assert(neighbor_structures(stated.neighbors, groups)[address] == after);
        assert(neighbor_structures(cfg.neighbors, groups)[address] == before);
    }
}

/// A neighbor's own statement on a family outweighs its group's, and with
/// neither the session has the family of its address alone.
pub proof fn statements_outweigh_groups(
    address: IpAddr,
    neighbor: BgpVrfNeighborConfigView,
    group: Option<NeighborGroupView>,
    family: AfiSafi,
)
    ensures
        neighbor.mp_explicit.contains_key(family) ==> negotiates(address, neighbor, group, family)
            == negotiates(address, neighbor, None, family),
        neighbor.mp_explicit == Map::<AfiSafi, bool>::empty() && group is None ==> negotiates(
            address,
            neighbor,
            group,
            family,
        ) == (family == base_family(address)),
{
}

} // verus!
