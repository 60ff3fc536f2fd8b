//! The configuration callbacks for the leaves of a VRF.

use vstd::prelude::*;
use crate::args::{addr_arg, afi_safi_arg, boolean_arg, mac_arg, net_arg, rd_arg, rest, string_arg,
    u16_arg, u32_arg, v4addr_arg, ArgView, Args, ConfigOp};
use crate::bgp::staging::{neighbor_entry, stage_neighbor, stage_vrf, vrf_entry, Leaf};
use crate::bgp::state::{Bgp, BgpView};
use crate::bgp::types::{dataplane_of, encapsulation_of, label_mode_of, segment_mode_of,
    BgpVrfConfig, BgpVrfConfigView, BgpVrfEncapsulation, BgpVrfLabelMode, BgpVrfMobileUplaneView,
    BgpVrfNeighborConfig, BgpVrfNeighborConfigView, MupDataplane, MupRouteBinding,
    MupRouteBindingView, MupSegmentMode, MupSrv6Direction, TimerConfig};
use crate::net::{AfiSafi, IpAddr, IpNet, Ipv4Addr, RouteDistinguisherView};
use crate::text::same_text;

verus! {

/// The effect of the callback for a VRF itself.
pub open spec fn vrf_staged(bgp: BgpView, args: Seq<ArgView>, op: ConfigOp) -> (
    BgpView,
    Option<()>,
) {
    match string_arg(args) {
        None => (bgp, None),
        Some(name) => (
            match op {
                ConfigOp::Assign => if bgp.vrfs.contains_key(name) {
                    bgp
                } else {
                    bgp.with_vrf(name, BgpVrfConfigView::unset())
                },
                ConfigOp::Delete => BgpView { vrfs: bgp.vrfs.remove(name), ..bgp },
                _ => bgp,
            },
            Some(()),
        ),
    }
}

/// `router bgp vrf <NAME>`.
pub fn config_vrf(bgp: &mut Bgp, mut args: Args, op: ConfigOp) -> (r: Option<()>)
    ensures
        (final(bgp)@, r) == vrf_staged(old(bgp)@, args@, op),
{
    let name = args.string()?;
    match op {
        ConfigOp::Assign => {
            let ghost before = bgp@;
            bgp.vrfs.get_or_insert(name, BgpVrfConfig::default());
            assert(before.vrfs.contains_key(name@) ==> bgp@.vrfs =~= before.vrfs);
        },
        ConfigOp::Delete => {
            let ghost before = bgp@;
            bgp.vrfs.remove(&name);
            assert(bgp@.vrfs =~= before.vrfs.remove(name@));
        },
        _ => {},
    }
    Some(())
}

/// The route distinguisher.
pub open spec fn rd_leaf() -> Leaf<BgpVrfConfigView, RouteDistinguisherView> {
    Leaf {
        set: |cfg: BgpVrfConfigView, rd: RouteDistinguisherView|
            BgpVrfConfigView { rd: Some(rd), ..cfg },
        clear: |cfg: BgpVrfConfigView| BgpVrfConfigView { rd: None, ..cfg },
    }
}

/// `router bgp vrf <NAME> rd <RD>`.
pub fn config_vrf_rd(bgp: &mut Bgp, mut args: Args, op: ConfigOp) -> (r: Option<()>)
    ensures
        (final(bgp)@, r) == stage_vrf(
            old(bgp)@,
            args@,
            Some(()),
            rd_arg(rest(args@)),
            op,
            |key: ()| rd_leaf(),
        ),
{
    let name = args.string()?;
    let cfg = vrf_entry(bgp, name, op)?;
    match op {
        ConfigOp::Assign => cfg.rd = Some(args.rd()?),
        ConfigOp::Delete => cfg.rd = None,
        _ => {},
    }
    Some(())
}

/// The router identifier.
pub open spec fn router_id_leaf() -> Leaf<BgpVrfConfigView, Ipv4Addr> {
    Leaf {
        set: |cfg: BgpVrfConfigView, id: Ipv4Addr|
            BgpVrfConfigView { router_id: Some(id), ..cfg },
        clear: |cfg: BgpVrfConfigView| BgpVrfConfigView { router_id: None, ..cfg },
    }
}

/// `router bgp vrf <NAME> router-id <IPv4>`.
pub fn config_vrf_router_id(bgp: &mut Bgp, mut args: Args, op: ConfigOp) -> (r: Option<()>)
    ensures
        (final(bgp)@, r) == stage_vrf(
            old(bgp)@,
            args@,
            Some(()),
            v4addr_arg(rest(args@)),
            op,
            |key: ()| router_id_leaf(),
        ),
{
    let name = args.string()?;
    let cfg = vrf_entry(bgp, name, op)?;
    match op {
        ConfigOp::Assign => cfg.router_id = Some(args.v4addr()?),
        ConfigOp::Delete => cfg.router_id = None,
        _ => {},
    }
    Some(())
}

/// The label mode of the first argument.
pub open spec fn label_mode_arg(args: Seq<ArgView>) -> Option<BgpVrfLabelMode> {
    match string_arg(args) {
        Some(text) => label_mode_of(text),
        None => None,
    }
}

/// The label mode, one label for each VRF unless assigned.
pub open spec fn label_mode_leaf() -> Leaf<BgpVrfConfigView, BgpVrfLabelMode> {
    Leaf {
        set: |cfg: BgpVrfConfigView, mode: BgpVrfLabelMode|
            BgpVrfConfigView { label_mode: mode, ..cfg },
        clear: |cfg: BgpVrfConfigView|
            BgpVrfConfigView { label_mode: BgpVrfLabelMode::Vrf, ..cfg },
    }
}

/// `router bgp vrf <NAME> label-mode {per-vrf|per-route|per-nexthop}`.
pub fn config_vrf_label_mode(bgp: &mut Bgp, mut args: Args, op: ConfigOp) -> (r: Option<()>)
    ensures
        (final(bgp)@, r) == stage_vrf(
            old(bgp)@,
            args@,
            Some(()),
            label_mode_arg(rest(args@)),
            op,
            |key: ()| label_mode_leaf(),
        ),
{
    let name = args.string()?;
    let cfg = vrf_entry(bgp, name, op)?;
    match op {
        ConfigOp::Assign => {
            let raw = args.string()?;
            cfg.label_mode = BgpVrfLabelMode::parse(raw.as_str())?;
        },
        ConfigOp::Delete => cfg.label_mode = BgpVrfLabelMode::default(),
        _ => {},
    }
    Some(())
}

/// The encapsulation of the first argument.
pub open spec fn encapsulation_arg(args: Seq<ArgView>) -> Option<BgpVrfEncapsulation> {
    match string_arg(args) {
        Some(text) => encapsulation_of(text),
        None => None,
    }
}

/// The encapsulation, MPLS unless assigned.
pub open spec fn encapsulation_leaf() -> Leaf<BgpVrfConfigView, BgpVrfEncapsulation> {
    Leaf {
        set: |cfg: BgpVrfConfigView, encapsulation: BgpVrfEncapsulation|
            BgpVrfConfigView { encapsulation: encapsulation, ..cfg },
        clear: |cfg: BgpVrfConfigView| BgpVrfConfigView { encapsulation: BgpVrfEncapsulation::Mpls, ..cfg },
    }
}

/// `router bgp vrf <NAME> encapsulation {mpls|srv6|vxlan}`.
pub fn config_vrf_encapsulation(bgp: &mut Bgp, mut args: Args, op: ConfigOp) -> (r: Option<()>)
    ensures
        (final(bgp)@, r) == stage_vrf(
            old(bgp)@,
            args@,
            Some(()),
            encapsulation_arg(rest(args@)),
            op,
            |key: ()| encapsulation_leaf(),
        ),
{
    let name = args.string()?;
    let cfg = vrf_entry(bgp, name, op)?;
    match op {
        ConfigOp::Assign => {
            let raw = args.string()?;
            cfg.encapsulation = BgpVrfEncapsulation::parse(raw.as_str())?;
        },
        ConfigOp::Delete => cfg.encapsulation = BgpVrfEncapsulation::default(),
        _ => {},
    }
    Some(())
}

/// The inter-AS hybrid switch, off unless assigned.
pub open spec fn inter_as_hybrid_leaf() -> Leaf<BgpVrfConfigView, bool> {
    Leaf {
        set: |cfg: BgpVrfConfigView, on: bool|
            BgpVrfConfigView { inter_as_hybrid: on, ..cfg },
        clear: |cfg: BgpVrfConfigView| BgpVrfConfigView { inter_as_hybrid: false, ..cfg },
    }
}

/// `router bgp vrf <NAME> inter-as-hybrid <BOOL>`: export again what the VRF
/// imports (inter-AS option AB).
pub fn config_vrf_inter_as_hybrid(bgp: &mut Bgp, mut args: Args, op: ConfigOp) -> (r: Option<()>)
    ensures
        (final(bgp)@, r) == stage_vrf(
            old(bgp)@,
            args@,
            Some(()),
            boolean_arg(rest(args@)),
            op,
            |key: ()| inter_as_hybrid_leaf(),
        ),
{
    let name = args.string()?;
    let cfg = vrf_entry(bgp, name, op)?;
    match op {
        ConfigOp::Assign => cfg.inter_as_hybrid = args.boolean()?,
        ConfigOp::Delete => cfg.inter_as_hybrid = false,
        _ => {},
    }
    Some(())
}

/// The advertisement of IPv4 routes over EVPN, off unless assigned.
pub open spec fn evpn_advertise_ipv4_leaf() -> Leaf<BgpVrfConfigView, bool> {
    Leaf {
        set: |cfg: BgpVrfConfigView, on: bool|
            BgpVrfConfigView { evpn_advertise_v4: on, ..cfg },
        clear: |cfg: BgpVrfConfigView| BgpVrfConfigView { evpn_advertise_v4: false, ..cfg },
    }
}

/// `router bgp vrf <NAME> evpn advertise-ipv4 <BOOL>`.
pub fn config_vrf_evpn_advertise_ipv4(bgp: &mut Bgp, mut args: Args, op: ConfigOp) -> (r: Option<()>)
    ensures
        (final(bgp)@, r) == stage_vrf(
            old(bgp)@,
            args@,
            Some(()),
            boolean_arg(rest(args@)),
            op,
            |key: ()| evpn_advertise_ipv4_leaf(),
        ),
{
    let name = args.string()?;
    let cfg = vrf_entry(bgp, name, op)?;
    match op {
        ConfigOp::Assign => cfg.evpn_advertise_v4 = args.boolean()?,
        ConfigOp::Delete => cfg.evpn_advertise_v4 = false,
        _ => {},
    }
    Some(())
}

/// The advertisement of IPv6 routes over EVPN, off unless assigned.
pub open spec fn evpn_advertise_ipv6_leaf() -> Leaf<BgpVrfConfigView, bool> {
    Leaf {
        set: |cfg: BgpVrfConfigView, on: bool|
            BgpVrfConfigView { evpn_advertise_v6: on, ..cfg },
        clear: |cfg: BgpVrfConfigView| BgpVrfConfigView { evpn_advertise_v6: false, ..cfg },
    }
}

/// `router bgp vrf <NAME> evpn advertise-ipv6 <BOOL>`.
pub fn config_vrf_evpn_advertise_ipv6(bgp: &mut Bgp, mut args: Args, op: ConfigOp) -> (r: Option<()>)
    ensures
        (final(bgp)@, r) == stage_vrf(
            old(bgp)@,
            args@,
            Some(()),
            boolean_arg(rest(args@)),
            op,
            |key: ()| evpn_advertise_ipv6_leaf(),
        ),
{
    let name = args.string()?;
    let cfg = vrf_entry(bgp, name, op)?;
    match op {
        ConfigOp::Assign => cfg.evpn_advertise_v6 = args.boolean()?,
        ConfigOp::Delete => cfg.evpn_advertise_v6 = false,
        _ => {},
    }
    Some(())
}

/// The L3VNI.
pub open spec fn evpn_l3vni_leaf() -> Leaf<BgpVrfConfigView, u32> {
    Leaf {
        set: |cfg: BgpVrfConfigView, vni: u32|
            BgpVrfConfigView { l3vni: Some(vni), ..cfg },
        clear: |cfg: BgpVrfConfigView| BgpVrfConfigView { l3vni: None, ..cfg },
    }
}

/// `router bgp vrf <NAME> evpn l3vni <VNI>`.
pub fn config_vrf_evpn_l3vni(bgp: &mut Bgp, mut args: Args, op: ConfigOp) -> (r: Option<()>)
    ensures
        (final(bgp)@, r) == stage_vrf(
            old(bgp)@,
            args@,
            Some(()),
            u32_arg(rest(args@)),
            op,
            |key: ()| evpn_l3vni_leaf(),
        ),
{
    let name = args.string()?;
    let cfg = vrf_entry(bgp, name, op)?;
    match op {
        ConfigOp::Assign => cfg.l3vni = Some(args.u32()?),
        ConfigOp::Delete => cfg.l3vni = None,
        _ => {},
    }
    Some(())
}

/// The router MAC address.
pub open spec fn evpn_router_mac_leaf() -> Leaf<BgpVrfConfigView, Seq<u8>> {
    Leaf {
        set: |cfg: BgpVrfConfigView, mac: Seq<u8>|
            BgpVrfConfigView { router_mac: Some(mac), ..cfg },
        clear: |cfg: BgpVrfConfigView| BgpVrfConfigView { router_mac: None, ..cfg },
    }
}

/// `router bgp vrf <NAME> evpn router-mac <MAC>`.
pub fn config_vrf_evpn_router_mac(bgp: &mut Bgp, mut args: Args, op: ConfigOp) -> (r: Option<()>)
    ensures
        (final(bgp)@, r) == stage_vrf(
            old(bgp)@,
            args@,
            Some(()),
            mac_arg(rest(args@)),
            op,
            |key: ()| evpn_router_mac_leaf(),
        ),
{
    let name = args.string()?;
    let cfg = vrf_entry(bgp, name, op)?;
    match op {
        ConfigOp::Assign => cfg.router_mac = Some(args.mac()?),
        ConfigOp::Delete => cfg.router_mac = None,
        _ => {},
    }
    Some(())
}

/// The direction that a key of the `afi-safi mup route` list stands for.
pub open spec fn route_direction_of(key: Seq<char>) -> Option<MupSrv6Direction> {
    if key == "st1"@ {
        Some(MupSrv6Direction::Encapsulation)
    } else if key == "st2"@ {
        Some(MupSrv6Direction::Decapsulation)
    } else {
        None
    }
}

/// Read a key of the `afi-safi mup route` list: `st1` is the downlink, which
/// encapsulates, and `st2` the uplink, which decapsulates.
pub fn mup_route_direction(key: &str) -> (r: Option<MupSrv6Direction>)
    ensures
        r == route_direction_of(key@),
{
    if same_text(key, "st1") {
        Some(MupSrv6Direction::Encapsulation)
    } else if same_text(key, "st2") {
        Some(MupSrv6Direction::Decapsulation)
    } else {
        None
    }
}

/// The direction of the first argument.
pub open spec fn route_direction_arg(args: Seq<ArgView>) -> Option<MupSrv6Direction> {
    match string_arg(args) {
        Some(key) => route_direction_of(key),
        None => None,
    }
}

impl BgpVrfConfigView {
    /// The binding of a direction, an empty one where there is none.
    pub open spec fn route_binding(self, direction: MupSrv6Direction) -> MupRouteBindingView {
        if self.mobile_uplane.routes.contains_key(direction) {
            self.mobile_uplane.routes[direction]
        } else {
            MupRouteBindingView::unset()
        }
    }

    /// The same configuration with other bindings.
    pub open spec fn with_routes(
        self,
        routes: Map<MupSrv6Direction, MupRouteBindingView>,
    ) -> Self {
        BgpVrfConfigView {
            mobile_uplane: BgpVrfMobileUplaneView { routes, ..self.mobile_uplane },
            ..self
        }
    }
}

/// Borrow the binding of a direction, which is created where there is none.
/// Each direction has a binding of its own, so that one VRF may serve both.
pub fn mup_route_binding(cfg: &mut BgpVrfConfig, direction: MupSrv6Direction) -> (r:
    &mut MupRouteBinding)
    ensures
        r@ == old(cfg)@.route_binding(direction),
        final(cfg)@ == old(cfg)@.with_routes(
            old(cfg)@.mobile_uplane.routes.insert(direction, final(r)@),
        ),
{
    cfg.mobile_uplane.routes.get_or_insert(direction, MupRouteBinding::default())
}

/// The binding of a direction as a whole.
pub open spec fn mup_route_leaf(direction: MupSrv6Direction) -> Leaf<BgpVrfConfigView, ()> {
    Leaf {
        set: |cfg: BgpVrfConfigView, value: ()|
            cfg.with_routes(
                cfg.mobile_uplane.routes.insert(direction, cfg.route_binding(direction)),
            ),
        clear: |cfg: BgpVrfConfigView|
            cfg.with_routes(cfg.mobile_uplane.routes.remove(direction)),
    }
}

/// `router bgp vrf <NAME> afi-safi mup route {st1|st2}`. Deleting one
/// direction leaves the other's binding alone.
pub fn config_vrf_mup_route(bgp: &mut Bgp, mut args: Args, op: ConfigOp) -> (r: Option<()>)
    ensures
        (final(bgp)@, r) == stage_vrf(
            old(bgp)@,
            args@,
            route_direction_arg(rest(args@)),
            Some(()),
            op,
            |direction: MupSrv6Direction| mup_route_leaf(direction),
        ),
{
    let name = args.string()?;
    let key = args.string()?;
    let direction = mup_route_direction(key.as_str())?;
    let cfg = vrf_entry(bgp, name, op)?;
    match op {
        ConfigOp::Assign => {
            mup_route_binding(cfg, direction);
        },
        ConfigOp::Delete => {
            let ghost before = cfg@.mobile_uplane.routes;
            cfg.mobile_uplane.routes.remove(&direction);
            assert(cfg@.mobile_uplane.routes =~= before.remove(direction));
        },
        _ => {},
    }
    Some(())
}

/// The network instance of a direction's binding. Clearing it creates no
/// binding.
pub open spec fn mup_network_instance_leaf(direction: MupSrv6Direction) -> Leaf<
    BgpVrfConfigView,
    Seq<char>,
> {
    Leaf {
        set: |cfg: BgpVrfConfigView, instance: Seq<char>|
            cfg.with_routes(
                cfg.mobile_uplane.routes.insert(
                    direction,
                    MupRouteBindingView {
                        network_instance: Some(instance),
                        ..cfg.route_binding(direction)
                    },
                ),
            ),
        clear: |cfg: BgpVrfConfigView|
            if cfg.mobile_uplane.routes.contains_key(direction) {
                cfg.with_routes(
                    cfg.mobile_uplane.routes.insert(
                        direction,
                        MupRouteBindingView {
                            network_instance: None,
                            ..cfg.route_binding(direction)
                        },
                    ),
                )
            } else {
                cfg
            },
    }
}

/// `router bgp vrf <NAME> afi-safi mup route {st1|st2} network-instance <NI>`:
/// the network instance of the sessions that the VRF originates routes for.
pub fn config_vrf_mup_route_network_instance(
    bgp: &mut Bgp,
    mut args: Args,
    op: ConfigOp,
) -> (r: Option<()>)
    ensures
        (final(bgp)@, r) == stage_vrf(
            old(bgp)@,
            args@,
            route_direction_arg(rest(args@)),
            string_arg(rest(rest(args@))),
            op,
            |direction: MupSrv6Direction| mup_network_instance_leaf(direction),
        ),
{
    let name = args.string()?;
    let key = args.string()?;
    let direction = mup_route_direction(key.as_str())?;
    let cfg = vrf_entry(bgp, name, op)?;
    match op {
        ConfigOp::Assign => {
            let ni = args.string()?;
            mup_route_binding(cfg, direction).network_instance = Some(ni);
        },
        ConfigOp::Delete => {
            match cfg.mobile_uplane.routes.get_mut(&direction) {
                Some(binding) => binding.network_instance = None,
                None => {},
            }
        },
        _ => {},
    }
    Some(())
}

/// The extended community of a direction's binding. Clearing it creates no
/// binding.
pub open spec fn mup_route_ext_comm_leaf(direction: MupSrv6Direction) -> Leaf<
    BgpVrfConfigView,
    RouteDistinguisherView,
> {
    Leaf {
        set: |cfg: BgpVrfConfigView, community: RouteDistinguisherView|
            cfg.with_routes(
                cfg.mobile_uplane.routes.insert(
                    direction,
                    MupRouteBindingView {
                        mup_ext_comm: Some(community),
                        ..cfg.route_binding(direction)
                    },
                ),
            ),
        clear: |cfg: BgpVrfConfigView|
            if cfg.mobile_uplane.routes.contains_key(direction) {
                cfg.with_routes(
                    cfg.mobile_uplane.routes.insert(
                        direction,
                        MupRouteBindingView {
                            mup_ext_comm: None,
                            ..cfg.route_binding(direction)
                        },
                    ),
                )
            } else {
                cfg
            },
    }
}

/// `router bgp vrf <NAME> afi-safi mup route st2 mup-ext-comm <2:4>`: the
/// extended community of the direct segment that the originated routes resolve
/// to. A value that does not read creates no binding.
pub fn config_vrf_mup_route_mup_ext_comm(
    bgp: &mut Bgp,
    mut args: Args,
    op: ConfigOp,
) -> (r: Option<()>)
    ensures
        (final(bgp)@, r) == stage_vrf(
            old(bgp)@,
            args@,
            route_direction_arg(rest(args@)),
            rd_arg(rest(rest(args@))),
            op,
            |direction: MupSrv6Direction| mup_route_ext_comm_leaf(direction),
        ),
{
    let name = args.string()?;
    let key = args.string()?;
    let direction = mup_route_direction(key.as_str())?;
    let cfg = vrf_entry(bgp, name, op)?;
    match op {
        ConfigOp::Assign => {
            let community = args.rd()?;
            mup_route_binding(cfg, direction).mup_ext_comm = Some(community);
        },
        ConfigOp::Delete => {
            match cfg.mobile_uplane.routes.get_mut(&direction) {
                Some(binding) => binding.mup_ext_comm = None,
                None => {},
            }
        },
        _ => {},
    }
    Some(())
}

/// The segment mode of the first argument.
pub open spec fn segment_mode_arg(args: Seq<ArgView>) -> Option<MupSegmentMode> {
    match string_arg(args) {
        Some(text) => segment_mode_of(text),
        None => None,
    }
}

/// The segment of one mode. Deleting it leaves a segment of the other mode
/// alone.
pub open spec fn mup_segment_leaf(mode: MupSegmentMode) -> Leaf<BgpVrfConfigView, ()> {
    Leaf {
        set: |cfg: BgpVrfConfigView, value: ()|
            BgpVrfConfigView {
                mobile_uplane: BgpVrfMobileUplaneView { segment: Some(mode), ..cfg.mobile_uplane },
                ..cfg
            },
        clear: |cfg: BgpVrfConfigView|
            if cfg.mobile_uplane.segment == Some(mode) {
                BgpVrfConfigView {
                    mobile_uplane: BgpVrfMobileUplaneView { segment: None, ..cfg.mobile_uplane },
                    ..cfg
                }
            } else {
                cfg
            },
    }
}

/// `router bgp vrf <NAME> afi-safi mup segment {direct|interwork}`.
pub fn config_vrf_mup_segment(bgp: &mut Bgp, mut args: Args, op: ConfigOp) -> (r: Option<()>)
    ensures
        (final(bgp)@, r) == stage_vrf(
            old(bgp)@,
            args@,
            segment_mode_arg(rest(args@)),
            Some(()),
            op,
            |mode: MupSegmentMode| mup_segment_leaf(mode),
        ),
{
    let name = args.string()?;
    let key = args.string()?;
    let mode = MupSegmentMode::parse(key.as_str())?;
    let cfg = vrf_entry(bgp, name, op)?;
    match op {
        ConfigOp::Assign => cfg.mobile_uplane.segment = Some(mode),
        ConfigOp::Delete => {
            let matching = match cfg.mobile_uplane.segment {
                Some(current) => current == mode,
                None => false,
            };
            if matching {
                cfg.mobile_uplane.segment = None;
            }
        },
        _ => {},
    }
    Some(())
}

/// The forwarding plane of the first argument.
pub open spec fn dataplane_arg(args: Seq<ArgView>) -> Option<MupDataplane> {
    match string_arg(args) {
        Some(text) => dataplane_of(text),
        None => None,
    }
}

/// The forwarding plane, the SRv6 endpoint unless assigned.
pub open spec fn mup_dataplane_leaf() -> Leaf<BgpVrfConfigView, MupDataplane> {
    Leaf {
        set: |cfg: BgpVrfConfigView, mode: MupDataplane|
            BgpVrfConfigView {
                mobile_uplane: BgpVrfMobileUplaneView { dataplane: mode, ..cfg.mobile_uplane },
                ..cfg
            },
        clear: |cfg: BgpVrfConfigView|
            BgpVrfConfigView {
                mobile_uplane: BgpVrfMobileUplaneView {
                    dataplane: MupDataplane::EndDt46,
                    ..cfg.mobile_uplane
                },
                ..cfg
            },
    }
}

/// `router bgp vrf <NAME> afi-safi mup dataplane {end-dt46|gtp}`. The value is
/// read first, also for a delete.
pub fn config_vrf_mup_dataplane(bgp: &mut Bgp, mut args: Args, op: ConfigOp) -> (r: Option<()>)
    ensures
        (final(bgp)@, r) == stage_vrf(
            old(bgp)@,
            args@,
            dataplane_arg(rest(args@)),
            dataplane_arg(rest(args@)),
            op,
            |mode: MupDataplane| mup_dataplane_leaf(),
        ),
{
    let name = args.string()?;
    let raw = args.string()?;
    let mode = MupDataplane::parse(raw.as_str())?;
    let cfg = vrf_entry(bgp, name, op)?;
    match op {
        ConfigOp::Assign => cfg.mobile_uplane.dataplane = mode,
        ConfigOp::Delete => cfg.mobile_uplane.dataplane = MupDataplane::default(),
        _ => {},
    }
    Some(())
}

/// The extended community of the direct segment.
pub open spec fn mup_ext_comm_leaf() -> Leaf<BgpVrfConfigView, RouteDistinguisherView> {
    Leaf {
        set: |cfg: BgpVrfConfigView, community: RouteDistinguisherView|
            BgpVrfConfigView {
                mobile_uplane: BgpVrfMobileUplaneView {
                    mup_ext_comm: Some(community),
                    ..cfg.mobile_uplane
                },
                ..cfg
            },
        clear: |cfg: BgpVrfConfigView|
            BgpVrfConfigView {
                mobile_uplane: BgpVrfMobileUplaneView { mup_ext_comm: None, ..cfg.mobile_uplane },
                ..cfg
            },
    }
}

/// `router bgp vrf <NAME> afi-safi mup segment direct mup-ext-comm <2:4>`. The
/// key of the segment stands between the name and the value, and is skipped.
pub fn config_vrf_mup_ext_comm(bgp: &mut Bgp, mut args: Args, op: ConfigOp) -> (r: Option<()>)
    ensures
        (final(bgp)@, r) == stage_vrf(
            old(bgp)@,
            args@,
            string_arg(rest(args@)),
            rd_arg(rest(rest(args@))),
            op,
            |segment: Seq<char>| mup_ext_comm_leaf(),
        ),
{
    let name = args.string()?;
    let _segment = args.string()?;
    let cfg = vrf_entry(bgp, name, op)?;
    match op {
        ConfigOp::Assign => cfg.mobile_uplane.mup_ext_comm = Some(args.rd()?),
        ConfigOp::Delete => cfg.mobile_uplane.mup_ext_comm = None,
        _ => {},
    }
    Some(())
}

/// The prefix of the interwork segment.
pub open spec fn mup_segment_prefix_leaf() -> Leaf<BgpVrfConfigView, IpNet> {
    Leaf {
        set: |cfg: BgpVrfConfigView, prefix: IpNet|
            BgpVrfConfigView {
                mobile_uplane: BgpVrfMobileUplaneView {
                    interwork_prefix: Some(prefix),
                    ..cfg.mobile_uplane
                },
                ..cfg
            },
        clear: |cfg: BgpVrfConfigView|
            BgpVrfConfigView {
                mobile_uplane: BgpVrfMobileUplaneView {
                    interwork_prefix: None,
                    ..cfg.mobile_uplane
                },
                ..cfg
            },
    }
}

/// `router bgp vrf <NAME> afi-safi mup segment interwork prefix <PREFIX>`. The
/// key of the segment stands between the name and the value, and is skipped.
pub fn config_vrf_mup_segment_prefix(
    bgp: &mut Bgp,
    mut args: Args,
    op: ConfigOp,
) -> (r: Option<()>)
    ensures
        (final(bgp)@, r) == stage_vrf(
            old(bgp)@,
            args@,
            string_arg(rest(args@)),
            net_arg(rest(rest(args@))),
            op,
            |segment: Seq<char>| mup_segment_prefix_leaf(),
        ),
{
    let name = args.string()?;
    let _segment = args.string()?;
    let cfg = vrf_entry(bgp, name, op)?;
    match op {
        ConfigOp::Assign => cfg.mobile_uplane.interwork_prefix = Some(args.net()?),
        ConfigOp::Delete => cfg.mobile_uplane.interwork_prefix = None,
        _ => {},
    }
    Some(())
}

/// A neighbor as a whole.
pub open spec fn neighbor_leaf(address: IpAddr) -> Leaf<BgpVrfConfigView, ()> {
    Leaf {
        set: |cfg: BgpVrfConfigView, value: ()|
            if cfg.neighbors.contains_key(address) {
                cfg
            } else {
                cfg.with_neighbor(address, BgpVrfNeighborConfigView::unset())
            },
        clear: |cfg: BgpVrfConfigView|
            BgpVrfConfigView { neighbors: cfg.neighbors.remove(address), ..cfg },
    }
}

/// `router bgp vrf <NAME> neighbor <ADDRESS>`.
pub fn config_vrf_neighbor(bgp: &mut Bgp, mut args: Args, op: ConfigOp) -> (r: Option<()>)
    ensures
        (final(bgp)@, r) == stage_vrf(
            old(bgp)@,
            args@,
            addr_arg(rest(args@)),
            Some(()),
            op,
            |address: IpAddr| neighbor_leaf(address),
        ),
{
    let name = args.string()?;
    let addr = args.addr()?;
    let cfg = vrf_entry(bgp, name, op)?;
    let ghost before = cfg@.neighbors;
    match op {
        ConfigOp::Assign => {
            cfg.neighbors.get_or_insert(addr, BgpVrfNeighborConfig::default());
            assert(before.contains_key(addr) ==> cfg@.neighbors =~= before);
        },
        ConfigOp::Delete => {
            cfg.neighbors.remove(&addr);
            assert(cfg@.neighbors =~= before.remove(addr));
        },
        _ => {},
    }
    Some(())
}

/// The neighbor's autonomous system.
pub open spec fn remote_as_leaf() -> Leaf<BgpVrfNeighborConfigView, u32> {
    Leaf {
        set: |neighbor: BgpVrfNeighborConfigView, asn: u32|
            BgpVrfNeighborConfigView { remote_as: Some(asn), ..neighbor },
        clear: |neighbor: BgpVrfNeighborConfigView|
            BgpVrfNeighborConfigView { remote_as: None, ..neighbor },
    }
}

/// `router bgp vrf <NAME> neighbor <ADDRESS> remote-as <ASN>`.
pub fn config_vrf_neighbor_remote_as(bgp: &mut Bgp, mut args: Args, op: ConfigOp) -> (r: Option<()>)
    ensures
        (final(bgp)@, r) == stage_neighbor(
            old(bgp)@,
            args@,
            Some(()),
            u32_arg(rest(rest(args@))),
            op,
            |key: ()| remote_as_leaf(),
        ),
{
    let name = args.string()?;
    let addr = args.addr()?;
    let cfg = vrf_entry(bgp, name, op)?;
    let nbr = neighbor_entry(cfg, addr, op)?;
    match op {
        ConfigOp::Assign => nbr.remote_as = Some(args.u32()?),
        ConfigOp::Delete => nbr.remote_as = None,
        _ => {},
    }
    Some(())
}

/// The peer group that the neighbor belongs to, by name.
pub open spec fn peer_group_leaf() -> Leaf<BgpVrfNeighborConfigView, Seq<char>> {
    Leaf {
        set: |neighbor: BgpVrfNeighborConfigView, group: Seq<char>|
            BgpVrfNeighborConfigView { peer_group: Some(group), ..neighbor },
        clear: |neighbor: BgpVrfNeighborConfigView|
            BgpVrfNeighborConfigView { peer_group: None, ..neighbor },
    }
}

/// `router bgp vrf <NAME> neighbor <ADDRESS> peer-group <GROUP>`.
pub fn config_vrf_neighbor_peer_group(bgp: &mut Bgp, mut args: Args, op: ConfigOp) -> (r: Option<()>)
    ensures
        (final(bgp)@, r) == stage_neighbor(
            old(bgp)@,
            args@,
            Some(()),
            string_arg(rest(rest(args@))),
            op,
            |key: ()| peer_group_leaf(),
        ),
{
    let name = args.string()?;
    let addr = args.addr()?;
    let cfg = vrf_entry(bgp, name, op)?;
    let nbr = neighbor_entry(cfg, addr, op)?;
    match op {
        ConfigOp::Assign => nbr.peer_group = Some(args.string()?),
        ConfigOp::Delete => nbr.peer_group = None,
        _ => {},
    }
    Some(())
}

/// The neighbor's description.
pub open spec fn description_leaf() -> Leaf<BgpVrfNeighborConfigView, Seq<char>> {
    Leaf {
        set: |neighbor: BgpVrfNeighborConfigView, text: Seq<char>|
            BgpVrfNeighborConfigView { description: Some(text), ..neighbor },
        clear: |neighbor: BgpVrfNeighborConfigView|
            BgpVrfNeighborConfigView { description: None, ..neighbor },
    }
}

/// `router bgp vrf <NAME> neighbor <ADDRESS> description <TEXT>`.
pub fn config_vrf_neighbor_description(bgp: &mut Bgp, mut args: Args, op: ConfigOp) -> (r: Option<()>)
    ensures
        (final(bgp)@, r) == stage_neighbor(
            old(bgp)@,
            args@,
            Some(()),
            string_arg(rest(rest(args@))),
            op,
            |key: ()| description_leaf(),
        ),
{
    let name = args.string()?;
    let addr = args.addr()?;
    let cfg = vrf_entry(bgp, name, op)?;
    let nbr = neighbor_entry(cfg, addr, op)?;
    match op {
        ConfigOp::Assign => nbr.description = Some(args.string()?),
        ConfigOp::Delete => nbr.description = None,
        _ => {},
    }
    Some(())
}

/// The connect retry timer.
pub open spec fn connect_retry_time_leaf() -> Leaf<BgpVrfNeighborConfigView, u16> {
    Leaf {
        set: |neighbor: BgpVrfNeighborConfigView, seconds: u16|
            BgpVrfNeighborConfigView { timer: TimerConfig { connect_retry_time: Some(seconds), ..neighbor.timer }, ..neighbor },
        clear: |neighbor: BgpVrfNeighborConfigView|
            BgpVrfNeighborConfigView { timer: TimerConfig { connect_retry_time: None, ..neighbor.timer }, ..neighbor },
    }
}

/// `router bgp vrf <NAME> neighbor <ADDRESS> timers
/// connect-retry-time <SECONDS>`. The timers are only staged
/// here: a running peer takes them up when it is built again.
pub fn config_vrf_neighbor_connect_retry_time(bgp: &mut Bgp, mut args: Args, op: ConfigOp) -> (r: Option<()>)
    ensures
        (final(bgp)@, r) == stage_neighbor(
            old(bgp)@,
            args@,
            Some(()),
            u16_arg(rest(rest(args@))),
            op,
            |key: ()| connect_retry_time_leaf(),
        ),
{
    let name = args.string()?;
    let addr = args.addr()?;
    let cfg = vrf_entry(bgp, name, op)?;
    let nbr = neighbor_entry(cfg, addr, op)?;
    match op {
        ConfigOp::Assign => nbr.timer.connect_retry_time = Some(args.u16()?),
        ConfigOp::Delete => nbr.timer.connect_retry_time = None,
        _ => {},
    }
    Some(())
}

/// The hold timer.
pub open spec fn hold_time_leaf() -> Leaf<BgpVrfNeighborConfigView, u16> {
    Leaf {
        set: |neighbor: BgpVrfNeighborConfigView, seconds: u16|
            BgpVrfNeighborConfigView { timer: TimerConfig { hold_time: Some(seconds), ..neighbor.timer }, ..neighbor },
        clear: |neighbor: BgpVrfNeighborConfigView|
            BgpVrfNeighborConfigView { timer: TimerConfig { hold_time: None, ..neighbor.timer }, ..neighbor },
    }
}

/// `router bgp vrf <NAME> neighbor <ADDRESS> timers
/// hold-time <SECONDS>`.
pub fn config_vrf_neighbor_hold_time(bgp: &mut Bgp, mut args: Args, op: ConfigOp) -> (r: Option<()>)
    ensures
        (final(bgp)@, r) == stage_neighbor(
            old(bgp)@,
            args@,
            Some(()),
            u16_arg(rest(rest(args@))),
            op,
            |key: ()| hold_time_leaf(),
        ),
{
    let name = args.string()?;
    let addr = args.addr()?;
    let cfg = vrf_entry(bgp, name, op)?;
    let nbr = neighbor_entry(cfg, addr, op)?;
    match op {
        ConfigOp::Assign => nbr.timer.hold_time = Some(args.u16()?),
        ConfigOp::Delete => nbr.timer.hold_time = None,
        _ => {},
    }
    Some(())
}

/// The idle hold timer.
pub open spec fn idle_hold_time_leaf() -> Leaf<BgpVrfNeighborConfigView, u16> {
    Leaf {
        set: |neighbor: BgpVrfNeighborConfigView, seconds: u16|
            BgpVrfNeighborConfigView { timer: TimerConfig { idle_hold_time: Some(seconds), ..neighbor.timer }, ..neighbor },
        clear: |neighbor: BgpVrfNeighborConfigView|
            BgpVrfNeighborConfigView { timer: TimerConfig { idle_hold_time: None, ..neighbor.timer }, ..neighbor },
    }
}

/// `router bgp vrf <NAME> neighbor <ADDRESS> timers
/// idle-hold-time <SECONDS>`.
pub fn config_vrf_neighbor_idle_hold_time(bgp: &mut Bgp, mut args: Args, op: ConfigOp) -> (r: Option<()>)
    ensures
        (final(bgp)@, r) == stage_neighbor(
            old(bgp)@,
            args@,
            Some(()),
            u16_arg(rest(rest(args@))),
            op,
            |key: ()| idle_hold_time_leaf(),
        ),
{
    let name = args.string()?;
    let addr = args.addr()?;
    let cfg = vrf_entry(bgp, name, op)?;
    let nbr = neighbor_entry(cfg, addr, op)?;
    match op {
        ConfigOp::Assign => nbr.timer.idle_hold_time = Some(args.u16()?),
        ConfigOp::Delete => nbr.timer.idle_hold_time = None,
        _ => {},
    }
    Some(())
}

/// The statement that a family is enabled, or that it is not.
pub open spec fn afi_safi_enabled_leaf(afi_safi: AfiSafi) -> Leaf<BgpVrfNeighborConfigView, bool> {
    Leaf {
        set: |neighbor: BgpVrfNeighborConfigView, enabled: bool|
            BgpVrfNeighborConfigView {
                mp_explicit: neighbor.mp_explicit.insert(afi_safi, enabled),
                ..neighbor
            },
        clear: |neighbor: BgpVrfNeighborConfigView|
            BgpVrfNeighborConfigView {
                mp_explicit: neighbor.mp_explicit.remove(afi_safi),
                ..neighbor
            },
    }
}

/// `router bgp vrf <NAME> neighbor <ADDRESS> afi-safi {ipv4|ipv6} enabled
/// <BOOL>`. The statement is kept as it was made. Which families a session
/// negotiates follows from it, the peer group and the peer's own address.
pub fn config_vrf_neighbor_afi_safi_enabled(
    bgp: &mut Bgp,
    mut args: Args,
    op: ConfigOp,
) -> (r: Option<()>)
    ensures
        (final(bgp)@, r) == stage_neighbor(
            old(bgp)@,
            args@,
            afi_safi_arg(rest(rest(args@))),
            boolean_arg(rest(rest(rest(args@)))),
            op,
            |afi_safi: AfiSafi| afi_safi_enabled_leaf(afi_safi),
        ),
{
    let name = args.string()?;
    let addr = args.addr()?;
    let afi_safi = args.afi_safi()?;
    let cfg = vrf_entry(bgp, name, op)?;
    let nbr = neighbor_entry(cfg, addr, op)?;
    let ghost before = nbr@.mp_explicit;
    match op {
        ConfigOp::Assign => {
            let enabled = args.boolean()?;
            nbr.mp_explicit.insert(afi_safi, enabled);
        },
        ConfigOp::Delete => {
            nbr.mp_explicit.remove(&afi_safi);
            assert(nbr@.mp_explicit =~= before.remove(afi_safi));
        },
        _ => {},
    }
    Some(())
}

} // verus!
