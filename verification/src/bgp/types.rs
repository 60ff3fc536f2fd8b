//! The candidate configuration of a VRF.

use vstd::prelude::*;
use crate::net::{AfiSafi, IpAddr, IpNet, Ipv4Addr, Ipv4Net, Ipv6Net, RouteDistinguisher,
    RouteDistinguisherView};
use crate::order::{lex_less_one, SortKey};
use crate::sorted_map::{SortedMap, SortedSet};
use crate::text::same_text;
use crate::value::Value;

verus! {

/// How MPLS labels are allocated for the VPN routes that a VRF originates.
/// The default is one label for the whole VRF, which changes the fewest labels.
#[derive(Debug, Clone, Copy, PartialEq, Eq, Structural)]
pub enum BgpVrfLabelMode {
    Vrf,
    Route,
    Nexthop,
}

/// The label mode that a text names.
pub open spec fn label_mode_of(text: Seq<char>) -> Option<BgpVrfLabelMode> {
    if text == "per-vrf"@ {
        Some(BgpVrfLabelMode::Vrf)
    } else if text == "per-route"@ {
        Some(BgpVrfLabelMode::Route)
    } else if text == "per-nexthop"@ {
        Some(BgpVrfLabelMode::Nexthop)
    } else {
        None
    }
}

impl BgpVrfLabelMode {
    /// Read the name of a label mode.
    pub fn parse(s: &str) -> (r: Option<Self>)
        ensures
            r == label_mode_of(s@),
    {
        if same_text(s, "per-vrf") {
            Some(BgpVrfLabelMode::Vrf)
        } else if same_text(s, "per-route") {
            Some(BgpVrfLabelMode::Route)
        } else if same_text(s, "per-nexthop") {
            Some(BgpVrfLabelMode::Nexthop)
        } else {
            None
        }
    }
}

impl Default for BgpVrfLabelMode {
    fn default() -> (r: Self)
        ensures
            r == BgpVrfLabelMode::Vrf,
    {
        BgpVrfLabelMode::Vrf
    }
}

/// The VPN data-plane encapsulation of a VRF. The default is an MPLS service
/// label; `Srv6` binds a service SID of the VRF instead, and `Vxlan` routes
/// over an L3VNI with this router's MAC address.
#[derive(Debug, Clone, Copy, PartialEq, Eq, Structural)]
pub enum BgpVrfEncapsulation {
    Mpls,
    Srv6,
    Vxlan,
}

/// The encapsulation that a text names.
pub open spec fn encapsulation_of(text: Seq<char>) -> Option<BgpVrfEncapsulation> {
    if text == "mpls"@ {
        Some(BgpVrfEncapsulation::Mpls)
    } else if text == "srv6"@ {
        Some(BgpVrfEncapsulation::Srv6)
    } else if text == "vxlan"@ {
        Some(BgpVrfEncapsulation::Vxlan)
    } else {
        None
    }
}

impl BgpVrfEncapsulation {
    /// Read the name of an encapsulation.
    pub fn parse(s: &str) -> (r: Option<Self>)
        ensures
            r == encapsulation_of(s@),
    {
        if same_text(s, "mpls") {
            Some(BgpVrfEncapsulation::Mpls)
        } else if same_text(s, "srv6") {
            Some(BgpVrfEncapsulation::Srv6)
        } else if same_text(s, "vxlan") {
            Some(BgpVrfEncapsulation::Vxlan)
        } else {
            None
        }
    }
}

impl Default for BgpVrfEncapsulation {
    fn default() -> (r: Self)
        ensures
            r == BgpVrfEncapsulation::Mpls,
    {
        BgpVrfEncapsulation::Mpls
    }
}

/// The direction of a policy: on routes received, or on routes advertised.
#[derive(Debug, Clone, Copy, PartialEq, Eq, Structural)]
pub enum InOut {
    Input,
    Output,
}

/// The prefix-sets that one address family of a neighbor is bound to, by name.
#[derive(Debug, PartialEq, Eq)]
pub struct BgpVrfPrefixSetConfig {
    pub input: Option<String>,
    pub output: Option<String>,
}

/// The names of a pair of bindings.
pub struct BgpVrfPrefixSetConfigView {
    pub input: Option<Seq<char>>,
    pub output: Option<Seq<char>>,
}

impl View for BgpVrfPrefixSetConfig {
    type V = BgpVrfPrefixSetConfigView;

    open spec fn view(&self) -> BgpVrfPrefixSetConfigView {
        BgpVrfPrefixSetConfigView {
            input: self.input.deep_view(),
            output: self.output.deep_view(),
        }
    }
}

impl DeepView for BgpVrfPrefixSetConfig {
    type V = BgpVrfPrefixSetConfigView;

    open spec fn deep_view(&self) -> BgpVrfPrefixSetConfigView {
        self@
    }
}

impl BgpVrfPrefixSetConfigView {
    /// No binding in either direction.
    pub open spec fn unbound() -> Self {
        BgpVrfPrefixSetConfigView { input: None, output: None }
    }

    /// The binding of one direction.
    pub open spec fn name(self, direction: InOut) -> Option<Seq<char>> {
        match direction {
            InOut::Input => self.input,
            InOut::Output => self.output,
        }
    }

    /// The same pair with the binding of one direction exchanged.
    pub open spec fn with_name(self, direction: InOut, name: Option<Seq<char>>) -> Self {
        match direction {
            InOut::Input => BgpVrfPrefixSetConfigView { input: name, ..self },
            InOut::Output => BgpVrfPrefixSetConfigView { output: name, ..self },
        }
    }
}

impl BgpVrfPrefixSetConfig {
    /// The binding of one direction.
    pub fn get(&self, direction: InOut) -> (r: &Option<String>)
        ensures
            r.deep_view() == self@.name(direction),
    {
        match direction {
            InOut::Input => &self.input,
            InOut::Output => &self.output,
        }
    }

    /// The binding of one direction, to be changed in place.
    pub fn get_mut(&mut self, direction: InOut) -> (r: &mut Option<String>)
        ensures
            r.deep_view() == old(self)@.name(direction),
            final(self)@ == old(self)@.with_name(direction, final(r).deep_view()),
    {
        match direction {
            InOut::Input => &mut self.input,
            InOut::Output => &mut self.output,
        }
    }
}

impl Default for BgpVrfPrefixSetConfig {
    fn default() -> (r: Self)
        ensures
            r@ == BgpVrfPrefixSetConfigView::unbound(),
    {
        BgpVrfPrefixSetConfig { input: None, output: None }
    }
}

impl Value for BgpVrfPrefixSetConfig {
    fn duplicate(&self) -> (r: Self) {
        BgpVrfPrefixSetConfig { input: self.input.duplicate(), output: self.output.duplicate() }
    }

    fn same(&self, other: &Self) -> (r: bool) {
        self.input.same(&other.input) && self.output.same(&other.output)
    }
}

impl Clone for BgpVrfPrefixSetConfig {
    fn clone(&self) -> (r: Self)
        ensures
            r@ == self@,
    {
        self.duplicate()
    }
}

/// The timers of a neighbor, in seconds. A timer that is not set runs at its
/// stock value.
#[derive(Debug, Clone, Copy, PartialEq, Eq, Structural)]
pub struct TimerConfig {
    pub connect_retry_time: Option<u16>,
    pub hold_time: Option<u16>,
    pub idle_hold_time: Option<u16>,
    pub min_adv_interval: Option<u16>,
    pub orig_interval: Option<u16>,
    pub delay_open_time: Option<u16>,
}

impl TimerConfig {
    /// No timer set.
    pub open spec fn unset() -> Self {
        TimerConfig {
            connect_retry_time: None,
            hold_time: None,
            idle_hold_time: None,
            min_adv_interval: None,
            orig_interval: None,
            delay_open_time: None,
        }
    }

    /// Whether all timers are set alike.
    pub fn same(&self, other: &Self) -> (r: bool)
        ensures
            r == (*self == *other),
    {
        self.connect_retry_time.same(&other.connect_retry_time) && self.hold_time.same(
            &other.hold_time,
        ) && self.idle_hold_time.same(&other.idle_hold_time) && self.min_adv_interval.same(
            &other.min_adv_interval,
        ) && self.orig_interval.same(&other.orig_interval) && self.delay_open_time.same(
            &other.delay_open_time,
        )
    }
}

impl Default for TimerConfig {
    fn default() -> (r: Self)
        ensures
            r == TimerConfig::unset(),
    {
        TimerConfig {
            connect_retry_time: None,
            hold_time: None,
            idle_hold_time: None,
            min_adv_interval: None,
            orig_interval: None,
            delay_open_time: None,
        }
    }
}

/// What is configured for one CE peer of a VRF.
#[derive(Debug, PartialEq, Eq)]
pub struct BgpVrfNeighborConfig {
    pub remote_as: Option<u32>,
    pub peer_group: Option<String>,
    pub description: Option<String>,
    /// The families that the configuration enables or disables by name. Where
    /// it says nothing, the peer group and then the peer's own address decide.
    pub mp_explicit: SortedMap<AfiSafi, bool>,
    pub timer: TimerConfig,
    /// The prefix-sets bound for each family. A name stays here even while no
    /// prefix-set of that name exists.
    pub prefix_set: SortedMap<AfiSafi, BgpVrfPrefixSetConfig>,
}

/// What a neighbor's configuration holds.
pub struct BgpVrfNeighborConfigView {
    pub remote_as: Option<u32>,
    pub peer_group: Option<Seq<char>>,
    pub description: Option<Seq<char>>,
    pub mp_explicit: Map<AfiSafi, bool>,
    pub timer: TimerConfig,
    pub prefix_set: Map<AfiSafi, BgpVrfPrefixSetConfigView>,
}

impl View for BgpVrfNeighborConfig {
    type V = BgpVrfNeighborConfigView;

    open spec fn view(&self) -> BgpVrfNeighborConfigView {
        BgpVrfNeighborConfigView {
            remote_as: self.remote_as,
            peer_group: self.peer_group.deep_view(),
            description: self.description.deep_view(),
            mp_explicit: self.mp_explicit@,
            timer: self.timer,
            prefix_set: self.prefix_set@,
        }
    }
}

impl DeepView for BgpVrfNeighborConfig {
    type V = BgpVrfNeighborConfigView;

    open spec fn deep_view(&self) -> BgpVrfNeighborConfigView {
        self@
    }
}

impl BgpVrfNeighborConfigView {
    /// A neighbor of which nothing but the address is configured.
    pub open spec fn unset() -> Self {
        BgpVrfNeighborConfigView {
            remote_as: None,
            peer_group: None,
            description: None,
            mp_explicit: Map::empty(),
            timer: TimerConfig::unset(),
            prefix_set: Map::empty(),
        }
    }
}

impl Default for BgpVrfNeighborConfig {
    fn default() -> (r: Self)
        ensures
            r@ == BgpVrfNeighborConfigView::unset(),
    {
        BgpVrfNeighborConfig {
            remote_as: None,
            peer_group: None,
            description: None,
            mp_explicit: SortedMap::new(),
            timer: TimerConfig::default(),
            prefix_set: SortedMap::new(),
        }
    }
}

impl Value for BgpVrfNeighborConfig {
    fn duplicate(&self) -> (r: Self) {
        BgpVrfNeighborConfig {
            remote_as: self.remote_as,
            peer_group: self.peer_group.duplicate(),
            description: self.description.duplicate(),
            mp_explicit: self.mp_explicit.duplicate(),
            timer: self.timer,
            prefix_set: self.prefix_set.duplicate(),
        }
    }

    fn same(&self, other: &Self) -> (r: bool) {
        self.remote_as.same(&other.remote_as) && self.peer_group.same(&other.peer_group)
            && self.description.same(&other.description) && self.mp_explicit.same(
            &other.mp_explicit,
        ) && self.timer.same(&other.timer) && self.prefix_set.same(&other.prefix_set)
    }
}

impl Clone for BgpVrfNeighborConfig {
    fn clone(&self) -> (r: Self)
        ensures
            r@ == self@,
    {
        self.duplicate()
    }
}

/// Where redistributed routes come from.
#[derive(Debug, Clone, Copy, PartialEq, Eq, Structural)]
pub enum BgpRedistSource {
    Connected,
    Static,
    Ospf,
    Isis,
}

/// The place of a source in the order of sources.
pub open spec fn source_rank(source: BgpRedistSource) -> int {
    match source {
        BgpRedistSource::Connected => 0,
        BgpRedistSource::Static => 1,
        BgpRedistSource::Ospf => 2,
        BgpRedistSource::Isis => 3,
    }
}

impl BgpRedistSource {
    fn number(&self) -> (n: u8)
        ensures
            n == source_rank(*self),
    {
        match self {
            BgpRedistSource::Connected => 0,
            BgpRedistSource::Static => 1,
            BgpRedistSource::Ospf => 2,
            BgpRedistSource::Isis => 3,
        }
    }
}

impl DeepView for BgpRedistSource {
    type V = BgpRedistSource;

    open spec fn deep_view(&self) -> BgpRedistSource {
        *self
    }
}

impl Value for BgpRedistSource {
    fn duplicate(&self) -> (r: Self) {
        *self
    }

    fn same(&self, other: &Self) -> (r: bool) {
        *self == *other
    }
}

impl SortKey for BgpRedistSource {
    open spec fn rank(key: BgpRedistSource) -> Seq<int> {
        seq![source_rank(key)]
    }

    proof fn rank_injective(a: BgpRedistSource, b: BgpRedistSource) {
        assert(Self::rank(a)[0] == source_rank(a));
        assert(Self::rank(b)[0] == source_rank(b));
    }

    fn precedes(&self, other: &Self) -> (r: bool) {
        proof {
            lex_less_one(source_rank(*self), source_rank(*other));
        }
        self.number() < other.number()
    }
}

/// The address family of a redistribution.
#[derive(Debug, Clone, Copy, PartialEq, Eq, Structural)]
pub enum RedistAfi {
    Ipv4,
    Ipv6,
}

/// What is configured for one address family of a VRF: the prefixes that the
/// VRF originates itself, and the sources that it redistributes from.
#[derive(Debug)]
pub struct BgpVrfAfConfig<N: SortKey> {
    pub networks: SortedSet<N>,
    pub redistribute: SortedSet<BgpRedistSource>,
}

/// What a family's configuration holds.
#[verifier::reject_recursive_types(M)]
pub struct BgpVrfAfConfigView<M> {
    pub networks: Set<M>,
    pub redistribute: Set<BgpRedistSource>,
}

impl<N: SortKey> View for BgpVrfAfConfig<N> {
    type V = BgpVrfAfConfigView<N::V>;

    open spec fn view(&self) -> BgpVrfAfConfigView<N::V> {
        BgpVrfAfConfigView { networks: self.networks@, redistribute: self.redistribute@ }
    }
}

impl<N: SortKey> DeepView for BgpVrfAfConfig<N> {
    type V = BgpVrfAfConfigView<N::V>;

    open spec fn deep_view(&self) -> BgpVrfAfConfigView<N::V> {
        self@
    }
}

impl<M> BgpVrfAfConfigView<M> {
    /// No prefix and no source.
    pub open spec fn unset() -> Self {
        BgpVrfAfConfigView { networks: Set::empty(), redistribute: Set::empty() }
    }
}

impl<N: SortKey> Default for BgpVrfAfConfig<N> {
    fn default() -> (r: Self)
        ensures
            r@ == BgpVrfAfConfigView::<N::V>::unset(),
    {
        BgpVrfAfConfig { networks: SortedSet::new(), redistribute: SortedSet::new() }
    }
}

/// The direction of an SRv6 mobile user plane. `Decapsulation` is the uplink
/// (`st2`), `Encapsulation` the downlink (`st1`).
#[derive(Debug, Clone, Copy, PartialEq, Eq, Structural)]
pub enum MupSrv6Direction {
    Decapsulation,
    Encapsulation,
}

impl DeepView for MupSrv6Direction {
    type V = MupSrv6Direction;

    open spec fn deep_view(&self) -> MupSrv6Direction {
        *self
    }
}

impl Value for MupSrv6Direction {
    fn duplicate(&self) -> (r: Self) {
        *self
    }

    fn same(&self, other: &Self) -> (r: bool) {
        *self == *other
    }
}

impl SortKey for MupSrv6Direction {
    open spec fn rank(key: MupSrv6Direction) -> Seq<int> {
        seq![
            if key == MupSrv6Direction::Decapsulation {
                0int
            } else {
                1int
            },
        ]
    }

    proof fn rank_injective(a: MupSrv6Direction, b: MupSrv6Direction) {
        assert(Self::rank(a)[0] == if a == MupSrv6Direction::Decapsulation {
            0int
        } else {
            1int
        });
        assert(Self::rank(b)[0] == if b == MupSrv6Direction::Decapsulation {
            0int
        } else {
            1int
        });
    }

    fn precedes(&self, other: &Self) -> (r: bool) {
        proof {
            lex_less_one(0, 0);
            lex_less_one(0, 1);
            lex_less_one(1, 0);
            lex_less_one(1, 1);
        }
        match (self, other) {
            (MupSrv6Direction::Decapsulation, MupSrv6Direction::Encapsulation) => true,
            _ => false,
        }
    }
}

/// The type of the MUP segment discovery route that a VRF originates.
#[derive(Debug, Clone, Copy, PartialEq, Eq, Structural)]
pub enum MupSegmentMode {
    Direct,
    Interwork,
}

/// The segment mode that a text names.
pub open spec fn segment_mode_of(text: Seq<char>) -> Option<MupSegmentMode> {
    if text == "direct"@ {
        Some(MupSegmentMode::Direct)
    } else if text == "interwork"@ {
        Some(MupSegmentMode::Interwork)
    } else {
        None
    }
}

impl MupSegmentMode {
    /// Read the name of a segment mode.
    pub fn parse(s: &str) -> (r: Option<Self>)
        ensures
            r == segment_mode_of(s@),
    {
        if same_text(s, "direct") {
            Some(MupSegmentMode::Direct)
        } else if same_text(s, "interwork") {
            Some(MupSegmentMode::Interwork)
        } else {
            None
        }
    }
}

/// The forwarding plane of a VRF's MUP service: an SRv6 endpoint by default,
/// or a GTP-U tunnel.
#[derive(Debug, Clone, Copy, PartialEq, Eq, Structural)]
pub enum MupDataplane {
    EndDt46,
    Gtp,
}

/// The forwarding plane that a text names.
pub open spec fn dataplane_of(text: Seq<char>) -> Option<MupDataplane> {
    if text == "end-dt46"@ {
        Some(MupDataplane::EndDt46)
    } else if text == "gtp"@ {
        Some(MupDataplane::Gtp)
    } else {
        None
    }
}

impl MupDataplane {
    /// Read the name of a forwarding plane.
    pub fn parse(s: &str) -> (r: Option<Self>)
        ensures
            r == dataplane_of(s@),
    {
        if same_text(s, "end-dt46") {
            Some(MupDataplane::EndDt46)
        } else if same_text(s, "gtp") {
            Some(MupDataplane::Gtp)
        } else {
            None
        }
    }
}

impl Default for MupDataplane {
    fn default() -> (r: Self)
        ensures
            r == MupDataplane::EndDt46,
    {
        MupDataplane::EndDt46
    }
}

/// One `route {st1|st2}` entry: the network instance of the sessions it serves
/// and, for `st2`, the extended community of the segment that its routes
/// resolve to.
#[derive(Debug)]
pub struct MupRouteBinding {
    pub network_instance: Option<String>,
    pub mup_ext_comm: Option<RouteDistinguisher>,
}

/// What a route binding holds.
pub struct MupRouteBindingView {
    pub network_instance: Option<Seq<char>>,
    pub mup_ext_comm: Option<RouteDistinguisherView>,
}

impl View for MupRouteBinding {
    type V = MupRouteBindingView;

    open spec fn view(&self) -> MupRouteBindingView {
        MupRouteBindingView {
            network_instance: self.network_instance.deep_view(),
            mup_ext_comm: self.mup_ext_comm.deep_view(),
        }
    }
}

impl DeepView for MupRouteBinding {
    type V = MupRouteBindingView;

    open spec fn deep_view(&self) -> MupRouteBindingView {
        self@
    }
}

impl MupRouteBindingView {
    /// A binding of which nothing but the direction is configured.
    pub open spec fn unset() -> Self {
        MupRouteBindingView { network_instance: None, mup_ext_comm: None }
    }
}

impl Default for MupRouteBinding {
    fn default() -> (r: Self)
        ensures
            r@ == MupRouteBindingView::unset(),
    {
        MupRouteBinding { network_instance: None, mup_ext_comm: None }
    }
}

/// The mobile user-plane service of a VRF.
#[derive(Debug)]
pub struct BgpVrfMobileUplane {
    /// The origination bindings, one for each direction.
    pub routes: SortedMap<MupSrv6Direction, MupRouteBinding>,
    pub segment: Option<MupSegmentMode>,
    /// The extended community that identifies the VRF's direct segment.
    pub mup_ext_comm: Option<RouteDistinguisher>,
    /// The prefix that the VRF's interwork segment advertises.
    pub interwork_prefix: Option<IpNet>,
    pub dataplane: MupDataplane,
}

/// What a mobile user-plane service holds.
pub struct BgpVrfMobileUplaneView {
    pub routes: Map<MupSrv6Direction, MupRouteBindingView>,
    pub segment: Option<MupSegmentMode>,
    pub mup_ext_comm: Option<RouteDistinguisherView>,
    pub interwork_prefix: Option<IpNet>,
    pub dataplane: MupDataplane,
}

impl View for BgpVrfMobileUplane {
    type V = BgpVrfMobileUplaneView;

    open spec fn view(&self) -> BgpVrfMobileUplaneView {
        BgpVrfMobileUplaneView {
            routes: self.routes@,
            segment: self.segment,
            mup_ext_comm: self.mup_ext_comm.deep_view(),
            interwork_prefix: self.interwork_prefix,
            dataplane: self.dataplane,
        }
    }
}

impl BgpVrfMobileUplaneView {
    /// No service.
    pub open spec fn unset() -> Self {
        BgpVrfMobileUplaneView {
            routes: Map::empty(),
            segment: None,
            mup_ext_comm: None,
            interwork_prefix: None,
            dataplane: MupDataplane::EndDt46,
        }
    }
}

impl Default for BgpVrfMobileUplane {
    fn default() -> (r: Self)
        ensures
            r@ == BgpVrfMobileUplaneView::unset(),
    {
        BgpVrfMobileUplane {
            routes: SortedMap::new(),
            segment: None,
            mup_ext_comm: None,
            interwork_prefix: None,
            dataplane: MupDataplane::default(),
        }
    }
}

/// The candidate configuration of one VRF.
#[derive(Debug)]
pub struct BgpVrfConfig {
    pub rd: Option<RouteDistinguisher>,
    pub router_id: Option<Ipv4Addr>,
    pub label_mode: BgpVrfLabelMode,
    pub encapsulation: BgpVrfEncapsulation,
    pub neighbors: SortedMap<IpAddr, BgpVrfNeighborConfig>,
    pub ipv4_unicast: Option<BgpVrfAfConfig<Ipv4Net>>,
    pub ipv6_unicast: Option<BgpVrfAfConfig<Ipv6Net>>,
    /// Advertise the VRF's IPv4 routes as EVPN Type-5 routes.
    pub evpn_advertise_v4: bool,
    /// Advertise the VRF's IPv6 routes as EVPN Type-5 routes.
    pub evpn_advertise_v6: bool,
    /// The L3VNI of the VRF, stamped as the label of its Type-5 routes.
    pub l3vni: Option<u32>,
    /// This router's MAC address for the L3VNI.
    pub router_mac: Option<[u8; 6]>,
    /// Export again the VPN routes that the VRF imports (inter-AS option AB).
    pub inter_as_hybrid: bool,
    pub mobile_uplane: BgpVrfMobileUplane,
}

/// What a VRF's configuration holds.
pub struct BgpVrfConfigView {
    pub rd: Option<RouteDistinguisherView>,
    pub router_id: Option<Ipv4Addr>,
    pub label_mode: BgpVrfLabelMode,
    pub encapsulation: BgpVrfEncapsulation,
    pub neighbors: Map<IpAddr, BgpVrfNeighborConfigView>,
    pub ipv4_unicast: Option<BgpVrfAfConfigView<Ipv4Net>>,
    pub ipv6_unicast: Option<BgpVrfAfConfigView<Ipv6Net>>,
    pub evpn_advertise_v4: bool,
    pub evpn_advertise_v6: bool,
    pub l3vni: Option<u32>,
    pub router_mac: Option<Seq<u8>>,
    pub inter_as_hybrid: bool,
    pub mobile_uplane: BgpVrfMobileUplaneView,
}

impl View for BgpVrfConfig {
    type V = BgpVrfConfigView;

    open spec fn view(&self) -> BgpVrfConfigView {
        BgpVrfConfigView {
            rd: self.rd.deep_view(),
            router_id: self.router_id,
            label_mode: self.label_mode,
            encapsulation: self.encapsulation,
            neighbors: self.neighbors@,
            ipv4_unicast: self.ipv4_unicast.deep_view(),
            ipv6_unicast: self.ipv6_unicast.deep_view(),
            evpn_advertise_v4: self.evpn_advertise_v4,
            evpn_advertise_v6: self.evpn_advertise_v6,
            l3vni: self.l3vni,
            router_mac: self.router_mac.deep_view(),
            inter_as_hybrid: self.inter_as_hybrid,
            mobile_uplane: self.mobile_uplane@,
        }
    }
}

impl DeepView for BgpVrfConfig {
    type V = BgpVrfConfigView;

    open spec fn deep_view(&self) -> BgpVrfConfigView {
        self@
    }
}

impl BgpVrfConfigView {
    /// A VRF of which nothing but the name is configured.
    pub open spec fn unset() -> Self {
        BgpVrfConfigView {
            rd: None,
            router_id: None,
            label_mode: BgpVrfLabelMode::Vrf,
            encapsulation: BgpVrfEncapsulation::Mpls,
            neighbors: Map::empty(),
            ipv4_unicast: None,
            ipv6_unicast: None,
            evpn_advertise_v4: false,
            evpn_advertise_v6: false,
            l3vni: None,
            router_mac: None,
            inter_as_hybrid: false,
            mobile_uplane: BgpVrfMobileUplaneView::unset(),
        }
    }
}

impl Default for BgpVrfConfig {
    fn default() -> (r: Self)
        ensures
            r@ == BgpVrfConfigView::unset(),
    {
        BgpVrfConfig {
            rd: None,
            router_id: None,
            label_mode: BgpVrfLabelMode::default(),
            encapsulation: BgpVrfEncapsulation::default(),
            neighbors: SortedMap::new(),
            ipv4_unicast: None,
            ipv6_unicast: None,
            evpn_advertise_v4: false,
            evpn_advertise_v6: false,
            l3vni: None,
            router_mac: None,
            inter_as_hybrid: false,
            mobile_uplane: BgpVrfMobileUplane::default(),
        }
    }
}

impl<N: SortKey + Value> Value for BgpVrfAfConfig<N> {
    fn duplicate(&self) -> (r: Self) {
        BgpVrfAfConfig {
            networks: self.networks.duplicate(),
            redistribute: self.redistribute.duplicate(),
        }
    }

    fn same(&self, other: &Self) -> (r: bool) {
        self.networks.same(&other.networks) && self.redistribute.same(&other.redistribute)
    }
}

impl<N: SortKey + Value> Clone for BgpVrfAfConfig<N> {
    fn clone(&self) -> (r: Self)
        ensures
            r@ == self@,
    {
        self.duplicate()
    }
}

impl Value for MupRouteBinding {
    fn duplicate(&self) -> (r: Self) {
        MupRouteBinding {
            network_instance: self.network_instance.duplicate(),
            mup_ext_comm: self.mup_ext_comm,
        }
    }

    fn same(&self, other: &Self) -> (r: bool) {
        self.network_instance.same(&other.network_instance) && self.mup_ext_comm.same(
            &other.mup_ext_comm,
        )
    }
}

impl Clone for MupRouteBinding {
    fn clone(&self) -> (r: Self)
        ensures
            r@ == self@,
    {
        self.duplicate()
    }
}

impl BgpVrfMobileUplane {
    /// The same service again.
    pub fn duplicate(&self) -> (r: Self)
        ensures
            r@ == self@,
    {
        BgpVrfMobileUplane {
            routes: self.routes.duplicate(),
            segment: self.segment,
            mup_ext_comm: self.mup_ext_comm,
            interwork_prefix: self.interwork_prefix,
            dataplane: self.dataplane,
        }
    }
}

impl Clone for BgpVrfMobileUplane {
    fn clone(&self) -> (r: Self)
        ensures
            r@ == self@,
    {
        self.duplicate()
    }
}

impl BgpVrfConfig {
    /// The same configuration again.
    pub fn duplicate(&self) -> (r: Self)
        ensures
            r@ == self@,
    {
        BgpVrfConfig {
            rd: self.rd,
            router_id: self.router_id,
            label_mode: self.label_mode,
            encapsulation: self.encapsulation,
            neighbors: self.neighbors.duplicate(),
            ipv4_unicast: self.ipv4_unicast.duplicate(),
            ipv6_unicast: self.ipv6_unicast.duplicate(),
            evpn_advertise_v4: self.evpn_advertise_v4,
            evpn_advertise_v6: self.evpn_advertise_v6,
            l3vni: self.l3vni,
            router_mac: self.router_mac,
            inter_as_hybrid: self.inter_as_hybrid,
            mobile_uplane: self.mobile_uplane.duplicate(),
        }
    }
}

impl Clone for BgpVrfConfig {
    fn clone(&self) -> (r: Self)
        ensures
            r@ == self@,
    {
        self.duplicate()
    }
}

} // verus!
