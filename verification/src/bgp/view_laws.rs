//! What the models of the configuration and of the messages show of the values
//! they stand for: every field, unchanged.

use vstd::prelude::*;
use crate::args::Arg;
use crate::bgp::intent::VrfIntent;
use crate::bgp::state::{Bgp, BgpView, BgpVrfMsg, BgpVrfMsgView, PendingVrfPrefixSetChange,
    VrfDelivery, VrfHandle, VrfPrefixSetChange};
use crate::bgp::structure::{GroupAfiSafi, NeighborGroup};
use crate::bgp::types::{BgpVrfAfConfig, BgpVrfConfig, BgpVrfMobileUplane, BgpVrfNeighborConfig,
    BgpVrfPrefixSetConfig, MupRouteBinding};
use crate::net::RouteDistinguisher;
use crate::order::SortKey;

verus! {

/// A VRF's configuration is shown field by field.
pub proof fn vrf_config_is_shown(cfg: BgpVrfConfig)
    ensures
        cfg@.rd == cfg.rd.deep_view(),
        cfg@.router_id == cfg.router_id,
        cfg@.label_mode == cfg.label_mode,
        cfg@.encapsulation == cfg.encapsulation,
        cfg@.neighbors == cfg.neighbors@,
        cfg@.ipv4_unicast == cfg.ipv4_unicast.deep_view(),
        cfg@.ipv6_unicast == cfg.ipv6_unicast.deep_view(),
        cfg@.evpn_advertise_v4 == cfg.evpn_advertise_v4,
        cfg@.evpn_advertise_v6 == cfg.evpn_advertise_v6,
        cfg@.l3vni == cfg.l3vni,
        cfg@.router_mac == cfg.router_mac.deep_view(),
        cfg@.inter_as_hybrid == cfg.inter_as_hybrid,
        cfg@.mobile_uplane == cfg.mobile_uplane@,
        cfg.deep_view() == cfg@,
{
}

/// A neighbor's configuration is shown field by field.
pub proof fn neighbor_config_is_shown(neighbor: BgpVrfNeighborConfig)
    ensures
        neighbor@.remote_as == neighbor.remote_as,
        neighbor@.peer_group == neighbor.peer_group.deep_view(),
        neighbor@.description == neighbor.description.deep_view(),
        neighbor@.mp_explicit == neighbor.mp_explicit@,
        neighbor@.timer == neighbor.timer,
        neighbor@.prefix_set == neighbor.prefix_set@,
        neighbor.deep_view() == neighbor@,
{
}

/// A pair of bindings is shown field by field.
pub proof fn prefix_sets_are_shown(pair: BgpVrfPrefixSetConfig)
    ensures
        pair@.input == pair.input.deep_view(),
        pair@.output == pair.output.deep_view(),
        pair.deep_view() == pair@,
{
}

/// A family's configuration is shown field by field.
pub proof fn family_is_shown<N: SortKey>(af: BgpVrfAfConfig<N>)
    ensures
        af@.networks == af.networks@,
        af@.redistribute == af.redistribute@,
        af.deep_view() == af@,
{
}

/// A mobile user-plane service is shown field by field.
pub proof fn mobile_uplane_is_shown(service: BgpVrfMobileUplane)
    ensures
        service@.routes == service.routes@,
        service@.segment == service.segment,
        service@.mup_ext_comm == service.mup_ext_comm.deep_view(),
        service@.interwork_prefix == service.interwork_prefix,
        service@.dataplane == service.dataplane,
{
}

/// A route binding is shown field by field.
pub proof fn route_binding_is_shown(binding: MupRouteBinding)
    ensures
        binding@.network_instance == binding.network_instance.deep_view(),
        binding@.mup_ext_comm == binding.mup_ext_comm.deep_view(),
        binding.deep_view() == binding@,
{
}

/// A peer group is shown field by field.
pub proof fn peer_group_is_shown(group: NeighborGroup)
    ensures
        group@.remote_as == group.remote_as,
        group@.afi_safi == group.afi_safi@,
        group.deep_view() == group@,
{
}

/// What a group says of a family is shown as it is.
pub proof fn group_family_is_shown(family: GroupAfiSafi)
    ensures
        family.deep_view() == family.enabled,
{
}

/// A route distinguisher is shown field by field.
pub proof fn rd_is_shown(rd: RouteDistinguisher)
    ensures
        rd@.typ == rd.typ,
        rd@.val == rd.val.deep_view(),
        rd.deep_view() == rd@,
{
}

/// An argument is shown field by field.
pub proof fn argument_is_shown(arg: Arg)
    ensures
        arg@.text == arg.text@,
        arg@.addr == arg.addr,
        arg@.rd == arg.rd.deep_view(),
        arg.deep_view() == arg@,
{
}

/// A touched binding is shown field by field.
pub proof fn pending_change_is_shown(change: PendingVrfPrefixSetChange)
    ensures
        change@.key.vrf == change.vrf@,
        change@.key.address == change.address,
        change@.key.afi_safi == change.afi_safi,
        change@.key.direction == change.direction,
        change@.before == change.before.deep_view(),
        change.deep_view() == change@,
{
}

/// A changed binding is shown field by field.
pub proof fn change_is_shown(change: VrfPrefixSetChange)
    ensures
        change@.key.vrf == change.vrf@,
        change@.key.address == change.address,
        change@.key.afi_safi == change.afi_safi,
        change@.key.direction == change.direction,
        change@.name == change.name.deep_view(),
        change.deep_view() == change@,
{
}

/// A message on its way is shown with its inbox.
pub proof fn delivery_is_shown(delivery: VrfDelivery)
    ensures
        delivery.deep_view().inbox == delivery.inbox,
        delivery.deep_view().msg == delivery.msg@,
{
}

/// A running VRF is shown by its inbox.
pub proof fn handle_is_shown(handle: VrfHandle)
    ensures
        handle.deep_view() == handle.inbox,
{
}

/// An instance is shown field by field.
pub proof fn instance_is_shown(bgp: Bgp)
    ensures
        bgp@.vrfs == bgp.vrfs@,
        bgp@.pending == bgp.vrf_prefix_set_pending.deep_view(),
        bgp@.registry == bgp.vrf_registry@,
        bgp@.outbox == bgp.outbox.deep_view(),
{
}

/// A line on what is staged is shown field by field.
pub proof fn intent_is_shown(line: VrfIntent)
    ensures
        line.deep_view().vrf == line.vrf@,
        line.deep_view().rd == line.rd.deep_view(),
        line.deep_view().router_id == line.router_id,
        line.deep_view().label_mode == line.label_mode,
        line.deep_view().neighbors == line.neighbors,
        line.deep_view().ipv4_unicast == line.ipv4_unicast,
        line.deep_view().ipv6_unicast == line.ipv6_unicast,
        line.deep_view().evpn_advertise_v4 == line.evpn_advertise_v4,
        line.deep_view().evpn_advertise_v6 == line.evpn_advertise_v6,
{
}

/// A message shows its kind and all that it says.
pub proof fn message_is_shown(msg: BgpVrfMsg)
    ensures
        match msg {
            BgpVrfMsg::OriginateNetwork { prefix: p } => msg@ matches BgpVrfMsgView::OriginateNetwork {
                prefix,
            } && prefix == p,
            BgpVrfMsg::WithdrawNetwork { prefix: p } => msg@ matches BgpVrfMsgView::WithdrawNetwork {
                prefix,
            } && prefix == p,
            BgpVrfMsg::OriginateNetworkV6 { prefix: p } => {
                msg@ matches BgpVrfMsgView::OriginateNetworkV6 { prefix } && prefix == p
            },
            BgpVrfMsg::WithdrawNetworkV6 { prefix: p } => {
                msg@ matches BgpVrfMsgView::WithdrawNetworkV6 { prefix } && prefix == p
            },
            BgpVrfMsg::RedistEnable { afi: a, source: s } => {
                msg@ matches BgpVrfMsgView::RedistEnable { afi, source } && afi == a && source == s
            },
            BgpVrfMsg::RedistDisable { afi: a, source: s } => {
                msg@ matches BgpVrfMsgView::RedistDisable { afi, source } && afi == a && source == s
            },
            BgpVrfMsg::PrefixSetConfig {
                address: a,
                afi_safi: f,
                direction: d,
                name: n,
                generation: g,
            } => {
                msg@ matches BgpVrfMsgView::PrefixSetConfig {
                    address,
                    afi_safi,
                    direction,
                    name,
                    generation,
                } && address == a && afi_safi == f && direction == d && name == n.deep_view()
                    && generation == g
            },
            BgpVrfMsg::PrefixSetCommitEnd { generation: g } => {
                msg@ matches BgpVrfMsgView::PrefixSetCommitEnd { generation } && generation == g
            },
        },
{
}

/// A new instance has no VRF, configured or running, and nothing to hand out.
pub proof fn instance_starts_empty(name: Seq<char>)
    ensures
        !BgpView::empty().vrfs.contains_key(name),
        !BgpView::empty().registry.contains_key(name),
        BgpView::empty().pending.len() == 0,
        BgpView::empty().outbox.len() == 0,
{
}

} // verus!
