//! The prefixes that a VRF originates and the sources that it redistributes
//! from, staged and passed on to the VRF where it is running.

use vstd::prelude::*;
use crate::args::{rest, string_arg, v4net_arg, v6net_arg, ArgView, Args, ConfigOp};
use crate::bgp::staging::{vrf_entry, vrf_found};
use crate::bgp::state::{tell_in_turn, Bgp, BgpView, BgpVrfMsg, BgpVrfMsgView, VrfDeliveryView};
use crate::bgp::types::{BgpRedistSource, BgpVrfAfConfig, BgpVrfAfConfigView, BgpVrfConfigView,
    RedistAfi};
use crate::net::{Ipv4Net, Ipv6Net};
use crate::order::{in_order, in_order_enumerates, in_order_is, increasing_no_duplicates, SortKey};
use crate::sorted_map::SortedSet;

verus! {

/// What is configured for a family, nothing where the family is not there.
pub open spec fn af_or_unset<M>(af: Option<BgpVrfAfConfigView<M>>) -> BgpVrfAfConfigView<M> {
    match af {
        Some(af) => af,
        None => BgpVrfAfConfigView::unset(),
    }
}

/// A family with a prefix originated, or originated no more.
pub open spec fn with_network<M>(
    af: Option<BgpVrfAfConfigView<M>>,
    prefix: M,
    set: bool,
) -> BgpVrfAfConfigView<M> {
    let af = af_or_unset(af);
    BgpVrfAfConfigView {
        networks: if set {
            af.networks.insert(prefix)
        } else {
            af.networks.remove(prefix)
        },
        ..af
    }
}

/// A family with a source redistributed, or redistributed no more.
pub open spec fn with_source<M>(
    af: Option<BgpVrfAfConfigView<M>>,
    source: BgpRedistSource,
    set: bool,
) -> BgpVrfAfConfigView<M> {
    let af = af_or_unset(af);
    BgpVrfAfConfigView {
        redistribute: if set {
            af.redistribute.insert(source)
        } else {
            af.redistribute.remove(source)
        },
        ..af
    }
}

/// The message that withdraws an IPv4 prefix.
pub open spec fn ipv4_withdrawal() -> spec_fn(Ipv4Net) -> BgpVrfMsgView {
    |prefix: Ipv4Net| BgpVrfMsgView::WithdrawNetwork { prefix }
}

/// The withdrawals of all IPv4 prefixes that a VRF originates, in their order.
pub open spec fn ipv4_withdrawals(bgp: BgpView, name: Seq<char>) -> Seq<BgpVrfMsgView> {
    if bgp.vrfs.contains_key(name) {
        in_order::<Ipv4Net>(af_or_unset(bgp.vrfs[name].ipv4_unicast).networks).map_values(
            ipv4_withdrawal(),
        )
    } else {
        Seq::empty()
    }
}

/// The effect of the callback for the IPv4 family.
pub open spec fn ipv4_staged(bgp: BgpView, args: Seq<ArgView>, op: ConfigOp) -> (
    BgpView,
    Option<()>,
) {
    match string_arg(args) {
        None => (bgp, None),
        Some(name) => (
            match op {
                ConfigOp::Assign => {
                    let cfg = vrf_found(bgp.vrfs, name, op)->0;
                    bgp.with_vrf(
                        name,
                        BgpVrfConfigView {
                            ipv4_unicast: Some(af_or_unset(cfg.ipv4_unicast)),
                            ..cfg
                        },
                    )
                },
                ConfigOp::Delete => {
                    let told = bgp.tell(name, ipv4_withdrawals(bgp, name));
                    if bgp.vrfs.contains_key(name) {
                        told.with_vrf(
                            name,
                            BgpVrfConfigView { ipv4_unicast: None, ..bgp.vrfs[name] },
                        )
                    } else {
                        told
                    }
                },
                _ => bgp,
            },
            Some(()),
        ),
    }
}

/// `router bgp vrf <NAME> afi-safi ipv4`. A delete of the family stands for
/// the deletes of all prefixes in it, so that it withdraws them from a running
/// VRF first.
pub fn config_vrf_afi_ipv4(bgp: &mut Bgp, mut args: Args, op: ConfigOp) -> (r: Option<()>)
    ensures
        (final(bgp)@, r) == ipv4_staged(old(bgp)@, args@, op),
{
    let name = args.string()?;
    match op {
        ConfigOp::Assign => {
            let cfg = vrf_entry(bgp, name, op)?;
            cfg.ipv4_unicast.get_or_insert(BgpVrfAfConfig::default());
        },
        ConfigOp::Delete => {
            let ghost before = bgp@;
            let nets: Vec<Ipv4Net> = match bgp.vrfs.get(&name) {
                Some(cfg) => match &cfg.ipv4_unicast {
                    Some(af) => af.networks.members(),
                    None => Vec::new(),
                },
                None => Vec::new(),
            };
            let ghost all = nets.deep_view();
            proof {
                assert(before.vrfs.contains_key(name@) && before.vrfs[name@].ipv4_unicast is None
                    ==> all =~= in_order::<Ipv4Net>(Set::empty())) by {
                    in_order_is::<Ipv4Net>(Seq::empty());
                    assert(Seq::<Ipv4Net>::empty().to_set() =~= Set::empty());
                }
                assert(ipv4_withdrawals(before, name@) =~= all.map_values(ipv4_withdrawal()));
                assert(before.outbox + Seq::empty() =~= before.outbox);
                assert(before.tell(name@, all.take(0).map_values(ipv4_withdrawal())).outbox
                    =~= before.outbox);
            }
            for prefix in it: nets
                invariant
                    nets.deep_view() == all,
                    it.seq() == nets@,
                    bgp@ == before.tell(
                        name@,
                        all.take(it.index()).map_values(ipv4_withdrawal()),
                    ),
            {
                let ghost i = it.index();
                bgp.send(&name, BgpVrfMsg::WithdrawNetwork { prefix });
                proof {
                    let first = all.take(i).map_values(ipv4_withdrawal());
                    let second = seq![ipv4_withdrawal()(prefix)];
                    tell_in_turn(before, name@, first, second);
                    assert(first + second =~= all.take(i + 1).map_values(ipv4_withdrawal()));
                }
            }
            assert(all.take(all.len() as int) =~= all);
            match vrf_entry(bgp, name, op) {
                Some(cfg) => cfg.ipv4_unicast = None,
                None => {},
            }
        },
        _ => {},
    }
    Some(())
}

/// The effect of the callback for an IPv4 prefix.
pub open spec fn ipv4_network_staged(bgp: BgpView, args: Seq<ArgView>, op: ConfigOp) -> (
    BgpView,
    Option<()>,
) {
    match (string_arg(args), v4net_arg(rest(args))) {
        (Some(name), Some(prefix)) => if op == ConfigOp::Assign || op == ConfigOp::Delete {
            let set = op == ConfigOp::Assign;
            match vrf_found(bgp.vrfs, name, op) {
                Some(cfg) => (
                    bgp.with_vrf(
                        name,
                        BgpVrfConfigView {
                            ipv4_unicast: Some(with_network(cfg.ipv4_unicast, prefix, set)),
                            ..cfg
                        },
                    ).tell(
                        name,
                        seq![
                            if set {
                                BgpVrfMsgView::OriginateNetwork { prefix }
                            } else {
                                BgpVrfMsgView::WithdrawNetwork { prefix }
                            },
                        ],
                    ),
                    Some(()),
                ),
                None => (bgp, None),
            }
        } else {
            (bgp, Some(()))
        },
        _ => (bgp, None),
    }
}

/// `router bgp vrf <NAME> afi-safi ipv4 network <PREFIX>`. A running VRF is
/// told at once; one that is not running yet finds the prefix when it starts.
pub fn config_vrf_afi_ipv4_network(bgp: &mut Bgp, mut args: Args, op: ConfigOp) -> (r: Option<()>)
    ensures
        (final(bgp)@, r) == ipv4_network_staged(old(bgp)@, args@, op),
{
    let name = args.string()?;
    let prefix = args.v4net()?;
    let set = match op {
        ConfigOp::Assign => true,
        ConfigOp::Delete => false,
        _ => return Some(()),
    };
    let cfg = vrf_entry(bgp, name.clone(), op)?;
    let af = cfg.ipv4_unicast.get_or_insert(BgpVrfAfConfig::default());
    if set {
        af.networks.insert(prefix);
    } else {
        af.networks.remove(&prefix);
    }
    let msg = if set {
        BgpVrfMsg::OriginateNetwork { prefix }
    } else {
        BgpVrfMsg::WithdrawNetwork { prefix }
    };
    bgp.send(&name, msg);
    Some(())
}

/// The message that withdraws an IPv6 prefix.
pub open spec fn ipv6_withdrawal() -> spec_fn(Ipv6Net) -> BgpVrfMsgView {
    |prefix: Ipv6Net| BgpVrfMsgView::WithdrawNetworkV6 { prefix }
}

/// The withdrawals of all IPv6 prefixes that a VRF originates, in their order.
pub open spec fn ipv6_withdrawals(bgp: BgpView, name: Seq<char>) -> Seq<BgpVrfMsgView> {
    if bgp.vrfs.contains_key(name) {
        in_order::<Ipv6Net>(af_or_unset(bgp.vrfs[name].ipv6_unicast).networks).map_values(
            ipv6_withdrawal(),
        )
    } else {
        Seq::empty()
    }
}

/// The effect of the callback for the IPv6 family.
pub open spec fn ipv6_staged(bgp: BgpView, args: Seq<ArgView>, op: ConfigOp) -> (
    BgpView,
    Option<()>,
) {
    match string_arg(args) {
        None => (bgp, None),
        Some(name) => (
            match op {
                ConfigOp::Assign => {
                    let cfg = vrf_found(bgp.vrfs, name, op)->0;
                    bgp.with_vrf(
                        name,
                        BgpVrfConfigView {
                            ipv6_unicast: Some(af_or_unset(cfg.ipv6_unicast)),
                            ..cfg
                        },
                    )
                },
                ConfigOp::Delete => {
                    let told = bgp.tell(name, ipv6_withdrawals(bgp, name));
                    if bgp.vrfs.contains_key(name) {
                        told.with_vrf(
                            name,
                            BgpVrfConfigView { ipv6_unicast: None, ..bgp.vrfs[name] },
                        )
                    } else {
                        told
                    }
                },
                _ => bgp,
            },
            Some(()),
        ),
    }
}

/// `router bgp vrf <NAME> afi-safi ipv6`. A delete of the family stands for
/// the deletes of all prefixes in it, so that it withdraws them from a running
/// VRF first.
pub fn config_vrf_afi_ipv6(bgp: &mut Bgp, mut args: Args, op: ConfigOp) -> (r: Option<()>)
    ensures
        (final(bgp)@, r) == ipv6_staged(old(bgp)@, args@, op),
{
    let name = args.string()?;
    match op {
        ConfigOp::Assign => {
            let cfg = vrf_entry(bgp, name, op)?;
            cfg.ipv6_unicast.get_or_insert(BgpVrfAfConfig::default());
        },
        ConfigOp::Delete => {
            let ghost before = bgp@;
            let nets: Vec<Ipv6Net> = match bgp.vrfs.get(&name) {
                Some(cfg) => match &cfg.ipv6_unicast {
                    Some(af) => af.networks.members(),
                    None => Vec::new(),
                },
                None => Vec::new(),
            };
            let ghost all = nets.deep_view();
            proof {
                assert(before.vrfs.contains_key(name@) && before.vrfs[name@].ipv6_unicast is None
                    ==> all =~= in_order::<Ipv6Net>(Set::empty())) by {
                    in_order_is::<Ipv6Net>(Seq::empty());
                    assert(Seq::<Ipv6Net>::empty().to_set() =~= Set::empty());
                }
                assert(ipv6_withdrawals(before, name@) =~= all.map_values(ipv6_withdrawal()));
                assert(before.outbox + Seq::empty() =~= before.outbox);
                assert(before.tell(name@, all.take(0).map_values(ipv6_withdrawal())).outbox
                    =~= before.outbox);
            }
            for prefix in it: nets
                invariant
                    nets.deep_view() == all,
                    it.seq() == nets@,
                    bgp@ == before.tell(
                        name@,
                        all.take(it.index()).map_values(ipv6_withdrawal()),
                    ),
            {
                let ghost i = it.index();
                bgp.send(&name, BgpVrfMsg::WithdrawNetworkV6 { prefix });
                proof {
                    let first = all.take(i).map_values(ipv6_withdrawal());
                    let second = seq![ipv6_withdrawal()(prefix)];
                    tell_in_turn(before, name@, first, second);
                    assert(first + second =~= all.take(i + 1).map_values(ipv6_withdrawal()));
                }
            }
            assert(all.take(all.len() as int) =~= all);
            match vrf_entry(bgp, name, op) {
                Some(cfg) => cfg.ipv6_unicast = None,
                None => {},
            }
        },
        _ => {},
    }
    Some(())
}

/// The effect of the callback for an IPv6 prefix.
pub open spec fn ipv6_network_staged(bgp: BgpView, args: Seq<ArgView>, op: ConfigOp) -> (
    BgpView,
    Option<()>,
) {
    match (string_arg(args), v6net_arg(rest(args))) {
        (Some(name), Some(prefix)) => if op == ConfigOp::Assign || op == ConfigOp::Delete {
            let set = op == ConfigOp::Assign;
            match vrf_found(bgp.vrfs, name, op) {
                Some(cfg) => (
                    bgp.with_vrf(
                        name,
                        BgpVrfConfigView {
                            ipv6_unicast: Some(with_network(cfg.ipv6_unicast, prefix, set)),
                            ..cfg
                        },
                    ).tell(
                        name,
                        seq![
                            if set {
                                BgpVrfMsgView::OriginateNetworkV6 { prefix }
                            } else {
                                BgpVrfMsgView::WithdrawNetworkV6 { prefix }
                            },
                        ],
                    ),
                    Some(()),
                ),
                None => (bgp, None),
            }
        } else {
            (bgp, Some(()))
        },
        _ => (bgp, None),
    }
}

/// `router bgp vrf <NAME> afi-safi ipv6 network <PREFIX>`. A running VRF is
/// told at once; one that is not running yet finds the prefix when it starts.
pub fn config_vrf_afi_ipv6_network(bgp: &mut Bgp, mut args: Args, op: ConfigOp) -> (r: Option<()>)
    ensures
        (final(bgp)@, r) == ipv6_network_staged(old(bgp)@, args@, op),
{
    let name = args.string()?;
    let prefix = args.v6net()?;
    let set = match op {
        ConfigOp::Assign => true,
        ConfigOp::Delete => false,
        _ => return Some(()),
    };
    let cfg = vrf_entry(bgp, name.clone(), op)?;
    let af = cfg.ipv6_unicast.get_or_insert(BgpVrfAfConfig::default());
    if set {
        af.networks.insert(prefix);
    } else {
        af.networks.remove(&prefix);
    }
    let msg = if set {
        BgpVrfMsg::OriginateNetworkV6 { prefix }
    } else {
        BgpVrfMsg::WithdrawNetworkV6 { prefix }
    };
    bgp.send(&name, msg);
    Some(())
}

/// A VRF's configuration with a source redistributed into a family, or
/// redistributed no more.
pub open spec fn cfg_with_source(
    cfg: BgpVrfConfigView,
    afi: RedistAfi,
    source: BgpRedistSource,
    set: bool,
) -> BgpVrfConfigView {
    match afi {
        RedistAfi::Ipv4 => BgpVrfConfigView {
            ipv4_unicast: Some(with_source(cfg.ipv4_unicast, source, set)),
            ..cfg
        },
        RedistAfi::Ipv6 => BgpVrfConfigView {
            ipv6_unicast: Some(with_source(cfg.ipv6_unicast, source, set)),
            ..cfg
        },
    }
}

/// The effect of enabling or disabling a source.
pub open spec fn redist_staged(
    bgp: BgpView,
    name: Seq<char>,
    afi: RedistAfi,
    source: BgpRedistSource,
    op: ConfigOp,
) -> BgpView {
    if op == ConfigOp::Assign || op == ConfigOp::Delete {
        let set = op == ConfigOp::Assign;
        match vrf_found(bgp.vrfs, name, op) {
            Some(cfg) => bgp.with_vrf(name, cfg_with_source(cfg, afi, source, set)).tell(
                name,
                seq![
                    if set {
                        BgpVrfMsgView::RedistEnable { afi, source }
                    } else {
                        BgpVrfMsgView::RedistDisable { afi, source }
                    },
                ],
            ),
            None => bgp,
        }
    } else {
        bgp
    }
}

/// Enable or disable one source of redistribution, in the staged configuration
/// and in the VRF where it is running.
pub fn vrf_redist_set(
    bgp: &mut Bgp,
    name: String,
    afi: RedistAfi,
    source: BgpRedistSource,
    op: ConfigOp,
) -> (r: Option<()>)
    ensures
        final(bgp)@ == redist_staged(old(bgp)@, name@, afi, source, op),
        r == Some(()),
{
    let set = match op {
        ConfigOp::Assign => true,
        ConfigOp::Delete => false,
        _ => return Some(()),
    };
    match vrf_entry(bgp, name.clone(), op) {
        Some(cfg) => {
            let redist = match afi {
                RedistAfi::Ipv4 => &mut cfg.ipv4_unicast.get_or_insert(
                    BgpVrfAfConfig::default(),
                ).redistribute,
                RedistAfi::Ipv6 => &mut cfg.ipv6_unicast.get_or_insert(
                    BgpVrfAfConfig::default(),
                ).redistribute,
            };
            if set {
                redist.insert(source);
            } else {
                redist.remove(&source);
            }
        },
        None => return Some(()),
    }
    let msg = if set {
        BgpVrfMsg::RedistEnable { afi, source }
    } else {
        BgpVrfMsg::RedistDisable { afi, source }
    };
    bgp.send(&name, msg);
    Some(())
}

/// The sources that a VRF redistributes into a family.
pub open spec fn redist_sources(cfg: BgpVrfConfigView, afi: RedistAfi) -> Set<BgpRedistSource> {
    match afi {
        RedistAfi::Ipv4 => af_or_unset(cfg.ipv4_unicast).redistribute,
        RedistAfi::Ipv6 => af_or_unset(cfg.ipv6_unicast).redistribute,
    }
}

/// A family without sources. A family that is not there stays away.
pub open spec fn without_sources<M>(af: Option<BgpVrfAfConfigView<M>>) -> Option<
    BgpVrfAfConfigView<M>,
> {
    match af {
        Some(af) => Some(BgpVrfAfConfigView { redistribute: Set::empty(), ..af }),
        None => None,
    }
}

/// A VRF's configuration without sources for a family.
pub open spec fn cfg_without_sources(cfg: BgpVrfConfigView, afi: RedistAfi) -> BgpVrfConfigView {
    match afi {
        RedistAfi::Ipv4 => BgpVrfConfigView {
            ipv4_unicast: without_sources(cfg.ipv4_unicast),
            ..cfg
        },
        RedistAfi::Ipv6 => BgpVrfConfigView {
            ipv6_unicast: without_sources(cfg.ipv6_unicast),
            ..cfg
        },
    }
}

/// The message that disables a source.
pub open spec fn redist_disabling(afi: RedistAfi) -> spec_fn(BgpRedistSource) -> BgpVrfMsgView {
    |source: BgpRedistSource| BgpVrfMsgView::RedistDisable { afi, source }
}

/// The effect of disabling all sources of a family.
pub open spec fn redist_cleared(bgp: BgpView, name: Seq<char>, afi: RedistAfi) -> BgpView {
    if bgp.vrfs.contains_key(name) {
        bgp.with_vrf(name, cfg_without_sources(bgp.vrfs[name], afi)).tell(
            name,
            in_order::<BgpRedistSource>(redist_sources(bgp.vrfs[name], afi)).map_values(
                redist_disabling(afi),
            ),
        )
    } else {
        bgp
    }
}

/// Take the sources out of a family.
fn drain_sources<N: SortKey>(af: &mut Option<BgpVrfAfConfig<N>>) -> (r: Vec<
    BgpRedistSource,
>)
    ensures
        r.deep_view() == in_order::<BgpRedistSource>(
            af_or_unset(old(af).deep_view()).redistribute,
        ),
        final(af).deep_view() == without_sources(old(af).deep_view()),
{
    match af {
        Some(af) => {
            let drained = af.redistribute.members();
            af.redistribute = SortedSet::new();
            drained
        },
        None => {
            let drained: Vec<BgpRedistSource> = Vec::new();
            proof {
                in_order_is::<BgpRedistSource>(Seq::empty());
                assert(Seq::<BgpRedistSource>::empty().to_set() =~= Set::empty());
                assert(drained.deep_view() =~= Seq::empty());
            }
            drained
        },
    }
}

/// Disable all sources of redistribution of a family. This is for deletes, and
/// creates no entry.
pub fn vrf_redist_clear(bgp: &mut Bgp, name: String, afi: RedistAfi)
    ensures
        final(bgp)@ == redist_cleared(old(bgp)@, name@, afi),
{
    let ghost before = bgp@;
    let sources = match bgp.vrfs.get_mut(&name) {
        Some(cfg) => match afi {
            RedistAfi::Ipv4 => drain_sources(&mut cfg.ipv4_unicast),
            RedistAfi::Ipv6 => drain_sources(&mut cfg.ipv6_unicast),
        },
        None => return ,
    };
    let ghost cleared = bgp@;
    let ghost all = sources.deep_view();
    proof {
        assert(cleared == before.with_vrf(name@, cfg_without_sources(before.vrfs[name@], afi)));
        assert(cleared.tell(name@, all.take(0).map_values(redist_disabling(afi))).outbox
            =~= cleared.outbox);
    }
    for source in it: sources
        invariant
            sources.deep_view() == all,
            it.seq() == sources@,
            bgp@ == cleared.tell(name@, all.take(it.index()).map_values(redist_disabling(afi))),
    {
        let ghost i = it.index();
        bgp.send(&name, BgpVrfMsg::RedistDisable { afi, source });
        proof {
            let first = all.take(i).map_values(redist_disabling(afi));
            let second = seq![redist_disabling(afi)(source)];
            tell_in_turn(cleared, name@, first, second);
            assert(first + second =~= all.take(i + 1).map_values(redist_disabling(afi)));
        }
    }
    assert(all.take(all.len() as int) =~= all);
}

/// The effect of the callback for the redistribution of a family: a delete
/// disables all sources, and nothing else has an effect.
pub open spec fn redistribute_staged(
    bgp: BgpView,
    args: Seq<ArgView>,
    op: ConfigOp,
    afi: RedistAfi,
) -> (BgpView, Option<()>) {
    match string_arg(args) {
        None => (bgp, None),
        Some(name) => (
            if op == ConfigOp::Delete {
                redist_cleared(bgp, name, afi)
            } else {
                bgp
            },
            Some(()),
        ),
    }
}

/// The effect of the callback for one source of redistribution.
pub open spec fn source_staged(
    bgp: BgpView,
    args: Seq<ArgView>,
    op: ConfigOp,
    afi: RedistAfi,
    source: BgpRedistSource,
) -> (BgpView, Option<()>) {
    match string_arg(args) {
        None => (bgp, None),
        Some(name) => (redist_staged(bgp, name, afi, source, op), Some(())),
    }
}

/// `router bgp vrf <NAME> afi-safi ipv4 redistribute`.
pub fn config_vrf_afi_ipv4_redistribute(
    bgp: &mut Bgp,
    mut args: Args,
    op: ConfigOp,
) -> (r: Option<()>)
    ensures
        (final(bgp)@, r) == redistribute_staged(old(bgp)@, args@, op, RedistAfi::Ipv4),
{
    let name = args.string()?;
    if op == ConfigOp::Delete {
        vrf_redist_clear(bgp, name, RedistAfi::Ipv4);
    }
    Some(())
}

/// `router bgp vrf <NAME> afi-safi ipv4 redistribute connected`.
pub fn config_vrf_afi_ipv4_redistribute_connected(
    bgp: &mut Bgp,
    mut args: Args,
    op: ConfigOp,
) -> (r: Option<()>)
    ensures
        (final(bgp)@, r) == source_staged(
            old(bgp)@,
            args@,
            op,
            RedistAfi::Ipv4,
            BgpRedistSource::Connected,
        ),
{
    let name = args.string()?;
    vrf_redist_set(bgp, name, RedistAfi::Ipv4, BgpRedistSource::Connected, op)
}

/// `router bgp vrf <NAME> afi-safi ipv4 redistribute static`.
pub fn config_vrf_afi_ipv4_redistribute_static(
    bgp: &mut Bgp,
    mut args: Args,
    op: ConfigOp,
) -> (r: Option<()>)
    ensures
        (final(bgp)@, r) == source_staged(
            old(bgp)@,
            args@,
            op,
            RedistAfi::Ipv4,
            BgpRedistSource::Static,
        ),
{
    let name = args.string()?;
    vrf_redist_set(bgp, name, RedistAfi::Ipv4, BgpRedistSource::Static, op)
}

/// `router bgp vrf <NAME> afi-safi ipv4 redistribute ospf`.
pub fn config_vrf_afi_ipv4_redistribute_ospf(
    bgp: &mut Bgp,
    mut args: Args,
    op: ConfigOp,
) -> (r: Option<()>)
    ensures
        (final(bgp)@, r) == source_staged(
            old(bgp)@,
            args@,
            op,
            RedistAfi::Ipv4,
            BgpRedistSource::Ospf,
        ),
{
    let name = args.string()?;
    vrf_redist_set(bgp, name, RedistAfi::Ipv4, BgpRedistSource::Ospf, op)
}

/// `router bgp vrf <NAME> afi-safi ipv4 redistribute isis`.
pub fn config_vrf_afi_ipv4_redistribute_isis(
    bgp: &mut Bgp,
    mut args: Args,
    op: ConfigOp,
) -> (r: Option<()>)
    ensures
        (final(bgp)@, r) == source_staged(
            old(bgp)@,
            args@,
            op,
            RedistAfi::Ipv4,
            BgpRedistSource::Isis,
        ),
{
    let name = args.string()?;
    vrf_redist_set(bgp, name, RedistAfi::Ipv4, BgpRedistSource::Isis, op)
}

/// `router bgp vrf <NAME> afi-safi ipv6 redistribute`.
pub fn config_vrf_afi_ipv6_redistribute(
    bgp: &mut Bgp,
    mut args: Args,
    op: ConfigOp,
) -> (r: Option<()>)
    ensures
        (final(bgp)@, r) == redistribute_staged(old(bgp)@, args@, op, RedistAfi::Ipv6),
{
    let name = args.string()?;
    if op == ConfigOp::Delete {
        vrf_redist_clear(bgp, name, RedistAfi::Ipv6);
    }
    Some(())
}

/// `router bgp vrf <NAME> afi-safi ipv6 redistribute connected`.
pub fn config_vrf_afi_ipv6_redistribute_connected(
    bgp: &mut Bgp,
    mut args: Args,
    op: ConfigOp,
) -> (r: Option<()>)
    ensures
        (final(bgp)@, r) == source_staged(
            old(bgp)@,
            args@,
            op,
            RedistAfi::Ipv6,
            BgpRedistSource::Connected,
        ),
{
    let name = args.string()?;
    vrf_redist_set(bgp, name, RedistAfi::Ipv6, BgpRedistSource::Connected, op)
}

/// `router bgp vrf <NAME> afi-safi ipv6 redistribute static`.
pub fn config_vrf_afi_ipv6_redistribute_static(
    bgp: &mut Bgp,
    mut args: Args,
    op: ConfigOp,
) -> (r: Option<()>)
    ensures
        (final(bgp)@, r) == source_staged(
            old(bgp)@,
            args@,
            op,
            RedistAfi::Ipv6,
            BgpRedistSource::Static,
        ),
{
    let name = args.string()?;
    vrf_redist_set(bgp, name, RedistAfi::Ipv6, BgpRedistSource::Static, op)
}

/// `router bgp vrf <NAME> afi-safi ipv6 redistribute ospf`.
pub fn config_vrf_afi_ipv6_redistribute_ospf(
    bgp: &mut Bgp,
    mut args: Args,
    op: ConfigOp,
) -> (r: Option<()>)
    ensures
        (final(bgp)@, r) == source_staged(
            old(bgp)@,
            args@,
            op,
            RedistAfi::Ipv6,
            BgpRedistSource::Ospf,
        ),
{
    let name = args.string()?;
    vrf_redist_set(bgp, name, RedistAfi::Ipv6, BgpRedistSource::Ospf, op)
}

/// `router bgp vrf <NAME> afi-safi ipv6 redistribute isis`.
pub fn config_vrf_afi_ipv6_redistribute_isis(
    bgp: &mut Bgp,
    mut args: Args,
    op: ConfigOp,
) -> (r: Option<()>)
    ensures
        (final(bgp)@, r) == source_staged(
            old(bgp)@,
            args@,
            op,
            RedistAfi::Ipv6,
            BgpRedistSource::Isis,
        ),
{
    let name = args.string()?;
    vrf_redist_set(bgp, name, RedistAfi::Ipv6, BgpRedistSource::Isis, op)
}

/// Deleting the IPv4 family of a running VRF withdraws every prefix that the
/// VRF originates in it, each once, before the family is gone.
pub proof fn ipv4_delete_withdraws_all(bgp: BgpView, args: Seq<ArgView>, prefix: Ipv4Net)
    requires
        string_arg(args) matches Some(name) && bgp.vrfs.contains_key(name)
            && bgp.registry.contains_key(name) && af_or_unset(
            bgp.vrfs[name].ipv4_unicast,
        ).networks.finite(),
    ensures
        ({
            let name = string_arg(args)->0;
            let networks = af_or_unset(bgp.vrfs[name].ipv4_unicast).networks;
            let after = ipv4_staged(bgp, args, ConfigOp::Delete).0;
            let sent = after.outbox.skip(bgp.outbox.len() as int);
            let withdrawal = VrfDeliveryView {
                inbox: bgp.registry[name],
                msg: BgpVrfMsgView::WithdrawNetwork { prefix },
            };
            &&& bgp.outbox.is_prefix_of(after.outbox)
            &&& sent.len() == networks.len()
            &&& sent.contains(withdrawal) == networks.contains(prefix)
            &&& after.vrfs[name].ipv4_unicast is None
        }),
{
    let name = string_arg(args)->0;
    let networks = af_or_unset(bgp.vrfs[name].ipv4_unicast).networks;
    let keys = in_order::<Ipv4Net>(networks);
    let after = ipv4_staged(bgp, args, ConfigOp::Delete).0;
    let sent = after.outbox.skip(bgp.outbox.len() as int);
    let withdrawal = VrfDeliveryView {
        inbox: bgp.registry[name],
        msg: BgpVrfMsgView::WithdrawNetwork { prefix },
    };
    in_order_enumerates::<Ipv4Net>(networks);
    increasing_no_duplicates::<Ipv4Net>(keys);
    keys.unique_seq_to_set();
    assert(keys.to_set().contains(prefix) == networks.contains(prefix));
    if keys.contains(prefix) {
        let i = choose|i: int| 0 <= i < keys.len() && keys[i] == prefix;
        assert(sent[i] == withdrawal);
    }
    if sent.contains(withdrawal) {
        let i = choose|i: int| 0 <= i < sent.len() && sent[i] == withdrawal;
        assert(keys[i] == prefix);
    }
}

/// Deleting the IPv6 family of a running VRF withdraws every prefix that the
/// VRF originates in it, each once, before the family is gone.
pub proof fn ipv6_delete_withdraws_all(bgp: BgpView, args: Seq<ArgView>, prefix: Ipv6Net)
    requires
        string_arg(args) matches Some(name) && bgp.vrfs.contains_key(name)
            && bgp.registry.contains_key(name) && af_or_unset(
            bgp.vrfs[name].ipv6_unicast,
        ).networks.finite(),
    ensures
        ({
            let name = string_arg(args)->0;
            let networks = af_or_unset(bgp.vrfs[name].ipv6_unicast).networks;
            let after = ipv6_staged(bgp, args, ConfigOp::Delete).0;
            let sent = after.outbox.skip(bgp.outbox.len() as int);
            let withdrawal = VrfDeliveryView {
                inbox: bgp.registry[name],
                msg: BgpVrfMsgView::WithdrawNetworkV6 { prefix },
            };
            &&& bgp.outbox.is_prefix_of(after.outbox)
            &&& sent.len() == networks.len()
            &&& sent.contains(withdrawal) == networks.contains(prefix)
            &&& after.vrfs[name].ipv6_unicast is None
        }),
{
    let name = string_arg(args)->0;
    let networks = af_or_unset(bgp.vrfs[name].ipv6_unicast).networks;
    let keys = in_order::<Ipv6Net>(networks);
    let after = ipv6_staged(bgp, args, ConfigOp::Delete).0;
    let sent = after.outbox.skip(bgp.outbox.len() as int);
    let withdrawal = VrfDeliveryView {
        inbox: bgp.registry[name],
        msg: BgpVrfMsgView::WithdrawNetworkV6 { prefix },
    };
    in_order_enumerates::<Ipv6Net>(networks);
    increasing_no_duplicates::<Ipv6Net>(keys);
    keys.unique_seq_to_set();
    assert(keys.to_set().contains(prefix) == networks.contains(prefix));
    if keys.contains(prefix) {
        let i = choose|i: int| 0 <= i < keys.len() && keys[i] == prefix;
        assert(sent[i] == withdrawal);
    }
    if sent.contains(withdrawal) {
        let i = choose|i: int| 0 <= i < sent.len() && sent[i] == withdrawal;
        assert(keys[i] == prefix);
    }
}

/// Deleting the redistribution of a family of a running VRF disables every
/// source that was enabled, and leaves none.
pub proof fn redistribute_delete_disables_all(
    bgp: BgpView,
    args: Seq<ArgView>,
    afi: RedistAfi,
    source: BgpRedistSource,
)
    requires
        string_arg(args) matches Some(name) && bgp.vrfs.contains_key(name)
            && bgp.registry.contains_key(name) && redist_sources(bgp.vrfs[name], afi).finite(),
    ensures
        ({
            let name = string_arg(args)->0;
            let sources = redist_sources(bgp.vrfs[name], afi);
            let after = redistribute_staged(bgp, args, ConfigOp::Delete, afi).0;
            let sent = after.outbox.skip(bgp.outbox.len() as int);
            let disabling = VrfDeliveryView {
                inbox: bgp.registry[name],
                msg: BgpVrfMsgView::RedistDisable { afi, source },
            };
            &&& bgp.outbox.is_prefix_of(after.outbox)
            &&& sent.len() == sources.len()
            &&& sent.contains(disabling) == sources.contains(source)
            &&& redist_sources(after.vrfs[name], afi) == Set::<BgpRedistSource>::empty()
        }),
{
    let name = string_arg(args)->0;
    let sources = redist_sources(bgp.vrfs[name], afi);
    let keys = in_order::<BgpRedistSource>(sources);
    let after = redistribute_staged(bgp, args, ConfigOp::Delete, afi).0;
    let sent = after.outbox.skip(bgp.outbox.len() as int);
    let disabling = VrfDeliveryView {
        inbox: bgp.registry[name],
        msg: BgpVrfMsgView::RedistDisable { afi, source },
    };
    in_order_enumerates::<BgpRedistSource>(sources);
    increasing_no_duplicates::<BgpRedistSource>(keys);
    keys.unique_seq_to_set();
    assert(keys.to_set().contains(source) == sources.contains(source));
    if keys.contains(source) {
        let i = choose|i: int| 0 <= i < keys.len() && keys[i] == source;
        assert(sent[i] == disabling);
    }
    if sent.contains(disabling) {
        let i = choose|i: int| 0 <= i < sent.len() && sent[i] == disabling;
        assert(keys[i] == source);
    }
}

/// A prefix that is added and deleted again leaves the family as it was without
/// the prefix, and a source does so too.
pub proof fn family_changes_are_undone<M>(
    af: Option<BgpVrfAfConfigView<M>>,
    prefix: M,
    source: BgpRedistSource,
)
    ensures
        with_network(Some(with_network(af, prefix, true)), prefix, false) == with_network(
            af,
            prefix,
            false,
        ),
        with_source(Some(with_source(af, source, true)), source, false) == with_source(
            af,
            source,
            false,
        ),
        !af_or_unset(af).networks.contains(prefix) ==> with_network(af, prefix, false)
            == af_or_unset(af),
        !af_or_unset(af).redistribute.contains(source) ==> with_source(af, source, false)
            == af_or_unset(af),
{
    let plain = af_or_unset(af);
    assert(plain.networks.insert(prefix).remove(prefix) =~= plain.networks.remove(prefix));
    assert(plain.redistribute.insert(source).remove(source) =~= plain.redistribute.remove(source));
    if !plain.networks.contains(prefix) {
        assert(plain.networks.remove(prefix) =~= plain.networks);
    }
    if !plain.redistribute.contains(source) {
        assert(plain.redistribute.remove(source) =~= plain.redistribute);
    }
}

/// A VRF that is not running is told nothing, whatever is staged for it.
pub proof fn idle_vrf_is_told_nothing(
    bgp: BgpView,
    args: Seq<ArgView>,
    op: ConfigOp,
    afi: RedistAfi,
    source: BgpRedistSource,
)
    requires
        string_arg(args) matches Some(name) ==> !bgp.registry.contains_key(name),
    ensures
        ipv4_staged(bgp, args, op).0.outbox == bgp.outbox,
        ipv6_staged(bgp, args, op).0.outbox == bgp.outbox,
        ipv4_network_staged(bgp, args, op).0.outbox == bgp.outbox,
        ipv6_network_staged(bgp, args, op).0.outbox == bgp.outbox,
        redistribute_staged(bgp, args, op, afi).0.outbox == bgp.outbox,
        source_staged(bgp, args, op, afi, source).0.outbox == bgp.outbox,
{
}

} // verus!
