//! What the callbacks for the families of a VRF do, set by set and message by
//! message.

use vstd::prelude::*;
use crate::args::{rest, string_arg, v4net_arg, v6net_arg, ArgView, ConfigOp};
use crate::bgp::leaf_laws::telling_a_vrf;
use crate::bgp::networks::{ipv4_network_staged, ipv4_staged, ipv6_network_staged, ipv6_staged,
    redistribute_staged, source_staged, ipv4_withdrawal, ipv6_withdrawal, ipv4_withdrawals,
    ipv6_withdrawals, redist_sources, redist_disabling};
use crate::bgp::publication_laws::vrf_or_new;
use crate::bgp::state::{BgpView, BgpVrfMsgView, VrfDeliveryView};
use crate::bgp::types::{BgpRedistSource, BgpVrfAfConfigView, BgpVrfConfigView, RedistAfi};
use crate::net::{Ipv4Net, Ipv6Net};
use crate::order::{in_order, in_order_is};

verus! {

/// Whether an instance has the same VRFs as another one, but for the
/// configuration of one of them.
pub open spec fn other_vrfs_stay(after: BgpView, before: BgpView, name: Seq<char>) -> bool {
    &&& after.pending == before.pending
    &&& after.registry == before.registry
    &&& forall|other: Seq<char>|
        other != name ==> #[trigger] after.vrfs.contains_key(other) == before.vrfs.contains_key(
            other,
        ) && after.vrfs[other] == before.vrfs[other]
}

/// Whether just one message was queued, and that for a VRF which is running.
pub open spec fn told_once(
    after: BgpView,
    before: BgpView,
    name: Seq<char>,
    msg: BgpVrfMsgView,
) -> bool {
    if before.registry.contains_key(name) {
        after.outbox == before.outbox.push(
            VrfDeliveryView { inbox: before.registry[name], msg },
        )
    } else {
        after.outbox == before.outbox
    }
}

/// Whether a row of messages was queued for a VRF which is running, one for each
/// of a row of items.
pub open spec fn told_each<A>(
    after: BgpView,
    before: BgpView,
    name: Seq<char>,
    items: Seq<A>,
    msg: spec_fn(A) -> BgpVrfMsgView,
) -> bool {
    let n = before.outbox.len();
    &&& before.outbox.is_prefix_of(after.outbox)
    &&& if before.registry.contains_key(name) {
        &&& after.outbox.len() == n + items.len()
        &&& forall|i: int|
            0 <= i < items.len() ==> #[trigger] after.outbox[n + i] == (VrfDeliveryView {
                inbox: before.registry[name],
                msg: msg(items[i]),
            })
    } else {
        after.outbox.len() == n
    }
}

/// The prefixes that a family originates, none where the family is not there.
pub open spec fn networks_of<M>(af: Option<BgpVrfAfConfigView<M>>) -> Set<M> {
    if af is Some {
        af->0.networks
    } else {
        Set::empty()
    }
}

/// The sources that a family redistributes from, none where it is not there.
pub open spec fn sources_of<M>(af: Option<BgpVrfAfConfigView<M>>) -> Set<BgpRedistSource> {
    if af is Some {
        af->0.redistribute
    } else {
        Set::empty()
    }
}

/// What the callback for the IPv4 family does: an assignment adds the family
/// without a prefix or a source where it is not there; a delete takes it away,
/// after it has queued a withdrawal of each of its prefixes, in their order, for
/// a running VRF. What else is called does nothing.
pub proof fn ipv4_callback(bgp: BgpView, args: Seq<ArgView>, op: ConfigOp)
    ensures
        ({
            let (after, r) = ipv4_staged(bgp, args, op);
            let name = string_arg(args)->0;
            let cfg = vrf_or_new(bgp.vrfs, name);
            let new_cfg = after.vrfs[name];
            if string_arg(args) is None {
                after == bgp && r is None
            } else if op == ConfigOp::Assign {
                &&& r is Some
                &&& other_vrfs_stay(after, bgp, name)
                &&& after.outbox == bgp.outbox
                &&& after.vrfs.contains_key(name)
                &&& new_cfg == BgpVrfConfigView { ipv4_unicast: new_cfg.ipv4_unicast, ..cfg }
                &&& new_cfg.ipv4_unicast is Some
                &&& new_cfg.ipv4_unicast->0.networks == networks_of(cfg.ipv4_unicast)
                &&& new_cfg.ipv4_unicast->0.redistribute == sources_of(cfg.ipv4_unicast)
            } else if op == ConfigOp::Delete {
                &&& r is Some
                &&& other_vrfs_stay(after, bgp, name)
                &&& after.vrfs.contains_key(name) == bgp.vrfs.contains_key(name)
                &&& bgp.vrfs.contains_key(name) ==> new_cfg == BgpVrfConfigView {
                    ipv4_unicast: None,
                    ..cfg
                }
                &&& told_each(
                    after,
                    bgp,
                    name,
                    in_order::<Ipv4Net>(networks_of(cfg.ipv4_unicast)),
                    |prefix: Ipv4Net| BgpVrfMsgView::WithdrawNetwork { prefix },
                )
            } else {
                after == bgp && r is Some
            }
        }),
{
    let name = string_arg(args)->0;
    let cfg = vrf_or_new(bgp.vrfs, name);
    in_order_is::<Ipv4Net>(Seq::empty());
    assert(Seq::<Ipv4Net>::empty().to_set() =~= Set::empty());
    if op == ConfigOp::Delete && string_arg(args) is Some {
        let rows = in_order::<Ipv4Net>(networks_of(cfg.ipv4_unicast));
        telling_a_vrf(bgp, name, ipv4_withdrawals(bgp, name));
        assert(ipv4_withdrawals(bgp, name) =~= rows.map_values(ipv4_withdrawal()));
    }
}

/// What the callback for an IPv4 prefix does: an assignment makes the VRF
/// originate just this prefix more, and a delete just this prefix less; a
/// running VRF is told so once. Nothing else of the VRF is touched. A delete in
/// a VRF that is not there fails.
pub proof fn ipv4_network_callback(bgp: BgpView, args: Seq<ArgView>, op: ConfigOp)
    ensures
        ({
            let (after, r) = ipv4_network_staged(bgp, args, op);
            let name = string_arg(args)->0;
            let prefix = v4net_arg(rest(args))->0;
            let cfg = vrf_or_new(bgp.vrfs, name);
            let new_cfg = after.vrfs[name];
            if string_arg(args) is None || v4net_arg(rest(args)) is None || (op
                == ConfigOp::Delete && !bgp.vrfs.contains_key(name)) {
                after == bgp && r is None
            } else if op == ConfigOp::Assign || op == ConfigOp::Delete {
                &&& r is Some
                &&& other_vrfs_stay(after, bgp, name)
                &&& after.vrfs.contains_key(name)
                &&& new_cfg == BgpVrfConfigView { ipv4_unicast: new_cfg.ipv4_unicast, ..cfg }
                &&& new_cfg.ipv4_unicast is Some
                &&& forall|other: Ipv4Net|
                    new_cfg.ipv4_unicast->0.networks.contains(other) == (if other == prefix {
                        op == ConfigOp::Assign
                    } else {
                        #[trigger] networks_of(cfg.ipv4_unicast).contains(other)
                    })
                &&& new_cfg.ipv4_unicast->0.redistribute == sources_of(cfg.ipv4_unicast)
                &&& told_once(
                    after,
                    bgp,
                    name,
                    if op == ConfigOp::Assign {
                        BgpVrfMsgView::OriginateNetwork { prefix }
                    } else {
                        BgpVrfMsgView::WithdrawNetwork { prefix }
                    },
                )
            } else {
                after == bgp && r is Some
            }
        }),
{
    let (after, r) = ipv4_network_staged(bgp, args, op);
    if after.outbox.len() > bgp.outbox.len() {
        assert(after.outbox =~= bgp.outbox.push(after.outbox.last()));
    }
}

/// What the callback for the IPv6 family does: an assignment adds the family
/// without a prefix or a source where it is not there; a delete takes it away,
/// after it has queued a withdrawal of each of its prefixes, in their order, for
/// a running VRF. What else is called does nothing.
pub proof fn ipv6_callback(bgp: BgpView, args: Seq<ArgView>, op: ConfigOp)
    ensures
        ({
            let (after, r) = ipv6_staged(bgp, args, op);
            let name = string_arg(args)->0;
            let cfg = vrf_or_new(bgp.vrfs, name);
            let new_cfg = after.vrfs[name];
            if string_arg(args) is None {
                after == bgp && r is None
            } else if op == ConfigOp::Assign {
                &&& r is Some
                &&& other_vrfs_stay(after, bgp, name)
                &&& after.outbox == bgp.outbox
                &&& after.vrfs.contains_key(name)
                &&& new_cfg == BgpVrfConfigView { ipv6_unicast: new_cfg.ipv6_unicast, ..cfg }
                &&& new_cfg.ipv6_unicast is Some
                &&& new_cfg.ipv6_unicast->0.networks == networks_of(cfg.ipv6_unicast)
                &&& new_cfg.ipv6_unicast->0.redistribute == sources_of(cfg.ipv6_unicast)
            } else if op == ConfigOp::Delete {
                &&& r is Some
                &&& other_vrfs_stay(after, bgp, name)
                &&& after.vrfs.contains_key(name) == bgp.vrfs.contains_key(name)
                &&& bgp.vrfs.contains_key(name) ==> new_cfg == BgpVrfConfigView {
                    ipv6_unicast: None,
                    ..cfg
                }
                &&& told_each(
                    after,
                    bgp,
                    name,
                    in_order::<Ipv6Net>(networks_of(cfg.ipv6_unicast)),
                    |prefix: Ipv6Net| BgpVrfMsgView::WithdrawNetworkV6 { prefix },
                )
            } else {
                after == bgp && r is Some
            }
        }),
{
    let name = string_arg(args)->0;
    let cfg = vrf_or_new(bgp.vrfs, name);
    in_order_is::<Ipv6Net>(Seq::empty());
    assert(Seq::<Ipv6Net>::empty().to_set() =~= Set::empty());
    if op == ConfigOp::Delete && string_arg(args) is Some {
        let rows = in_order::<Ipv6Net>(networks_of(cfg.ipv6_unicast));
        telling_a_vrf(bgp, name, ipv6_withdrawals(bgp, name));
        assert(ipv6_withdrawals(bgp, name) =~= rows.map_values(ipv6_withdrawal()));
    }
}

/// What the callback for an IPv6 prefix does: an assignment makes the VRF
/// originate just this prefix more, and a delete just this prefix less; a
/// running VRF is told so once. Nothing else of the VRF is touched. A delete in
/// a VRF that is not there fails.
pub proof fn ipv6_network_callback(bgp: BgpView, args: Seq<ArgView>, op: ConfigOp)
    ensures
        ({
            let (after, r) = ipv6_network_staged(bgp, args, op);
            let name = string_arg(args)->0;
            let prefix = v6net_arg(rest(args))->0;
            let cfg = vrf_or_new(bgp.vrfs, name);
            let new_cfg = after.vrfs[name];
            if string_arg(args) is None || v6net_arg(rest(args)) is None || (op
                == ConfigOp::Delete && !bgp.vrfs.contains_key(name)) {
                after == bgp && r is None
            } else if op == ConfigOp::Assign || op == ConfigOp::Delete {
                &&& r is Some
                &&& other_vrfs_stay(after, bgp, name)
                &&& after.vrfs.contains_key(name)
                &&& new_cfg == BgpVrfConfigView { ipv6_unicast: new_cfg.ipv6_unicast, ..cfg }
                &&& new_cfg.ipv6_unicast is Some
                &&& forall|other: Ipv6Net|
                    new_cfg.ipv6_unicast->0.networks.contains(other) == (if other == prefix {
                        op == ConfigOp::Assign
                    } else {
                        #[trigger] networks_of(cfg.ipv6_unicast).contains(other)
                    })
                &&& new_cfg.ipv6_unicast->0.redistribute == sources_of(cfg.ipv6_unicast)
                &&& told_once(
                    after,
                    bgp,
                    name,
                    if op == ConfigOp::Assign {
                        BgpVrfMsgView::OriginateNetworkV6 { prefix }
                    } else {
                        BgpVrfMsgView::WithdrawNetworkV6 { prefix }
                    },
                )
            } else {
                after == bgp && r is Some
            }
        }),
{
    let (after, r) = ipv6_network_staged(bgp, args, op);
    if after.outbox.len() > bgp.outbox.len() {
        assert(after.outbox =~= bgp.outbox.push(after.outbox.last()));
    }
}

/// The sources of a family of a VRF.
pub open spec fn cfg_sources(cfg: BgpVrfConfigView, afi: RedistAfi) -> Set<BgpRedistSource> {
    if afi == RedistAfi::Ipv4 {
        sources_of(cfg.ipv4_unicast)
    } else {
        sources_of(cfg.ipv6_unicast)
    }
}

/// Whether two configurations differ in the sources of one family at most, and
/// in that the family may be there with no prefix where it was not.
pub open spec fn only_sources_differ(
    after: BgpVrfConfigView,
    before: BgpVrfConfigView,
    afi: RedistAfi,
) -> bool {
    if afi == RedistAfi::Ipv4 {
        &&& after == BgpVrfConfigView { ipv4_unicast: after.ipv4_unicast, ..before }
        &&& networks_of(after.ipv4_unicast) == networks_of(before.ipv4_unicast)
    } else {
        &&& after == BgpVrfConfigView { ipv6_unicast: after.ipv6_unicast, ..before }
        &&& networks_of(after.ipv6_unicast) == networks_of(before.ipv6_unicast)
    }
}

/// What the callback for a source of redistribution does: an assignment makes
/// the family redistribute from just this source more, and a delete from just
/// this source less; a running VRF is told so once. A delete in a VRF that is
/// not there does nothing.
pub proof fn source_callback(
    bgp: BgpView,
    args: Seq<ArgView>,
    op: ConfigOp,
    afi: RedistAfi,
    source: BgpRedistSource,
)
    ensures
        ({
            let (after, r) = source_staged(bgp, args, op, afi, source);
            let name = string_arg(args)->0;
            let cfg = vrf_or_new(bgp.vrfs, name);
            let new_cfg = after.vrfs[name];
            if string_arg(args) is None {
                after == bgp && r is None
            } else if op == ConfigOp::Assign || (op == ConfigOp::Delete && bgp.vrfs.contains_key(
                name,
            )) {
                &&& r is Some
                &&& other_vrfs_stay(after, bgp, name)
                &&& after.vrfs.contains_key(name)
                &&& only_sources_differ(new_cfg, cfg, afi)
                &&& afi == RedistAfi::Ipv4 ==> new_cfg.ipv4_unicast is Some
                &&& afi == RedistAfi::Ipv6 ==> new_cfg.ipv6_unicast is Some
                &&& forall|other: BgpRedistSource| #[trigger]
                    cfg_sources(new_cfg, afi).contains(other) == (if other == source {
                        op == ConfigOp::Assign
                    } else {
                        cfg_sources(cfg, afi).contains(other)
                    })
                &&& told_once(
                    after,
                    bgp,
                    name,
                    if op == ConfigOp::Assign {
                        BgpVrfMsgView::RedistEnable { afi, source }
                    } else {
                        BgpVrfMsgView::RedistDisable { afi, source }
                    },
                )
            } else {
                after == bgp && r is Some
            }
        }),
{
    let (after, r) = source_staged(bgp, args, op, afi, source);
    if after.outbox.len() > bgp.outbox.len() {
        assert(after.outbox =~= bgp.outbox.push(after.outbox.last()));
    }
}

/// What the callback for the redistribution of a family does: a delete leaves the
/// family without sources, where it is there, and queues for a running VRF that
/// each of them is disabled, in their order. What else is called does nothing.
pub proof fn redistribute_callback(
    bgp: BgpView,
    args: Seq<ArgView>,
    op: ConfigOp,
    afi: RedistAfi,
)
    ensures
        ({
            let (after, r) = redistribute_staged(bgp, args, op, afi);
            let name = string_arg(args)->0;
            let cfg = bgp.vrfs[name];
            let new_cfg = after.vrfs[name];
            if string_arg(args) is None {
                after == bgp && r is None
            } else if op == ConfigOp::Delete && bgp.vrfs.contains_key(name) {
                &&& r is Some
                &&& other_vrfs_stay(after, bgp, name)
                &&& after.vrfs.contains_key(name)
                &&& only_sources_differ(new_cfg, cfg, afi)
                &&& new_cfg.ipv4_unicast is Some == cfg.ipv4_unicast is Some
                &&& new_cfg.ipv6_unicast is Some == cfg.ipv6_unicast is Some
                &&& forall|source: BgpRedistSource| !#[trigger]
                    cfg_sources(new_cfg, afi).contains(source)
                &&& told_each(
                    after,
                    bgp,
                    name,
                    in_order::<BgpRedistSource>(cfg_sources(cfg, afi)),
                    |source: BgpRedistSource| BgpVrfMsgView::RedistDisable { afi, source },
                )
            } else {
                after == bgp && r is Some
            }
        }),
{
    let name = string_arg(args)->0;
    if op == ConfigOp::Delete && string_arg(args) is Some && bgp.vrfs.contains_key(name) {
        let cfg = bgp.vrfs[name];
        assert(redist_sources(cfg, afi) == cfg_sources(cfg, afi));
        let rows = in_order::<BgpRedistSource>(cfg_sources(cfg, afi));
        let msgs = rows.map_values(redist_disabling(afi));
        telling_a_vrf(bgp, name, msgs);
        let after = redistribute_staged(bgp, args, op, afi).0;
        assert(after.outbox == bgp.tell(name, msgs).outbox);
    }
}

} // verus!
