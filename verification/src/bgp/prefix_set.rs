//! The binding of a neighbor's families to prefix-sets, and its publication at
//! the end of a configuration transaction.

use vstd::prelude::*;
use crate::args::{addr_arg, afi_safi_arg, rest, string_arg, ArgView, Args, ConfigOp};
use crate::bgp::staging::vrf_entry;
use crate::bgp::state::{BindingKey, Bgp, BgpView, BgpVrfMsg, BgpVrfMsgView,
    PendingVrfPrefixSetChange, PendingVrfPrefixSetChangeView, VrfDelivery, VrfDeliveryView,
    VrfPrefixSetChange, VrfPrefixSetChangeView};
use crate::bgp::types::{BgpVrfConfig, BgpVrfConfigView, BgpVrfNeighborConfig,
    BgpVrfNeighborConfigView, BgpVrfPrefixSetConfig, BgpVrfPrefixSetConfigView, InOut};
use crate::net::{AfiSafi, IpAddr};
use crate::order::in_order;
use crate::sorted_map::SortedMap;
use crate::value::Value;

verus! {

/// The prefix-set that a VRF's configuration binds, if any.
pub open spec fn cfg_binding(
    cfg: BgpVrfConfigView,
    address: IpAddr,
    afi_safi: AfiSafi,
    direction: InOut,
) -> Option<Seq<char>> {
    if cfg.neighbors.contains_key(address) && cfg.neighbors[address].prefix_set.contains_key(
        afi_safi,
    ) {
        cfg.neighbors[address].prefix_set[afi_safi].name(direction)
    } else {
        None
    }
}

/// The prefix-set that is bound under a key, if any.
pub open spec fn binding(vrfs: Map<Seq<char>, BgpVrfConfigView>, key: BindingKey) -> Option<
    Seq<char>,
> {
    if vrfs.contains_key(key.vrf) {
        cfg_binding(vrfs[key.vrf], key.address, key.afi_safi, key.direction)
    } else {
        None
    }
}

/// The neighbor's entry, an empty one where there is none.
pub open spec fn neighbor_or_unset(
    cfg: BgpVrfConfigView,
    address: IpAddr,
) -> BgpVrfNeighborConfigView {
    if cfg.neighbors.contains_key(address) {
        cfg.neighbors[address]
    } else {
        BgpVrfNeighborConfigView::unset()
    }
}

/// The pair of bindings of a family, an empty one where there is none.
pub open spec fn pair_or_unbound(
    neighbor: BgpVrfNeighborConfigView,
    afi_safi: AfiSafi,
) -> BgpVrfPrefixSetConfigView {
    if neighbor.prefix_set.contains_key(afi_safi) {
        neighbor.prefix_set[afi_safi]
    } else {
        BgpVrfPrefixSetConfigView::unbound()
    }
}

/// The configuration with one binding exchanged; the entries on the way to it
/// are there afterwards.
pub open spec fn with_binding(
    cfg: BgpVrfConfigView,
    address: IpAddr,
    afi_safi: AfiSafi,
    direction: InOut,
    name: Option<Seq<char>>,
) -> BgpVrfConfigView {
    let neighbor = neighbor_or_unset(cfg, address);
    let pair = pair_or_unbound(neighbor, afi_safi);
    cfg.with_neighbor(
        address,
        BgpVrfNeighborConfigView {
            prefix_set: neighbor.prefix_set.insert(afi_safi, pair.with_name(direction, name)),
            ..neighbor
        },
    )
}

/// Whether an operation reaches a binding at all: an assignment always does, a
/// delete only where the entries on the way exist.
pub open spec fn binding_reached(
    cfg: BgpVrfConfigView,
    address: IpAddr,
    afi_safi: AfiSafi,
    op: ConfigOp,
) -> bool {
    match op {
        ConfigOp::Assign => true,
        ConfigOp::Delete => cfg.neighbors.contains_key(address)
            && cfg.neighbors[address].prefix_set.contains_key(afi_safi),
        _ => false,
    }
}

/// Exchange one binding and hand back the name it had, if that is another one.
/// A delete goes only where entries exist: it trails the removal of the
/// neighbor, and must not bring the neighbor or its family back.
pub fn update_neighbor_prefix_set(
    cfg: &mut BgpVrfConfig,
    address: IpAddr,
    afi_safi: AfiSafi,
    direction: InOut,
    name: Option<String>,
    op: ConfigOp,
) -> (r: Option<Option<String>>)
    ensures
        final(cfg)@ == (if binding_reached(old(cfg)@, address, afi_safi, op) {
            with_binding(old(cfg)@, address, afi_safi, direction, name.deep_view())
        } else {
            old(cfg)@
        }),
        r.deep_view() == (if binding_reached(old(cfg)@, address, afi_safi, op) && cfg_binding(
            old(cfg)@,
            address,
            afi_safi,
            direction,
        ) != name.deep_view() {
            Some(cfg_binding(old(cfg)@, address, afi_safi, direction))
        } else {
            None
        }),
{
    proof {
        let neighbors = cfg@.neighbors;
        assert(neighbors.contains_key(address) ==> neighbors.insert(address, neighbors[address])
            =~= neighbors);
    }
    let prefix_set = match op {
        ConfigOp::Assign => cfg.neighbors.get_or_insert(
            address,
            BgpVrfNeighborConfig::default(),
        ).prefix_set.get_or_insert(afi_safi, BgpVrfPrefixSetConfig::default()),
        ConfigOp::Delete => cfg.neighbors.get_mut(&address)?.prefix_set.get_mut(&afi_safi)?,
        _ => return None,
    };
    let slot = prefix_set.get_mut(direction);
    if slot.same(&name) {
        None
    } else {
        let before = slot.duplicate();
        *slot = name;
        Some(before)
    }
}

/// Whether a pending change for the key is among those recorded.
pub open spec fn touched(pending: Seq<PendingVrfPrefixSetChangeView>, key: BindingKey) -> bool {
    exists|i: int| 0 <= i < pending.len() && #[trigger] pending[i].key == key
}

/// The pending changes after one more was recorded: the first record for a key
/// is the one that stays.
pub open spec fn recorded(
    pending: Seq<PendingVrfPrefixSetChangeView>,
    change: PendingVrfPrefixSetChangeView,
) -> Seq<PendingVrfPrefixSetChangeView> {
    if touched(pending, change.key) {
        pending
    } else {
        pending.push(change)
    }
}

/// Record a pending change, unless its key has been recorded before.
pub fn record_pending_prefix_set_change(
    pending: &mut Vec<PendingVrfPrefixSetChange>,
    change: PendingVrfPrefixSetChange,
)
    ensures
        final(pending).deep_view() == recorded(old(pending).deep_view(), change@),
{
    let ghost before = pending.deep_view();
    let mut i: usize = 0;
    while i < pending.len()
        invariant
            i <= pending@.len(),
            before == pending.deep_view(),
            pending == old(pending),
            forall|j: int| 0 <= j < i ==> #[trigger] before[j].key != change@.key,
        decreases pending@.len() - i,
    {
        let existing = &pending[i];
        assert(existing@ == before[i as int]);
        if existing.vrf == change.vrf && existing.address == change.address && existing.afi_safi
            == change.afi_safi && existing.direction == change.direction {
            assert(before[i as int].key == change@.key);
            return ;
        }
        i += 1;
    }
    pending.push(change);
    assert(pending.deep_view() =~= before.push(change@));
}

/// Whether a pending change has come to something: the name bound now is not
/// the one that was bound before.
pub open spec fn is_net_change(vrfs: Map<Seq<char>, BgpVrfConfigView>) -> spec_fn(
    PendingVrfPrefixSetChangeView,
) -> bool {
    |change: PendingVrfPrefixSetChangeView| binding(vrfs, change.key) != change.before
}

/// A pending change with the name that is bound now.
pub open spec fn settled(vrfs: Map<Seq<char>, BgpVrfConfigView>) -> spec_fn(
    PendingVrfPrefixSetChangeView,
) -> VrfPrefixSetChangeView {
    |change: PendingVrfPrefixSetChangeView|
        VrfPrefixSetChangeView { key: change.key, name: binding(vrfs, change.key) }
}

/// The changes to be published for the pending ones, in the order in which they
/// were first touched.
pub open spec fn net_changes(
    vrfs: Map<Seq<char>, BgpVrfConfigView>,
    pending: Seq<PendingVrfPrefixSetChangeView>,
) -> Seq<VrfPrefixSetChangeView> {
    pending.filter(is_net_change(vrfs)).map_values(settled(vrfs))
}

/// The name bound under a key of the configuration.
fn current_binding(
    vrfs: &SortedMap<String, BgpVrfConfig>,
    change: &PendingVrfPrefixSetChange,
) -> (r: Option<String>)
    ensures
        r.deep_view() == binding(vrfs@, change@.key),
{
    let cfg = vrfs.get(&change.vrf)?;
    let neighbor = cfg.neighbors.get(&change.address)?;
    let prefix_set = neighbor.prefix_set.get(&change.afi_safi)?;
    prefix_set.get(change.direction).duplicate()
}

/// Take the pending changes and hand back those that have come to something.
pub fn take_prefix_set_commit_changes(
    vrfs: &SortedMap<String, BgpVrfConfig>,
    pending: &mut Vec<PendingVrfPrefixSetChange>,
) -> (r: Vec<VrfPrefixSetChange>)
    ensures
        r.deep_view() == net_changes(vrfs@, old(pending).deep_view()),
        final(pending).deep_view() == Seq::<PendingVrfPrefixSetChangeView>::empty(),
{
    let ghost all = pending.deep_view();
    let mut taken: Vec<PendingVrfPrefixSetChange> = Vec::new();
    std::mem::swap(&mut taken, pending);
    assert(pending.deep_view() =~= Seq::<PendingVrfPrefixSetChangeView>::empty());
    let mut changes: Vec<VrfPrefixSetChange> = Vec::new();
    proof {
        reveal(Seq::filter);
        assert(changes.deep_view() =~= net_changes(vrfs@, all.take(0)));
    }
    for change in it: taken
        invariant
            taken.deep_view() == all,
            it.seq() == taken@,
            changes.deep_view() == net_changes(vrfs@, all.take(it.index())),
    {
        let ghost i = it.index();
        proof {
            reveal(Seq::filter);
            assert(all.take(i + 1).drop_last() =~= all.take(i));
            assert(all.take(i + 1).last() == change@);
        }
        let ghost before = changes.deep_view();
        let name = current_binding(vrfs, &change);
        if !name.same(&change.before) {
            changes.push(
                VrfPrefixSetChange {
                    vrf: change.vrf,
                    address: change.address,
                    afi_safi: change.afi_safi,
                    direction: change.direction,
                    name,
                },
            );
            assert(changes.deep_view() =~= before.push(settled(vrfs@)(change@)));
        }
        assert(changes.deep_view() =~= net_changes(vrfs@, all.take(i + 1)));
    }
    assert(all.take(all.len() as int) =~= all);
    changes
}

/// Whether a change concerns a VRF that is running.
pub open spec fn is_live(registry: Map<Seq<char>, u64>) -> spec_fn(VrfPrefixSetChangeView) -> bool {
    |change: VrfPrefixSetChangeView| registry.contains_key(change.key.vrf)
}

/// The message that publishes a change.
pub open spec fn publication(registry: Map<Seq<char>, u64>, generation: u64) -> spec_fn(
    VrfPrefixSetChangeView,
) -> VrfDeliveryView {
    |change: VrfPrefixSetChangeView|
        VrfDeliveryView {
            inbox: registry[change.key.vrf],
            msg: BgpVrfMsgView::PrefixSetConfig {
                address: change.key.address,
                afi_safi: change.key.afi_safi,
                direction: change.key.direction,
                name: change.name,
                generation,
            },
        }
}

/// The message that closes a commit for a VRF.
pub open spec fn closing(registry: Map<Seq<char>, u64>, generation: u64) -> spec_fn(
    Seq<char>,
) -> VrfDeliveryView {
    |name: Seq<char>|
        VrfDeliveryView {
            inbox: registry[name],
            msg: BgpVrfMsgView::PrefixSetCommitEnd { generation },
        }
}

/// The messages for a row of changes, in their order.
pub open spec fn publications(
    registry: Map<Seq<char>, u64>,
    changes: Seq<VrfPrefixSetChangeView>,
    generation: u64,
) -> Seq<VrfDeliveryView> {
    changes.filter(is_live(registry)).map_values(publication(registry, generation))
}

/// The closing messages of all running VRFs, in the order of their names.
pub open spec fn closings(registry: Map<Seq<char>, u64>, generation: u64) -> Seq<VrfDeliveryView> {
    in_order::<String>(registry.dom()).map_values(closing(registry, generation))
}

/// The instance after a commit.
pub open spec fn committed(bgp: BgpView, generation: u64) -> BgpView {
    BgpView {
        pending: Seq::empty(),
        outbox: bgp.outbox + publications(
            bgp.registry,
            net_changes(bgp.vrfs, bgp.pending),
            generation,
        ) + closings(bgp.registry, generation),
        ..bgp
    }
}

/// Publish the bindings that a transaction has changed, each once and with its
/// final name, and then tell every running VRF that the transaction is over.
pub fn apply_prefix_set_commit_changes(bgp: &mut Bgp, generation: u64)
    ensures
        final(bgp)@ == committed(old(bgp)@, generation),
{
    let ghost before = bgp@;
    let changes = take_prefix_set_commit_changes(&bgp.vrfs, &mut bgp.vrf_prefix_set_pending);
    let ghost all = changes.deep_view();
    proof {
        reveal(Seq::filter);
        assert(publications(before.registry, all.take(0), generation) =~= Seq::empty());
    }
    for change in it: changes
        invariant
            changes.deep_view() == all,
            it.seq() == changes@,
            bgp@ == (BgpView {
                pending: Seq::empty(),
                outbox: before.outbox + publications(
                    before.registry,
                    all.take(it.index()),
                    generation,
                ),
                ..before
            }),
    {
        let ghost i = it.index();
        let ghost sent = bgp@.outbox;
        proof {
            reveal(Seq::filter);
            assert(all.take(i + 1).drop_last() =~= all.take(i));
            assert(all.take(i + 1).last() == change@);
        }
        match bgp.vrf_registry.get(&change.vrf) {
            Some(handle) => {
                let inbox = handle.inbox;
                bgp.outbox.push(
                    VrfDelivery {
                        inbox,
                        msg: BgpVrfMsg::PrefixSetConfig {
                            address: change.address,
                            afi_safi: change.afi_safi,
                            direction: change.direction,
                            name: change.name,
                            generation,
                        },
                    },
                );
                assert(bgp@.outbox =~= sent.push(publication(before.registry, generation)(change@)));
            },
            None => {},
        }
        assert(publications(before.registry, all.take(i + 1), generation) =~= if is_live(
            before.registry,
        )(change@) {
            publications(before.registry, all.take(i), generation).push(
                publication(before.registry, generation)(change@),
            )
        } else {
            publications(before.registry, all.take(i), generation)
        });
        assert(bgp@.outbox =~= before.outbox + publications(
            before.registry,
            all.take(i + 1),
            generation,
        ));
    }
    assert(all.take(all.len() as int) =~= all);
    let ghost published = bgp@.outbox;
    let ghost names = in_order::<String>(before.registry.dom());
    let mut i: usize = 0;
    let n = bgp.vrf_registry.len();
    while i < n
        invariant
            i <= n,
            n == names.len(),
            names == in_order::<String>(before.registry.dom()),
            bgp@ == (BgpView {
                pending: Seq::empty(),
                outbox: published + names.take(i as int).map_values(
                    closing(before.registry, generation),
                ),
                ..before
            }),
        decreases n - i,
    {
        let ghost sent = bgp@.outbox;
        let inbox = bgp.vrf_registry.value_at(i).inbox;
        bgp.outbox.push(
            VrfDelivery { inbox, msg: BgpVrfMsg::PrefixSetCommitEnd { generation } },
        );
        proof {
            assert(bgp@.outbox =~= sent.push(closing(before.registry, generation)(names[i as int])));
            assert(bgp@.outbox =~= published + names.take(i + 1).map_values(
                closing(before.registry, generation),
            ));
        }
        i += 1;
    }
    assert(names.take(n as int) =~= names);
}

/// The effect of the callback for a binding.
pub open spec fn prefix_set_staged(
    bgp: BgpView,
    args: Seq<ArgView>,
    op: ConfigOp,
    direction: InOut,
) -> (BgpView, Option<()>) {
    let name = string_arg(rest(rest(rest(args))));
    match (string_arg(args), addr_arg(rest(args)), afi_safi_arg(rest(rest(args)))) {
        (Some(vrf), Some(address), Some(afi_safi)) => match op {
            ConfigOp::Assign => match name {
                Some(name) => (
                    bound(
                        bgp,
                        BindingKey { vrf, address, afi_safi, direction },
                        Some(name),
                        op,
                    ),
                    Some(()),
                ),
                None => (bgp, None),
            },
            ConfigOp::Delete => if bgp.vrfs.contains_key(vrf) {
                (
                    bound(bgp, BindingKey { vrf, address, afi_safi, direction }, None, op),
                    Some(()),
                )
            } else {
                (bgp, None)
            },
            _ => (bgp, Some(())),
        },
        _ => (bgp, None),
    }
}

/// The instance after a binding was assigned or deleted. The first change to a
/// key is recorded; staging the name that is bound already records nothing.
pub open spec fn bound(
    bgp: BgpView,
    key: BindingKey,
    name: Option<Seq<char>>,
    op: ConfigOp,
) -> BgpView {
    let cfg = if bgp.vrfs.contains_key(key.vrf) {
        bgp.vrfs[key.vrf]
    } else {
        BgpVrfConfigView::unset()
    };
    if binding_reached(cfg, key.address, key.afi_safi, op) {
        BgpView {
            vrfs: bgp.vrfs.insert(
                key.vrf,
                with_binding(cfg, key.address, key.afi_safi, key.direction, name),
            ),
            pending: if binding(bgp.vrfs, key) != name {
                recorded(
                    bgp.pending,
                    PendingVrfPrefixSetChangeView { key, before: binding(bgp.vrfs, key) },
                )
            } else {
                bgp.pending
            },
            ..bgp
        }
    } else {
        bgp
    }
}

/// `router bgp vrf <NAME> neighbor <ADDRESS> afi-safi {ipv4|ipv6} prefix-set
/// {in|out} <SET>`, for either direction. A running VRF hears of it at the end
/// of the transaction.
pub fn config_vrf_neighbor_afi_safi_prefix_set(
    bgp: &mut Bgp,
    mut args: Args,
    op: ConfigOp,
    direction: InOut,
) -> (r: Option<()>)
    ensures
        (final(bgp)@, r) == prefix_set_staged(old(bgp)@, args@, op, direction),
{
    let vrf = args.string()?;
    let address = args.addr()?;
    let afi_safi = args.afi_safi()?;
    let name = match op {
        ConfigOp::Assign => Some(args.string()?),
        ConfigOp::Delete => None,
        _ => return Some(()),
    };
    proof {
        let vrfs = bgp@.vrfs;
        assert(vrfs.contains_key(vrf@) ==> vrfs.insert(vrf@, vrfs[vrf@]) =~= vrfs);
    }
    let cfg = vrf_entry(bgp, vrf.clone(), op)?;
    let changed = update_neighbor_prefix_set(cfg, address, afi_safi, direction, name, op);
    match changed {
        Some(before) => record_pending_prefix_set_change(
            &mut bgp.vrf_prefix_set_pending,
            PendingVrfPrefixSetChange { vrf, address, afi_safi, direction, before },
        ),
        None => {},
    }
    Some(())
}

/// The binding for routes received.
pub fn config_vrf_neighbor_afi_safi_prefix_set_in(
    bgp: &mut Bgp,
    args: Args,
    op: ConfigOp,
) -> (r: Option<()>)
    ensures
        (final(bgp)@, r) == prefix_set_staged(old(bgp)@, args@, op, InOut::Input),
{
    config_vrf_neighbor_afi_safi_prefix_set(bgp, args, op, InOut::Input)
}

/// The binding for routes advertised.
pub fn config_vrf_neighbor_afi_safi_prefix_set_out(
    bgp: &mut Bgp,
    args: Args,
    op: ConfigOp,
) -> (r: Option<()>)
    ensures
        (final(bgp)@, r) == prefix_set_staged(old(bgp)@, args@, op, InOut::Output),
{
    config_vrf_neighbor_afi_safi_prefix_set(bgp, args, op, InOut::Output)
}

} // verus!
