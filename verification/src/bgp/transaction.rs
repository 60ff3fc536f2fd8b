//! What holds of a configuration transaction over prefix-set bindings: what it
//! publishes is the difference that it makes in the end.

use vstd::prelude::*;
use crate::args::{addr_arg, afi_safi_arg, rest, string_arg, ArgView, ConfigOp};
use crate::bgp::networks::{ipv4_network_staged, ipv4_staged, ipv6_network_staged, ipv6_staged,
    redistribute_staged, source_staged};
use crate::bgp::prefix_set::{binding, bound, closing, closings, committed, is_net_change,
    net_changes, prefix_set_staged, publications, recorded, settled, touched};
use crate::bgp::staging::{stage_neighbor, stage_vrf, Leaf};
use crate::bgp::state::{BindingKey, BgpView, BgpVrfMsgView, PendingVrfPrefixSetChangeView,
    VrfDeliveryView, VrfPrefixSetChangeView};
use crate::bgp::types::{BgpRedistSource, BgpVrfConfigView, BgpVrfNeighborConfigView, InOut,
    RedistAfi};
use crate::bgp::vrf_config::vrf_staged;
use crate::net::IpAddr;
use crate::order::{in_order, in_order_enumerates, increasing_no_duplicates};

verus! {

/// Whether no key is recorded twice.
pub open spec fn one_record_each(pending: Seq<PendingVrfPrefixSetChangeView>) -> bool {
    forall|i: int, j: int|
        0 <= i < j < pending.len() ==> (#[trigger] pending[i]).key != (#[trigger] pending[j]).key
}

/// Whether the pending records account for all that a transaction has changed
/// since its baseline: every record has the baseline's name, and a binding
/// without a record is the baseline's.
pub open spec fn tracks(baseline: Map<Seq<char>, BgpVrfConfigView>, bgp: BgpView) -> bool {
    &&& one_record_each(bgp.pending)
    &&& forall|i: int|
        0 <= i < bgp.pending.len() ==> (#[trigger] bgp.pending[i]).before == binding(
            baseline,
            bgp.pending[i].key,
        )
    &&& forall|key: BindingKey|
        !touched(bgp.pending, key) ==> #[trigger] binding(bgp.vrfs, key) == binding(baseline, key)
}

/// Recording a change keeps one record for each key, and the first one.
pub proof fn first_record_stays(
    pending: Seq<PendingVrfPrefixSetChangeView>,
    change: PendingVrfPrefixSetChangeView,
)
    ensures
        pending.is_prefix_of(recorded(pending, change)),
        touched(recorded(pending, change), change.key),
        one_record_each(pending) ==> one_record_each(recorded(pending, change)),
        forall|key: BindingKey|
            key != change.key ==> #[trigger] touched(recorded(pending, change), key) == touched(
                pending,
                key,
            ),
        recorded(recorded(pending, change), change) == recorded(pending, change),
{
    let after = recorded(pending, change);
    if !touched(pending, change.key) {
        assert(after[pending.len() as int].key == change.key);
        assert forall|key: BindingKey| key != change.key implies #[trigger] touched(after, key)
            == touched(pending, key) by {
            if touched(pending, key) {
                let i = choose|i: int| 0 <= i < pending.len() && #[trigger] pending[i].key == key;
                assert(after[i].key == key);
            }
            if touched(after, key) {
                let i = choose|i: int| 0 <= i < after.len() && #[trigger] after[i].key == key;
                assert(pending[i].key == key);
            }
        }
    }
}

/// The bindings after one was exchanged.
proof fn binding_after(bgp: BgpView, key: BindingKey, name: Option<Seq<char>>, op: ConfigOp)
    requires
        op == ConfigOp::Assign || (op == ConfigOp::Delete && name is None),
    ensures
        forall|k: BindingKey| #[trigger]
            binding(bound(bgp, key, name, op).vrfs, k) == (if k == key {
                name
            } else {
                binding(bgp.vrfs, k)
            }),
{
    let after = bound(bgp, key, name, op);
    assert forall|k: BindingKey| #[trigger] binding(after.vrfs, k) == (if k == key {
        name
    } else {
        binding(bgp.vrfs, k)
    }) by {
        if k != key && k.vrf == key.vrf && k.address == key.address && k.afi_safi
            == key.afi_safi {
            assert(k.direction != key.direction);
        }
    }
}

/// At its beginning a transaction has changed nothing.
pub proof fn transaction_begins(bgp: BgpView)
    requires
        bgp.pending == Seq::<PendingVrfPrefixSetChangeView>::empty(),
    ensures
        tracks(bgp.vrfs, bgp),
{
}

/// A binding that is assigned or deleted stays accounted for.
proof fn bound_is_tracked(
    baseline: Map<Seq<char>, BgpVrfConfigView>,
    bgp: BgpView,
    key: BindingKey,
    name: Option<Seq<char>>,
    op: ConfigOp,
)
    requires
        tracks(baseline, bgp),
        op == ConfigOp::Assign || (op == ConfigOp::Delete && name is None),
    ensures
        tracks(baseline, bound(bgp, key, name, op)),
{
    binding_after(bgp, key, name, op);
    let change = PendingVrfPrefixSetChangeView { key, before: binding(bgp.vrfs, key) };
    first_record_stays(bgp.pending, change);
    let after = bound(bgp, key, name, op);
    assert forall|k: BindingKey| !touched(after.pending, k) implies #[trigger] binding(
        after.vrfs,
        k,
    ) == binding(baseline, k) by {
        assert(binding(bgp.vrfs, k) == binding(bgp.vrfs, k));
        if k == key && binding(bgp.vrfs, key) != name {
            assert(touched(recorded(bgp.pending, change), key));
        } else if k != key {
            assert(touched(recorded(bgp.pending, change), k) == touched(bgp.pending, k));
        }
    }
    assert forall|i: int| 0 <= i < after.pending.len() implies (#[trigger] after.pending[i]).before
        == binding(baseline, after.pending[i].key) by {
        if i < bgp.pending.len() {
            assert(after.pending[i] == bgp.pending[i]);
        } else {
            assert(after.pending[i] == change);
            assert(!touched(bgp.pending, key));
        }
    }
}

/// Every callback for a binding keeps the transaction accounted for, whatever
/// its arguments and its operation are.
pub proof fn binding_callback_is_tracked(
    baseline: Map<Seq<char>, BgpVrfConfigView>,
    bgp: BgpView,
    args: Seq<ArgView>,
    op: ConfigOp,
    direction: InOut,
)
    requires
        tracks(baseline, bgp),
    ensures
        tracks(baseline, prefix_set_staged(bgp, args, op, direction).0),
{
    if string_arg(args) is Some && addr_arg(rest(args)) is Some && afi_safi_arg(
        rest(rest(args)),
    ) is Some {
        let key = BindingKey {
            vrf: string_arg(args)->0,
            address: addr_arg(rest(args))->0,
            afi_safi: afi_safi_arg(rest(rest(args)))->0,
            direction,
        };
        if op == ConfigOp::Assign && string_arg(rest(rest(rest(args)))) is Some {
            bound_is_tracked(
                baseline,
                bgp,
                key,
                Some(string_arg(rest(rest(rest(args))))->0),
                op,
            );
        } else if op == ConfigOp::Delete {
            bound_is_tracked(baseline, bgp, key, None, op);
        }
    }
}

/// A leaf that leaves the neighbors of a VRF alone touches no binding.
pub proof fn vrf_leaf_is_tracked<K, T>(
    baseline: Map<Seq<char>, BgpVrfConfigView>,
    bgp: BgpView,
    args: Seq<ArgView>,
    key: Option<K>,
    value: Option<T>,
    op: ConfigOp,
    leaf: spec_fn(K) -> Leaf<BgpVrfConfigView, T>,
)
    requires
        tracks(baseline, bgp),
        forall|k: K, s: BgpVrfConfigView, t: T| (#[trigger] (leaf(k).set)(s, t)).neighbors
            == s.neighbors,
        forall|k: K, s: BgpVrfConfigView| (#[trigger] (leaf(k).clear)(s)).neighbors == s.neighbors,
    ensures
        tracks(baseline, stage_vrf(bgp, args, key, value, op, leaf).0),
{
    let after = stage_vrf(bgp, args, key, value, op, leaf).0;
    assert forall|k: BindingKey| #[trigger] binding(after.vrfs, k) == binding(bgp.vrfs, k) by {}
    assert forall|k: BindingKey| !touched(after.pending, k) implies #[trigger] binding(
        after.vrfs,
        k,
    ) == binding(baseline, k) by {
        assert(binding(bgp.vrfs, k) == binding(baseline, k));
    }
}

/// A leaf of a neighbor that leaves its prefix-sets alone touches no binding.
pub proof fn neighbor_leaf_is_tracked<K, T>(
    baseline: Map<Seq<char>, BgpVrfConfigView>,
    bgp: BgpView,
    args: Seq<ArgView>,
    key: Option<K>,
    value: Option<T>,
    op: ConfigOp,
    leaf: spec_fn(K) -> Leaf<BgpVrfNeighborConfigView, T>,
)
    requires
        tracks(baseline, bgp),
        forall|k: K, s: BgpVrfNeighborConfigView, t: T| (#[trigger] (leaf(k).set)(
            s,
            t,
        )).prefix_set == s.prefix_set,
        forall|k: K, s: BgpVrfNeighborConfigView| (#[trigger] (leaf(k).clear)(s)).prefix_set
            == s.prefix_set,
    ensures
        tracks(baseline, stage_neighbor(bgp, args, key, value, op, leaf).0),
{
    let after = stage_neighbor(bgp, args, key, value, op, leaf).0;
    assert forall|k: BindingKey| #[trigger] binding(after.vrfs, k) == binding(bgp.vrfs, k) by {}
    assert forall|k: BindingKey| !touched(after.pending, k) implies #[trigger] binding(
        after.vrfs,
        k,
    ) == binding(baseline, k) by {
        assert(binding(bgp.vrfs, k) == binding(baseline, k));
    }
}

/// Staging the name that is bound already changes nothing and records nothing.
pub proof fn repeated_binding_is_void(bgp: BgpView, key: BindingKey, name: Seq<char>)
    requires
        binding(bgp.vrfs, key) == Some(name),
    ensures
        bound(bgp, key, Some(name), ConfigOp::Assign) == bgp,
{
    let cfg = bgp.vrfs[key.vrf];
    let neighbor = cfg.neighbors[key.address];
    let pair = neighbor.prefix_set[key.afi_safi];
    assert(pair.with_name(key.direction, Some(name)) == pair);
    assert(neighbor.prefix_set.insert(key.afi_safi, pair) =~= neighbor.prefix_set);
    assert(cfg.neighbors.insert(key.address, neighbor) =~= cfg.neighbors);
    assert(bgp.vrfs.insert(key.vrf, cfg) =~= bgp.vrfs);
}

/// The callbacks for the families of a VRF, and the one that adds a VRF, touch
/// no binding.
pub proof fn other_callbacks_are_tracked(
    baseline: Map<Seq<char>, BgpVrfConfigView>,
    bgp: BgpView,
    args: Seq<ArgView>,
    op: ConfigOp,
    afi: RedistAfi,
    source: BgpRedistSource,
)
    requires
        tracks(baseline, bgp),
    ensures
        tracks(baseline, ipv4_staged(bgp, args, op).0),
        tracks(baseline, ipv6_staged(bgp, args, op).0),
        tracks(baseline, ipv4_network_staged(bgp, args, op).0),
        tracks(baseline, ipv6_network_staged(bgp, args, op).0),
        tracks(baseline, redistribute_staged(bgp, args, op, afi).0),
        tracks(baseline, source_staged(bgp, args, op, afi, source).0),
        tracks(baseline, vrf_staged(bgp, args, ConfigOp::Assign).0),
{
    same_bindings_are_tracked(baseline, bgp, ipv4_staged(bgp, args, op).0);
    same_bindings_are_tracked(baseline, bgp, ipv6_staged(bgp, args, op).0);
    same_bindings_are_tracked(baseline, bgp, ipv4_network_staged(bgp, args, op).0);
    same_bindings_are_tracked(baseline, bgp, ipv6_network_staged(bgp, args, op).0);
    same_bindings_are_tracked(baseline, bgp, redistribute_staged(bgp, args, op, afi).0);
    same_bindings_are_tracked(baseline, bgp, source_staged(bgp, args, op, afi, source).0);
    same_bindings_are_tracked(baseline, bgp, vrf_staged(bgp, args, ConfigOp::Assign).0);
}

/// A step that leaves the neighbors of every VRF alone, and adds VRFs without
/// neighbors at most, keeps the transaction accounted for.
proof fn same_bindings_are_tracked(
    baseline: Map<Seq<char>, BgpVrfConfigView>,
    bgp: BgpView,
    after: BgpView,
)
    requires
        tracks(baseline, bgp),
        after.pending == bgp.pending,
        forall|name: Seq<char>| #[trigger]
            bgp.vrfs.contains_key(name) ==> after.vrfs.contains_key(name)
                && after.vrfs[name].neighbors == bgp.vrfs[name].neighbors,
        forall|name: Seq<char>| #[trigger]
            after.vrfs.contains_key(name) && !bgp.vrfs.contains_key(name)
                ==> after.vrfs[name].neighbors == Map::<IpAddr, BgpVrfNeighborConfigView>::empty(),
    ensures
        tracks(baseline, after),
{
    assert forall|k: BindingKey| !touched(after.pending, k) implies #[trigger] binding(
        after.vrfs,
        k,
    ) == binding(baseline, k) by {
        assert(bgp.vrfs.contains_key(k.vrf) ==> after.vrfs.contains_key(k.vrf));
        assert(after.vrfs.contains_key(k.vrf) ==> bgp.vrfs.contains_key(k.vrf)
            || after.vrfs[k.vrf].neighbors == Map::<IpAddr, BgpVrfNeighborConfigView>::empty());
        assert(binding(after.vrfs, k) == binding(bgp.vrfs, k));
    }
}

/// Whether a change stands for a pending record.
spec fn has_record(
    vrfs: Map<Seq<char>, BgpVrfConfigView>,
    pending: Seq<PendingVrfPrefixSetChangeView>,
    change: VrfPrefixSetChangeView,
) -> bool {
    exists|j: int|
        {
            &&& 0 <= j < pending.len()
            &&& is_net_change(vrfs)(#[trigger] pending[j])
            &&& change == settled(vrfs)(pending[j])
        }
}

/// What the filter and the map of the published changes come to: each change
/// stands for one pending record, in the same order.
proof fn net_change_of_record(
    vrfs: Map<Seq<char>, BgpVrfConfigView>,
    pending: Seq<PendingVrfPrefixSetChangeView>,
)
    requires
        one_record_each(pending),
    ensures
        forall|i: int|
            0 <= i < net_changes(vrfs, pending).len() ==> has_record(
                vrfs,
                pending,
                #[trigger] net_changes(vrfs, pending)[i],
            ),
        forall|j: int|
            0 <= j < pending.len() && is_net_change(vrfs)(#[trigger] pending[j]) ==> net_changes(
                vrfs,
                pending,
            ).contains(settled(vrfs)(pending[j])),
        forall|i: int, j: int|
            0 <= i < j < net_changes(vrfs, pending).len() ==> (#[trigger] net_changes(
                vrfs,
                pending,
            )[i]).key != (#[trigger] net_changes(vrfs, pending)[j]).key,
    decreases pending.len(),
{
    reveal(Seq::filter);
    let all = net_changes(vrfs, pending);
    if pending.len() > 0 {
        let front = pending.drop_last();
        let last = pending.last();
        net_change_of_record(vrfs, front);
        let head = net_changes(vrfs, front);
        if is_net_change(vrfs)(last) {
            assert(all =~= head.push(settled(vrfs)(last)));
        } else {
            assert(all =~= head);
        }
        assert forall|i: int| 0 <= i < all.len() implies has_record(
            vrfs,
            pending,
            #[trigger] all[i],
        ) by {
            if i < head.len() {
                assert(has_record(vrfs, front, head[i]));
                let j = choose|j: int|
                    {
                        &&& 0 <= j < front.len()
                        &&& is_net_change(vrfs)(#[trigger] front[j])
                        &&& head[i] == settled(vrfs)(front[j])
                    };
                assert(pending[j] == front[j]);
            } else {
                assert(pending[pending.len() - 1] == last);
            }
        }
        assert forall|j: int|
            0 <= j < pending.len() && is_net_change(vrfs)(#[trigger] pending[j]) implies all.contains(
            settled(vrfs)(pending[j]),
        ) by {
            if j < front.len() {
                assert(front[j] == pending[j]);
                assert(head.contains(settled(vrfs)(front[j])));
                let i = choose|i: int| 0 <= i < head.len() && head[i] == settled(vrfs)(front[j]);
                assert(all[i] == settled(vrfs)(pending[j]));
            } else {
                assert(all[head.len() as int] == settled(vrfs)(last));
            }
        }
        assert forall|i: int, j: int| 0 <= i < j < all.len() implies (#[trigger] all[i]).key != (
        #[trigger] all[j]).key by {
            if j < head.len() {
                assert(head[i].key != head[j].key);
            } else {
                assert(has_record(vrfs, front, head[i]));
                let k = choose|k: int|
                    {
                        &&& 0 <= k < front.len()
                        &&& is_net_change(vrfs)(#[trigger] front[k])
                        &&& head[i] == settled(vrfs)(front[k])
                    };
                assert(pending[k].key != pending[pending.len() - 1].key);
            }
        }
    }
}

/// What a transaction publishes is the difference between its baseline and its
/// end: every binding that differs is published once, with its final name, and
/// no other binding is published.
pub proof fn transaction_publishes_the_difference(
    baseline: Map<Seq<char>, BgpVrfConfigView>,
    bgp: BgpView,
)
    requires
        tracks(baseline, bgp),
    ensures
        ({
            let changes = net_changes(bgp.vrfs, bgp.pending);
            &&& forall|key: BindingKey|
                (#[trigger] binding(bgp.vrfs, key) != binding(baseline, key)) <==> changes.contains(
                    VrfPrefixSetChangeView { key, name: binding(bgp.vrfs, key) },
                )
            &&& forall|i: int|
                0 <= i < changes.len() ==> (#[trigger] changes[i]).name == binding(
                    bgp.vrfs,
                    changes[i].key,
                ) && changes[i].name != binding(baseline, changes[i].key)
            &&& forall|i: int, j: int|
                0 <= i < j < changes.len() ==> (#[trigger] changes[i]).key != (
                #[trigger] changes[j]).key
        }),
{
    let vrfs = bgp.vrfs;
    let pending = bgp.pending;
    let changes = net_changes(vrfs, pending);
    net_change_of_record(vrfs, pending);
    assert forall|i: int| 0 <= i < changes.len() implies (#[trigger] changes[i]).name == binding(
        vrfs,
        changes[i].key,
    ) && changes[i].name != binding(baseline, changes[i].key) by {
        assert(has_record(vrfs, pending, changes[i]));
        let j = choose|j: int|
            {
                &&& 0 <= j < pending.len()
                &&& is_net_change(vrfs)(#[trigger] pending[j])
                &&& changes[i] == settled(vrfs)(pending[j])
            };
        assert(pending[j].before == binding(baseline, pending[j].key));
    }
    assert forall|key: BindingKey|
        (#[trigger] binding(vrfs, key) != binding(baseline, key)) <==> changes.contains(
            VrfPrefixSetChangeView { key, name: binding(vrfs, key) },
        ) by {
        let change = VrfPrefixSetChangeView { key, name: binding(vrfs, key) };
        if changes.contains(change) {
            let i = choose|i: int| 0 <= i < changes.len() && changes[i] == change;
            assert(changes[i].name != binding(baseline, changes[i].key));
        }
        if binding(vrfs, key) != binding(baseline, key) {
            assert(touched(pending, key));
            let j = choose|j: int| 0 <= j < pending.len() && #[trigger] pending[j].key == key;
            assert(is_net_change(vrfs)(pending[j]));
            assert(settled(vrfs)(pending[j]) == change);
        }
    }
}

/// A transaction that restores every binding publishes nothing.
pub proof fn restored_transaction_publishes_nothing(
    baseline: Map<Seq<char>, BgpVrfConfigView>,
    bgp: BgpView,
)
    requires
        tracks(baseline, bgp),
        forall|key: BindingKey| #[trigger] binding(bgp.vrfs, key) == binding(baseline, key),
    ensures
        net_changes(bgp.vrfs, bgp.pending) == Seq::<VrfPrefixSetChangeView>::empty(),
{
    transaction_publishes_the_difference(baseline, bgp);
    let changes = net_changes(bgp.vrfs, bgp.pending);
    if changes.len() > 0 {
        assert(changes[0].name != binding(baseline, changes[0].key));
        assert(binding(bgp.vrfs, changes[0].key) == binding(baseline, changes[0].key));
    }
    assert(changes =~= Seq::empty());
}

/// One callback of a transaction over bindings.
pub struct BindingStep {
    pub args: Seq<ArgView>,
    pub op: ConfigOp,
    pub direction: InOut,
}

/// The instance after a row of callbacks for bindings.
pub open spec fn all_staged(bgp: BgpView, steps: Seq<BindingStep>) -> BgpView
    decreases steps.len(),
{
    if steps.len() == 0 {
        bgp
    } else {
        let before = all_staged(bgp, steps.drop_last());
        let step = steps.last();
        prefix_set_staged(before, step.args, step.op, step.direction).0
    }
}

/// Whatever row of callbacks a transaction makes, it stays accounted for from
/// its beginning to its end.
pub proof fn transaction_is_tracked(bgp: BgpView, steps: Seq<BindingStep>)
    requires
        bgp.pending == Seq::<PendingVrfPrefixSetChangeView>::empty(),
    ensures
        tracks(bgp.vrfs, all_staged(bgp, steps)),
    decreases steps.len(),
{
    if steps.len() == 0 {
        transaction_begins(bgp);
    } else {
        transaction_is_tracked(bgp, steps.drop_last());
        let step = steps.last();
        binding_callback_is_tracked(
            bgp.vrfs,
            all_staged(bgp, steps.drop_last()),
            step.args,
            step.op,
            step.direction,
        );
    }
}

/// A replacement arrives as a delete and an assignment. It is published as one
/// change to the new name, and as none where the old name comes back.
pub proof fn replacement_is_coalesced(bgp: BgpView, key: BindingKey, name: Seq<char>)
    requires
        bgp.pending == Seq::<PendingVrfPrefixSetChangeView>::empty(),
        binding(bgp.vrfs, key) is Some,
    ensures
        ({
            let deleted = bound(bgp, key, None, ConfigOp::Delete);
            let replaced = bound(deleted, key, Some(name), ConfigOp::Assign);
            &&& replaced.pending == seq![
                PendingVrfPrefixSetChangeView { key, before: binding(bgp.vrfs, key) },
            ]
            &&& net_changes(replaced.vrfs, replaced.pending) == if binding(bgp.vrfs, key) == Some(
                name,
            ) {
                Seq::<VrfPrefixSetChangeView>::empty()
            } else {
                seq![VrfPrefixSetChangeView { key, name: Some(name) }]
            }
        }),
{
    let deleted = bound(bgp, key, None, ConfigOp::Delete);
    let replaced = bound(deleted, key, Some(name), ConfigOp::Assign);
    binding_after(bgp, key, None, ConfigOp::Delete);
    binding_after(deleted, key, Some(name), ConfigOp::Assign);
    let record = PendingVrfPrefixSetChangeView { key, before: binding(bgp.vrfs, key) };
    assert(deleted.pending =~= seq![record]);
    assert(deleted.pending[0].key == key);
    assert(replaced.pending =~= seq![record]);
    reveal_with_fuel(Seq::filter, 2);
    assert(seq![record].drop_last() =~= Seq::empty());
    assert(seq![record].last() == record);
    assert(binding(replaced.vrfs, key) == Some(name));
    assert(net_changes(replaced.vrfs, seq![record]) =~= if binding(bgp.vrfs, key) == Some(name) {
        Seq::<VrfPrefixSetChangeView>::empty()
    } else {
        seq![VrfPrefixSetChangeView { key, name: Some(name) }]
    });
}

/// A commit leaves nothing pending and the configuration as it is; a second
/// commit publishes no binding again.
pub proof fn commit_publishes_once(bgp: BgpView, generation: u64, next: u64)
    ensures
        ({
            let once = committed(bgp, generation);
            &&& once.pending == Seq::<PendingVrfPrefixSetChangeView>::empty()
            &&& once.vrfs == bgp.vrfs
            &&& once.registry == bgp.registry
            &&& committed(once, next).outbox == once.outbox + closings(bgp.registry, next)
        }),
{
    reveal(Seq::filter);
    let once = committed(bgp, generation);
    assert(net_changes(once.vrfs, once.pending) =~= Seq::empty());
    assert(publications(once.registry, Seq::empty(), next) =~= Seq::empty());
    assert(once.outbox + Seq::<VrfDeliveryView>::empty() =~= once.outbox);
}

/// A commit queues first the bindings and then the closing messages, of which
/// every running VRF gets one; all of them carry the generation of the commit.
pub proof fn commit_closes_every_vrf(bgp: BgpView, generation: u64)
    requires
        bgp.registry.dom().finite(),
    ensures
        ({
            let sent = publications(
                bgp.registry,
                net_changes(bgp.vrfs, bgp.pending),
                generation,
            );
            let closed = closings(bgp.registry, generation);
            &&& committed(bgp, generation).outbox == bgp.outbox + sent + closed
            &&& forall|i: int|
                0 <= i < sent.len() ==> ((#[trigger] sent[i]).msg matches
                    BgpVrfMsgView::PrefixSetConfig { generation: g, .. } && g == generation)
            &&& closed.len() == bgp.registry.dom().len()
            &&& forall|i: int|
                0 <= i < closed.len() ==> (#[trigger] closed[i]).msg
                    == (BgpVrfMsgView::PrefixSetCommitEnd { generation })
            &&& forall|name: Seq<char>| #[trigger]
                bgp.registry.contains_key(name) ==> closed.contains(
                    closing(bgp.registry, generation)(name),
                )
        }),
{
    let names = in_order::<String>(bgp.registry.dom());
    let closed = closings(bgp.registry, generation);
    in_order_enumerates::<String>(bgp.registry.dom());
    increasing_no_duplicates::<String>(names);
    names.unique_seq_to_set();
    assert forall|name: Seq<char>| #[trigger]
        bgp.registry.contains_key(name) implies closed.contains(
        closing(bgp.registry, generation)(name),
    ) by {
        assert(names.to_set().contains(name));
        let i = choose|i: int| 0 <= i < names.len() && names[i] == name;
        assert(closed[i] == closing(bgp.registry, generation)(name));
    }
}

} // verus!
