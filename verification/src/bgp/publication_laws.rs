//! What staging a binding does, and what a commit tells the running VRFs.

use vstd::prelude::*;
use crate::args::{addr_arg, afi_safi_arg, rest, string_arg, ArgView, ConfigOp};
use crate::bgp::prefix_set::{binding, binding_reached, cfg_binding, with_binding, committed,
    is_live, is_net_change, net_changes, prefix_set_staged, publications, touched};
use crate::bgp::state::{BgpView, BgpVrfMsgView, BindingKey, PendingVrfPrefixSetChangeView,
    VrfDeliveryView};
use crate::bgp::transaction::{all_staged, tracks, transaction_is_tracked, BindingStep};
use crate::bgp::types::{BgpVrfConfigView, BgpVrfNeighborConfigView, InOut};
use crate::net::{AfiSafi, IpAddr};
use crate::order::in_order;
use crate::rows::{filter_picks, picks, picks_of_picks};

verus! {

/// The name in the configuration under a key: of the VRF, the neighbor, the
/// family and the direction. None where one of them is not there.
pub open spec fn bound_name(
    vrfs: Map<Seq<char>, BgpVrfConfigView>,
    key: BindingKey,
) -> Option<Seq<char>> {
    if vrfs.contains_key(key.vrf) && vrfs[key.vrf].neighbors.contains_key(key.address)
        && vrfs[key.vrf].neighbors[key.address].prefix_set.contains_key(key.afi_safi) {
        let pair = vrfs[key.vrf].neighbors[key.address].prefix_set[key.afi_safi];
        if key.direction == InOut::Input {
            pair.input
        } else {
            pair.output
        }
    } else {
        None
    }
}

/// The delivery that publishes a binding.
pub open spec fn binding_delivery(
    registry: Map<Seq<char>, u64>,
    key: BindingKey,
    name: Option<Seq<char>>,
    generation: u64,
) -> VrfDeliveryView {
    VrfDeliveryView {
        inbox: registry[key.vrf],
        msg: BgpVrfMsgView::PrefixSetConfig {
            address: key.address,
            afi_safi: key.afi_safi,
            direction: key.direction,
            name,
            generation,
        },
    }
}

/// A commit goes through the pending records in their order. For each whose VRF
/// is running and whose name is now another than before, it queues one message
/// with the name of now, and none for any other. Then it queues one closing
/// message for each running VRF, in the order of names. Nothing stays pending,
/// and nothing else changes.
pub proof fn commit_queues(bgp: BgpView, generation: u64) -> (at: Seq<int>)
    ensures
        ({
            let after = committed(bgp, generation);
            let n = bgp.outbox.len();
            let vrfs = in_order::<String>(bgp.registry.dom());
            &&& picks(
                at,
                bgp.pending.len() as int,
                |j: int|
                    bgp.registry.contains_key(bgp.pending[j].key.vrf) && bound_name(
                        bgp.vrfs,
                        bgp.pending[j].key,
                    ) != bgp.pending[j].before,
            )
            &&& bgp.outbox.is_prefix_of(after.outbox)
            &&& after.outbox.len() == n + at.len() + vrfs.len()
            &&& forall|i: int|
                0 <= i < at.len() ==> #[trigger] after.outbox[n + i] == binding_delivery(
                    bgp.registry,
                    bgp.pending[at[i]].key,
                    bound_name(bgp.vrfs, bgp.pending[at[i]].key),
                    generation,
                )
            &&& forall|i: int|
                0 <= i < vrfs.len() ==> #[trigger] after.outbox[n + at.len() + i]
                    == (VrfDeliveryView {
                    inbox: bgp.registry[vrfs[i]],
                    msg: BgpVrfMsgView::PrefixSetCommitEnd { generation },
                })
            &&& after.pending.len() == 0
            &&& after.vrfs == bgp.vrfs
            &&& after.registry == bgp.registry
        }),
{
    let after = committed(bgp, generation);
    let pending = bgp.pending;
    let net = is_net_change(bgp.vrfs);
    let changes = net_changes(bgp.vrfs, pending);
    let outer = filter_picks(pending, net);
    let inner = filter_picks(changes, is_live(bgp.registry));
    let first = |j: int| net(pending[j]);
    let second = |j: int| bgp.registry.contains_key(pending[j].key.vrf);
    let w1 = |k: int| is_live(bgp.registry)(changes[k]);
    let w2 = |k: int| second(outer[k]);
    assert forall|k: int| 0 <= k < outer.len() implies #[trigger] w1(k) == w2(k) by {
        assert(pending.filter(net)[k] == pending[outer[k]]);
    }
    picks_alike(inner, outer.len() as int, w1, w2);
    picks_of_picks(outer, pending.len() as int, first, inner, second);
    let at = Seq::new(inner.len(), |i: int| outer[inner[i]]);
    let both = |j: int| first(j) && second(j);
    let wanted = |j: int|
        bgp.registry.contains_key(pending[j].key.vrf) && bound_name(bgp.vrfs, pending[j].key)
            != pending[j].before;
    assert forall|j: int| 0 <= j < pending.len() implies #[trigger] both(j) == wanted(j) by {}
    picks_alike(at, pending.len() as int, both, wanted);
    let sent = publications(bgp.registry, changes, generation);
    assert forall|i: int| 0 <= i < at.len() implies #[trigger] after.outbox[bgp.outbox.len() + i]
        == binding_delivery(
        bgp.registry,
        pending[at[i]].key,
        bound_name(bgp.vrfs, pending[at[i]].key),
        generation,
    ) by {
        assert(0 <= inner[i] < outer.len());
        assert(changes.filter(is_live(bgp.registry))[i] == changes[inner[i]]);
        assert(pending.filter(net)[inner[i]] == pending[outer[inner[i]]]);
        assert(after.outbox[bgp.outbox.len() + i] == sent[i]);
    }
    assert(bgp.outbox =~= after.outbox.subrange(0, bgp.outbox.len() as int));
    at
}

/// Two conditions that agree pick the same places.
proof fn picks_alike(at: Seq<int>, n: int, p: spec_fn(int) -> bool, q: spec_fn(int) -> bool)
    requires
        picks(at, n, p),
        forall|j: int| 0 <= j < n ==> #[trigger] p(j) == q(j),
    ensures
        picks(at, n, q),
{
    assert forall|i: int| 0 <= i < at.len() implies 0 <= #[trigger] at[i] < n && q(at[i]) by {
        assert(p(at[i]));
    }
    assert forall|j: int| 0 <= j < n && #[trigger] q(j) implies at.contains(j) by {
        assert(p(j));
    }
}

/// The name in the configuration is what a commit goes by.
proof fn binding_is_the_name(vrfs: Map<Seq<char>, BgpVrfConfigView>)
    ensures
        forall|key: BindingKey| #[trigger] binding(vrfs, key) == bound_name(vrfs, key),
{
}

/// Whatever row of callbacks a transaction makes, the commit tells a running VRF
/// of every binding of it that is another in the end than at the beginning, with
/// the name at the end and the generation of the commit; and it tells no VRF of
/// any other binding.
pub proof fn transaction_tells_the_difference(
    bgp: BgpView,
    steps: Seq<BindingStep>,
    generation: u64,
)
    requires
        bgp.pending == Seq::<PendingVrfPrefixSetChangeView>::empty(),
    ensures
        ({
            let end = all_staged(bgp, steps);
            let told = committed(end, generation).outbox.skip(end.outbox.len() as int);
            &&& forall|key: BindingKey|
                end.registry.contains_key(key.vrf) && #[trigger] bound_name(end.vrfs, key)
                    != bound_name(bgp.vrfs, key) ==> told.contains(
                    binding_delivery(
                        end.registry,
                        key,
                        bound_name(end.vrfs, key),
                        generation,
                    ),
                )
            &&& forall|i: int|
                0 <= i < told.len() && ((#[trigger] told[i]).msg is PrefixSetConfig) ==> tells_of_change(
                    bgp.vrfs,
                    end.vrfs,
                    end.registry,
                    generation,
                    told[i],
                )
        }),
{
    let end = all_staged(bgp, steps);
    transaction_is_tracked(bgp, steps);
    tracked_commit_tells_the_difference(bgp.vrfs, end, generation);
}

/// Whether a delivery publishes a binding of a running VRF that differs between
/// two configurations, with the later name.
pub open spec fn tells_of_change(
    before: Map<Seq<char>, BgpVrfConfigView>,
    after: Map<Seq<char>, BgpVrfConfigView>,
    registry: Map<Seq<char>, u64>,
    generation: u64,
    delivery: VrfDeliveryView,
) -> bool {
    exists|key: BindingKey|
        {
            &&& registry.contains_key(key.vrf)
            &&& #[trigger] bound_name(after, key) != bound_name(before, key)
            &&& delivery == binding_delivery(registry, key, bound_name(after, key), generation)
        }
}

/// The same of any state that accounts for all changes since a baseline.
pub proof fn tracked_commit_tells_the_difference(
    baseline: Map<Seq<char>, BgpVrfConfigView>,
    bgp: BgpView,
    generation: u64,
)
    requires
        tracks(baseline, bgp),
    ensures
        ({
            let told = committed(bgp, generation).outbox.skip(bgp.outbox.len() as int);
            &&& forall|key: BindingKey|
                bgp.registry.contains_key(key.vrf) && #[trigger] bound_name(bgp.vrfs, key)
                    != bound_name(baseline, key) ==> told.contains(
                    binding_delivery(
                        bgp.registry,
                        key,
                        bound_name(bgp.vrfs, key),
                        generation,
                    ),
                )
            &&& forall|i: int|
                0 <= i < told.len() && ((#[trigger] told[i]).msg is PrefixSetConfig) ==> tells_of_change(
                    baseline,
                    bgp.vrfs,
                    bgp.registry,
                    generation,
                    told[i],
                )
        }),
{
    let after = committed(bgp, generation);
    let n = bgp.outbox.len();
    let told = after.outbox.skip(n as int);
    let at = commit_queues(bgp, generation);
    let wanted = |j: int|
        bgp.registry.contains_key(bgp.pending[j].key.vrf) && bound_name(
            bgp.vrfs,
            bgp.pending[j].key,
        ) != bgp.pending[j].before;
    binding_is_the_name(bgp.vrfs);
    binding_is_the_name(baseline);
    assert forall|key: BindingKey|
        bgp.registry.contains_key(key.vrf) && #[trigger] bound_name(bgp.vrfs, key) != bound_name(
            baseline,
            key,
        ) implies told.contains(
        binding_delivery(bgp.registry, key, bound_name(bgp.vrfs, key), generation),
    ) by {
        assert(binding(bgp.vrfs, key) == bound_name(bgp.vrfs, key));
        assert(binding(baseline, key) == bound_name(baseline, key));
        assert(touched(bgp.pending, key));
        let j = choose|j: int| 0 <= j < bgp.pending.len() && #[trigger] bgp.pending[j].key == key;
        assert(wanted(j));
        let i = choose|i: int| 0 <= i < at.len() && at[i] == j;
        assert(told[i] == after.outbox[n + i]);
    }
    assert forall|i: int|
        0 <= i < told.len() && ((#[trigger] told[i]).msg is PrefixSetConfig) implies tells_of_change(
        baseline,
        bgp.vrfs,
        bgp.registry,
        generation,
        told[i],
    ) by {
        assert(told[i] == after.outbox[n + i]);
        if i < at.len() {
            let key = bgp.pending[at[i]].key;
            assert(wanted(at[i]));
            assert(bgp.pending[at[i]].before == binding(baseline, key));
            assert(bound_name(bgp.vrfs, key) != bound_name(baseline, key));
        } else {
            let k = i - at.len();
            assert(after.outbox[n + at.len() + k] == told[i]);
        }
    }
}

/// The configuration of a VRF, an empty one where there is none.
pub open spec fn vrf_or_new(
    vrfs: Map<Seq<char>, BgpVrfConfigView>,
    name: Seq<char>,
) -> BgpVrfConfigView {
    if vrfs.contains_key(name) {
        vrfs[name]
    } else {
        BgpVrfConfigView::unset()
    }
}

/// The configuration of a neighbor, an empty one where there is none.
pub open spec fn neighbor_or_new(
    cfg: BgpVrfConfigView,
    address: IpAddr,
) -> BgpVrfNeighborConfigView {
    if cfg.neighbors.contains_key(address) {
        cfg.neighbors[address]
    } else {
        BgpVrfNeighborConfigView::unset()
    }
}

/// Whether a configuration is another one in which the name under a key is
/// exchanged: the entries on the way to it are there, and nothing else differs.
pub open spec fn only_binding_differs(
    after: Map<Seq<char>, BgpVrfConfigView>,
    before: Map<Seq<char>, BgpVrfConfigView>,
    key: BindingKey,
    name: Option<Seq<char>>,
) -> bool {
    let cfg = vrf_or_new(before, key.vrf);
    let neighbor = neighbor_or_new(cfg, key.address);
    let new_cfg = after[key.vrf];
    let new_neighbor = new_cfg.neighbors[key.address];
    let opposite = BindingKey {
        direction: if key.direction == InOut::Input {
            InOut::Output
        } else {
            InOut::Input
        },
        ..key
    };
    &&& after.contains_key(key.vrf)
    &&& forall|other: Seq<char>|
        other != key.vrf ==> #[trigger] after.contains_key(other) == before.contains_key(other)
            && after[other] == before[other]
    &&& new_cfg == BgpVrfConfigView { neighbors: new_cfg.neighbors, ..cfg }
    &&& new_cfg.neighbors.contains_key(key.address)
    &&& forall|other: IpAddr|
        other != key.address ==> #[trigger] new_cfg.neighbors.contains_key(other)
            == cfg.neighbors.contains_key(other) && new_cfg.neighbors[other]
            == cfg.neighbors[other]
    &&& new_neighbor == BgpVrfNeighborConfigView {
        prefix_set: new_neighbor.prefix_set,
        ..neighbor
    }
    &&& new_neighbor.prefix_set.contains_key(key.afi_safi)
    &&& forall|other: AfiSafi|
        other != key.afi_safi ==> #[trigger] new_neighbor.prefix_set.contains_key(other)
            == neighbor.prefix_set.contains_key(other) && new_neighbor.prefix_set[other]
            == neighbor.prefix_set[other]
    &&& bound_name(after, key) == name
    &&& bound_name(after, opposite) == bound_name(before, opposite)
}

/// Whether a transaction's records are others after a binding was staged: a
/// record of the name before is put behind them where the name is another now
/// and the key has no record yet.
pub open spec fn record_is_kept(
    after: Seq<PendingVrfPrefixSetChangeView>,
    before: Seq<PendingVrfPrefixSetChangeView>,
    key: BindingKey,
    old_name: Option<Seq<char>>,
    new_name: Option<Seq<char>>,
) -> bool {
    if old_name != new_name && (forall|i: int|
        0 <= i < before.len() ==> (#[trigger] before[i]).key != key) {
        after == before.push(PendingVrfPrefixSetChangeView { key, before: old_name })
    } else {
        after == before
    }
}

/// What the callback for a binding does, for every operation: an assignment
/// binds the name that it brings; a delete takes the name away where the entries
/// are there, and leaves all as it is where they are not; what else is called
/// does nothing. Nothing is sent.
pub proof fn binding_callback(
    bgp: BgpView,
    args: Seq<ArgView>,
    op: ConfigOp,
    direction: InOut,
)
    ensures
        ({
            let (after, r) = prefix_set_staged(bgp, args, op, direction);
            let name = string_arg(rest(rest(rest(args))));
            let key = BindingKey {
                vrf: string_arg(args)->0,
                address: addr_arg(rest(args))->0,
                afi_safi: afi_safi_arg(rest(rest(args)))->0,
                direction,
            };
            let reads = string_arg(args) is Some && addr_arg(rest(args)) is Some && afi_safi_arg(
                rest(rest(args)),
            ) is Some;
            let held = bgp.vrfs.contains_key(key.vrf) && bgp.vrfs[key.vrf].neighbors.contains_key(
                key.address,
            ) && bgp.vrfs[key.vrf].neighbors[key.address].prefix_set.contains_key(key.afi_safi);
            &&& after.registry == bgp.registry
            &&& after.outbox == bgp.outbox
            &&& if !reads || (op == ConfigOp::Assign && name is None) || (op == ConfigOp::Delete
                && !bgp.vrfs.contains_key(key.vrf)) {
                after == bgp && r is None
            } else if op == ConfigOp::Assign {
                &&& r is Some
                &&& only_binding_differs(after.vrfs, bgp.vrfs, key, name)
                &&& record_is_kept(
                    after.pending,
                    bgp.pending,
                    key,
                    bound_name(bgp.vrfs, key),
                    name,
                )
            } else if op == ConfigOp::Delete && held {
                &&& r is Some
                &&& only_binding_differs(after.vrfs, bgp.vrfs, key, None)
                &&& record_is_kept(
                    after.pending,
                    bgp.pending,
                    key,
                    bound_name(bgp.vrfs, key),
                    None,
                )
            } else {
                after == bgp && r is Some
            }
        }),
{
    let key = BindingKey {
        vrf: string_arg(args)->0,
        address: addr_arg(rest(args))->0,
        afi_safi: afi_safi_arg(rest(rest(args)))->0,
        direction,
    };
    assert(touched(bgp.pending, key) == !(forall|i: int|
        0 <= i < bgp.pending.len() ==> (#[trigger] bgp.pending[i]).key != key));
}

/// What exchanging a binding does to the configuration of a VRF, whatever it is
/// exchanged for: the entries on the way are there, the name is the new one, and
/// nothing else differs. An assignment gets there in any case, and a delete where
/// the family of the neighbor has bindings.
pub proof fn neighbor_binding_update(
    vrf: Seq<char>,
    cfg: BgpVrfConfigView,
    address: IpAddr,
    afi_safi: AfiSafi,
    direction: InOut,
    name: Option<Seq<char>>,
    op: ConfigOp,
)
    ensures
        ({
            let key = BindingKey { vrf, address, afi_safi, direction };
            let before = map![vrf => cfg];
            let after = map![vrf => with_binding(cfg, address, afi_safi, direction, name)];
            &&& cfg_binding(cfg, address, afi_safi, direction) == bound_name(before, key)
            &&& only_binding_differs(after, before, key, name)
            &&& binding_reached(cfg, address, afi_safi, op) == (op == ConfigOp::Assign || (op
                == ConfigOp::Delete && cfg.neighbors.contains_key(address)
                && cfg.neighbors[address].prefix_set.contains_key(afi_safi)))
        }),
{
}

} // verus!
