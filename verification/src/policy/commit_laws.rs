//! What holds of a commit of the policy service.

use vstd::prelude::*;
use crate::order::{in_order, in_order_enumerates, in_order_is};
use crate::policy::cascade::{cascade_deliveries, cascaded, names, needs_resync, resync_deliveries,
    stale, stale_entry};
use crate::policy::commit::{commit_deliveries, flat_map_front, key_chain_news, name_deliveries,
    policy_list_news, prefix_set_news, staged_body};
use crate::policy::inst::{commit_news, committed, current, inventory, is_vrf, next_generation,
    policies_installed, prefix_sets_after, sets_after, staged_policies, to_vrfs, touched,
    vrf_clients, PolicyView};
use crate::policy::list::{resolve, resolved, resolved_entry, PolicyList, PolicyListView, SetsView};
use crate::policy::message::{DeliveryView, PolicyRxView, PolicyWatchView};
use crate::policy::sets::{in_force, in_force_done, KeyChain, KeyChainView, MemberSet, MemberSetView,
    PrefixSet, PrefixSetView, Staged};
use crate::policy::syncer::{delivery, fanned_out, is_live, told, NewsView};

verus! {

/// The sets in force.
pub open spec fn current_sets(policy: PolicyView) -> SetsView {
    SetsView {
        prefix: policy.prefix.config,
        community: policy.community.config,
        ext_community: policy.ext_community.config,
        large_community: policy.large_community.config,
        as_path: policy.as_path.config,
    }
}

/// Whether every policy in force holds the sets in force under the names that
/// it refers to.
pub open spec fn in_sync(policies: Map<Seq<char>, PolicyListView>, sets: SetsView) -> bool {
    forall|name: Seq<char>| #[trigger]
        policies.contains_key(name) ==> resolved(policies[name], sets) == policies[name]
}

/// Resolving a policy twice is resolving it once.
proof fn resolved_twice(list: PolicyListView, sets: SetsView)
    ensures
        resolved(resolved(list, sets), sets) == resolved(list, sets),
{
    assert(resolved(resolved(list, sets), sets).entry =~= resolved(list, sets).entry);
}

/// A name that was not staged resolves after the commit as it did before.
proof fn resolve_untouched<T: Staged>(
    name: Option<Seq<char>>,
    config: Map<Seq<char>, T::V>,
    cache: Map<Seq<char>, T::V>,
)
    requires
        !names(name, cache.dom()),
    ensures
        resolve(name, in_force::<T>(config, cache)) == resolve(name, config),
{
}

/// A policy that refers to nothing staged resolves after the commit as it did
/// before.
proof fn resolved_untouched(policy: PolicyView, list: PolicyListView)
    requires
        !stale(list, touched(policy)),
    ensures
        resolved(list, sets_after(policy)) == resolved(list, current_sets(policy)),
{
    let before = current_sets(policy);
    let after = sets_after(policy);
    assert forall|number: u32| #[trigger] list.entry.contains_key(number) implies resolved_entry(
        list.entry[number],
        after,
    ) == resolved_entry(list.entry[number], before) by {
        let e = list.entry[number];
        assert(!stale_entry(e, touched(policy)));
        resolve_untouched::<PrefixSet>(
            e.prefix_set_name,
            policy.prefix.config,
            policy.prefix.cache,
        );
        resolve_untouched::<MemberSet>(
            e.community_set_name,
            policy.community.config,
            policy.community.cache,
        );
        if e.set_community is Some {
            resolve_untouched::<MemberSet>(
                Some(e.set_community->0.name),
                policy.community.config,
                policy.community.cache,
            );
        }
        resolve_untouched::<MemberSet>(
            e.ext_community_set_name,
            policy.ext_community.config,
            policy.ext_community.cache,
        );
        resolve_untouched::<MemberSet>(
            e.large_community_set_name,
            policy.large_community.config,
            policy.large_community.cache,
        );
        resolve_untouched::<MemberSet>(
            e.as_path_set_name,
            policy.as_path.config,
            policy.as_path.cache,
        );
    }
    assert(resolved(list, after).entry =~= resolved(list, before).entry);
}

/// A commit leaves every policy in step with the sets in force, if they were in
/// step before: a policy that was staged, one that refers to a staged set, and
/// one that does neither.
pub proof fn commit_keeps_policies_in_sync(policy: PolicyView, commit_generation: u64)
    requires
        in_sync(policy.policies.config, current_sets(policy)),
    ensures
        ({
            let after = committed(policy, commit_generation);
            in_sync(after.policies.config, current_sets(after))
        }),
{
    let sets = sets_after(policy);
    let changed = touched(policy);
    let installed = policies_installed(policy);
    let after = cascaded(installed, sets, changed);
    assert forall|name: Seq<char>| #[trigger] after.contains_key(name) implies resolved(
        after[name],
        sets,
    ) == after[name] by {
        if needs_resync(installed, changed, name) {
            resolved_twice(installed[name], sets);
        } else if policy.policies.cache.contains_key(name) {
            assert(staged_policies(policy).contains_key(name));
            resolved_twice(policy.policies.cache[name], sets);
        } else {
            assert(!staged_policies(policy).contains_key(name));
            assert(policy.policies.config.contains_key(name));
            resolved_untouched(policy, policy.policies.config[name]);
        }
    }
}

/// What one of a row of names brings is part of what the row brings.
proof fn flat_map_contains<A, B>(all: Seq<A>, name: A, f: spec_fn(A) -> Seq<B>, item: B)
    requires
        all.contains(name),
        f(name).contains(item),
    ensures
        all.flat_map(f).contains(item),
    decreases all.len(),
{
    flat_map_front(all, f);
    let i = choose|i: int| 0 <= i < all.len() && all[i] == name;
    let head = f(all[0]);
    let tail = all.drop_first().flat_map(f);
    if i == 0 {
        let j = choose|j: int| 0 <= j < head.len() && head[j] == item;
        assert((head + tail)[j] == item);
    } else {
        assert(all.drop_first()[i - 1] == name);
        flat_map_contains(all.drop_first(), name, f, item);
        let j = choose|j: int| 0 <= j < tail.len() && tail[j] == item;
        assert((head + tail)[head.len() + j] == item);
    }
}

/// A watch whose client is there is among those that are told.
proof fn live_watch_is_told(
    watch_map: Map<Seq<char>, Seq<PolicyWatchView>>,
    clients: Map<Seq<char>, u64>,
    name: Seq<char>,
    news: NewsView,
    watch: PolicyWatchView,
)
    requires
        watch_map.contains_key(name),
        watch_map[name].contains(watch),
        clients.contains_key(watch.proto),
    ensures
        fanned_out(watch_map, clients, name, news).contains(
            DeliveryView { tx: clients[watch.proto], msg: told(news, name, watch) },
        ),
{
    let all = watch_map[name];
    let live = all.filter(is_live(clients));
    let i = choose|i: int| 0 <= i < all.len() && all[i] == watch;
    all.lemma_filter_contains(is_live(clients), i);
    let j = choose|j: int| 0 <= j < live.len() && live[j] == watch;
    assert(fanned_out(watch_map, clients, name, news)[j] == delivery(clients, name, news)(watch));
}

/// A watch on a staged name is told of it.
proof fn staged_name_is_told<T: Staged>(
    watch_map: Map<Seq<char>, Seq<PolicyWatchView>>,
    clients: Map<Seq<char>, u64>,
    cache: Map<Seq<char>, T::V>,
    news: spec_fn(Option<T::V>) -> NewsView,
    name: Seq<char>,
    watch: PolicyWatchView,
)
    requires
        cache.dom().finite(),
        cache.contains_key(name),
        watch_map.contains_key(name),
        watch_map[name].contains(watch),
        clients.contains_key(watch.proto),
    ensures
        commit_deliveries::<T>(watch_map, clients, cache, news).contains(
            DeliveryView {
                tx: clients[watch.proto],
                msg: told(news(staged_body::<T>(cache, name)), name, watch),
            },
        ),
{
    let all = in_order::<String>(cache.dom());
    let f = name_deliveries::<T>(watch_map, clients, cache, news);
    let item = DeliveryView {
        tx: clients[watch.proto],
        msg: told(news(staged_body::<T>(cache, name)), name, watch),
    };
    in_order_enumerates::<String>(cache.dom());
    assert(all.to_set().contains(name));
    live_watch_is_told(watch_map, clients, name, news(staged_body::<T>(cache, name)), watch);
    flat_map_contains(all, name, f, item);
}

/// A part of a row is in the row.
proof fn part_contains<A>(a: Seq<A>, b: Seq<A>, item: A)
    ensures
        a.contains(item) ==> (a + b).contains(item),
        b.contains(item) ==> (a + b).contains(item),
{
    if a.contains(item) {
        let i = choose|i: int| 0 <= i < a.len() && a[i] == item;
        assert((a + b)[i] == item);
    }
    if b.contains(item) {
        let i = choose|i: int| 0 <= i < b.len() && b[i] == item;
        assert((a + b)[a.len() + i] == item);
    }
}

/// The parts of what a commit hands out.
proof fn news_parts(policy: PolicyView, generation: u64, item: DeliveryView)
    ensures
        to_vrfs(policy.clients, PolicyRxView::PrefixSetCommitStart { generation }).contains(item)
            ==> commit_news(policy, generation).contains(item),
        commit_deliveries::<PrefixSet>(
            policy.watch_prefix,
            policy.clients,
            policy.prefix.cache,
            prefix_set_news(generation),
        ).contains(item) ==> commit_news(policy, generation).contains(item),
        to_vrfs(
            policy.clients,
            PolicyRxView::PrefixSetInventory {
                generation,
                prefix_sets: prefix_sets_after(policy),
            },
        ).contains(item) ==> commit_news(policy, generation).contains(item),
        commit_deliveries::<KeyChain>(
            policy.watch_keychain,
            policy.clients,
            policy.key_chain.cache,
            key_chain_news(),
        ).contains(item) ==> commit_news(policy, generation).contains(item),
        commit_deliveries::<PolicyList>(
            policy.watch_policy,
            policy.clients,
            staged_policies(policy),
            policy_list_news(),
        ).contains(item) ==> commit_news(policy, generation).contains(item),
        cascade_deliveries(
            policy.watch_policy,
            policy.clients,
            policies_installed(policy),
            sets_after(policy),
            touched(policy),
        ).contains(item) ==> commit_news(policy, generation).contains(item),
{
    let a = to_vrfs(policy.clients, PolicyRxView::PrefixSetCommitStart { generation });
    let b = commit_deliveries::<PrefixSet>(
        policy.watch_prefix,
        policy.clients,
        policy.prefix.cache,
        prefix_set_news(generation),
    );
    let c = to_vrfs(
        policy.clients,
        PolicyRxView::PrefixSetInventory { generation, prefix_sets: prefix_sets_after(policy) },
    );
    let d = commit_deliveries::<KeyChain>(
        policy.watch_keychain,
        policy.clients,
        policy.key_chain.cache,
        key_chain_news(),
    );
    let e = commit_deliveries::<PolicyList>(
        policy.watch_policy,
        policy.clients,
        staged_policies(policy),
        policy_list_news(),
    );
    let f = cascade_deliveries(
        policy.watch_policy,
        policy.clients,
        policies_installed(policy),
        sets_after(policy),
        touched(policy),
    );
    part_contains(a, b, item);
    part_contains(a + b, c, item);
    part_contains(a + b + c, d, item);
    part_contains(a + b + c + d, e, item);
    part_contains(a + b + c + d + e, f, item);
}

/// Every watch on a prefix-set that was staged is told what has become of it,
/// as of the generation of the commit.
pub proof fn staged_prefix_set_is_told(
    policy: PolicyView,
    generation: u64,
    name: Seq<char>,
    watch: PolicyWatchView,
)
    requires
        policy.prefix.cache.dom().finite(),
        policy.prefix.cache.contains_key(name),
        policy.watch_prefix.contains_key(name),
        policy.watch_prefix[name].contains(watch),
        policy.clients.contains_key(watch.proto),
    ensures
        commit_news(policy, generation).contains(
            DeliveryView {
                tx: policy.clients[watch.proto],
                msg: PolicyRxView::PrefixSet {
                    generation,
                    name,
                    ident: watch.ident,
                    policy_type: watch.policy_type,
                    prefix_set: current(prefix_sets_after(policy), name),
                },
            },
        ),
{
    let item = DeliveryView {
        tx: policy.clients[watch.proto],
        msg: PolicyRxView::PrefixSet {
            generation,
            name,
            ident: watch.ident,
            policy_type: watch.policy_type,
            prefix_set: current(prefix_sets_after(policy), name),
        },
    };
    staged_name_is_told::<PrefixSet>(
        policy.watch_prefix,
        policy.clients,
        policy.prefix.cache,
        prefix_set_news(generation),
        name,
        watch,
    );
    news_parts(policy, generation, item);
}

/// Every watch on a key chain that was staged is told what has become of it.
pub proof fn staged_key_chain_is_told(
    policy: PolicyView,
    commit_generation: u64,
    name: Seq<char>,
    watch: PolicyWatchView,
)
    requires
        policy.key_chain.cache.dom().finite(),
        policy.key_chain.cache.contains_key(name),
        policy.watch_keychain.contains_key(name),
        policy.watch_keychain[name].contains(watch),
        policy.clients.contains_key(watch.proto),
    ensures
        ({
            let after = committed(policy, commit_generation);
            commit_news(policy, after.generation).contains(
                DeliveryView {
                    tx: policy.clients[watch.proto],
                    msg: PolicyRxView::KeyChain {
                        name,
                        ident: watch.ident,
                        policy_type: watch.policy_type,
                        key_chain: current(after.key_chain.config, name),
                    },
                },
            )
        }),
{
    let after = committed(policy, commit_generation);
    let item = DeliveryView {
        tx: policy.clients[watch.proto],
        msg: PolicyRxView::KeyChain {
            name,
            ident: watch.ident,
            policy_type: watch.policy_type,
            key_chain: current(after.key_chain.config, name),
        },
    };
    staged_name_is_told::<KeyChain>(
        policy.watch_keychain,
        policy.clients,
        policy.key_chain.cache,
        key_chain_news(),
        name,
        watch,
    );
    news_parts(policy, after.generation, item);
}

/// Every watch on a policy that comes out of a commit another than it went in
/// is told of it in its final form: whether it was staged itself or only refers
/// to a set that was.
pub proof fn changed_policy_is_told(
    policy: PolicyView,
    commit_generation: u64,
    name: Seq<char>,
    watch: PolicyWatchView,
)
    requires
        policy.policies.cache.dom().finite(),
        policy.policies.config.dom().finite(),
        policy.watch_policy.contains_key(name),
        policy.watch_policy[name].contains(watch),
        policy.clients.contains_key(watch.proto),
        current(committed(policy, commit_generation).policies.config, name) != current(
            policy.policies.config,
            name,
        ),
    ensures
        ({
            let after = committed(policy, commit_generation);
            commit_news(policy, after.generation).contains(
                DeliveryView {
                    tx: policy.clients[watch.proto],
                    msg: PolicyRxView::PolicyList {
                        name,
                        ident: watch.ident,
                        policy_type: watch.policy_type,
                        policy_list: current(after.policies.config, name),
                    },
                },
            )
        }),
{
    let after = committed(policy, commit_generation);
    let sets = sets_after(policy);
    let changed = touched(policy);
    let installed = policies_installed(policy);
    let staged = staged_policies(policy);
    let item = DeliveryView {
        tx: policy.clients[watch.proto],
        msg: PolicyRxView::PolicyList {
            name,
            ident: watch.ident,
            policy_type: watch.policy_type,
            policy_list: current(after.policies.config, name),
        },
    };
    news_parts(policy, after.generation, item);
    assert(staged.dom() =~= policy.policies.cache.dom());
    if policy.policies.cache.contains_key(name) {
        assert(staged.contains_key(name));
        staged_name_is_told::<PolicyList>(
            policy.watch_policy,
            policy.clients,
            staged,
            policy_list_news(),
            name,
            watch,
        );
    } else {
        assert(!staged.contains_key(name));
        assert(needs_resync(installed, changed, name));
        let all = in_order::<String>(installed.dom());
        let f = resync_deliveries(
            policy.watch_policy,
            policy.clients,
            installed,
            sets,
            changed,
        );
        let news = NewsView::PolicyList { policy_list: Some(resolved(installed[name], sets)) };
        live_watch_is_told(policy.watch_policy, policy.clients, name, news, watch);
        assert(installed.dom().subset_of(policy.policies.config.dom().union(staged.dom())));
        vstd::set_lib::lemma_len_subset(
            installed.dom(),
            policy.policies.config.dom().union(staged.dom()),
        );
        in_order_enumerates::<String>(installed.dom());
        assert(all.to_set().contains(name));
        flat_map_contains(all, name, f, item);
    }
}

/// A policy that was staged is not told of a second time, and a policy that
/// refers to nothing staged is not told of at all.
pub proof fn cascade_spares_the_others(policy: PolicyView, name: Seq<char>)
    ensures
        policy.policies.cache.contains_key(name) || (policies_installed(policy).contains_key(name)
            && !stale(policies_installed(policy)[name], touched(policy))) ==> resync_deliveries(
            policy.watch_policy,
            policy.clients,
            policies_installed(policy),
            sets_after(policy),
            touched(policy),
        )(name) == Seq::<DeliveryView>::empty(),
{
}

/// For a VRF the prefix-sets of a commit stand between its start and the list
/// of all prefix-sets in force, and all three are of one generation.
pub proof fn commit_is_framed(policy: PolicyView, commit_generation: u64)
    requires
        policy.clients.dom().finite(),
    ensures
        ({
            let after = committed(policy, commit_generation);
            let generation = after.generation;
            let start = to_vrfs(
                policy.clients,
                PolicyRxView::PrefixSetCommitStart { generation },
            );
            let sets = commit_deliveries::<PrefixSet>(
                policy.watch_prefix,
                policy.clients,
                policy.prefix.cache,
                prefix_set_news(generation),
            );
            let end = to_vrfs(policy.clients, inventory(after));
            &&& generation == next_generation(policy.generation, commit_generation)
            &&& (policy.outbox + start + sets + end).is_prefix_of(after.outbox)
            &&& start.len() == end.len()
            &&& forall|proto: Seq<char>| #[trigger]
                policy.clients.contains_key(proto) && is_vrf(proto) ==> start.contains(
                    DeliveryView {
                        tx: policy.clients[proto],
                        msg: PolicyRxView::PrefixSetCommitStart { generation },
                    },
                ) && end.contains(
                    DeliveryView { tx: policy.clients[proto], msg: inventory(after) },
                )
        }),
{
    let after = committed(policy, commit_generation);
    let generation = after.generation;
    let start_msg = PolicyRxView::PrefixSetCommitStart { generation };
    let start = to_vrfs(policy.clients, start_msg);
    let sets = commit_deliveries::<PrefixSet>(
        policy.watch_prefix,
        policy.clients,
        policy.prefix.cache,
        prefix_set_news(generation),
    );
    let end = to_vrfs(policy.clients, inventory(after));
    let head = policy.outbox + start + sets + end;
    assert(head =~= after.outbox.subrange(0, head.len() as int));
    let all = in_order::<String>(policy.clients.dom());
    let vrfs = vrf_clients(policy.clients);
    let pred = |proto: Seq<char>| is_vrf(proto);
    in_order_enumerates::<String>(policy.clients.dom());
    assert forall|proto: Seq<char>| #[trigger]
        policy.clients.contains_key(proto) && is_vrf(proto) implies start.contains(
        DeliveryView { tx: policy.clients[proto], msg: start_msg },
    ) && end.contains(DeliveryView { tx: policy.clients[proto], msg: inventory(after) }) by {
        assert(all.to_set().contains(proto));
        let i = choose|i: int| 0 <= i < all.len() && all[i] == proto;
        all.lemma_filter_contains(pred, i);
        let j = choose|j: int| 0 <= j < vrfs.len() && vrfs[j] == proto;
        assert(start[j] == DeliveryView { tx: policy.clients[proto], msg: start_msg });
        assert(end[j] == DeliveryView { tx: policy.clients[proto], msg: inventory(after) });
    }
}

/// Whether nothing is staged.
pub open spec fn nothing_staged(policy: PolicyView) -> bool {
    &&& policy.policies.cache == Map::<Seq<char>, PolicyListView>::empty()
    &&& policy.prefix.cache == Map::<Seq<char>, PrefixSetView>::empty()
    &&& policy.community.cache == Map::<Seq<char>, MemberSetView>::empty()
    &&& policy.ext_community.cache == Map::<Seq<char>, MemberSetView>::empty()
    &&& policy.large_community.cache == Map::<Seq<char>, MemberSetView>::empty()
    &&& policy.as_path.cache == Map::<Seq<char>, MemberSetView>::empty()
    &&& policy.key_chain.cache == Map::<Seq<char>, KeyChainView>::empty()
}

/// Nothing is told of nothing.
proof fn no_deliveries<T: Staged>(
    watch_map: Map<Seq<char>, Seq<PolicyWatchView>>,
    clients: Map<Seq<char>, u64>,
    news: spec_fn(Option<T::V>) -> NewsView,
)
    ensures
        commit_deliveries::<T>(watch_map, clients, Map::empty(), news) == Seq::<
            DeliveryView,
        >::empty(),
{
    in_order_is::<String>(Seq::empty());
    assert(Seq::<Seq<char>>::empty().to_set() =~= Map::<Seq<char>, T::V>::empty().dom());
}

/// Where each of a row of names brings nothing, so does the row.
proof fn flat_map_nothing<A, B>(all: Seq<A>, f: spec_fn(A) -> Seq<B>)
    requires
        forall|name: A| #[trigger] f(name) == Seq::<B>::empty(),
    ensures
        all.flat_map(f) == Seq::<B>::empty(),
    decreases all.len(),
{
    if all.len() > 0 {
        flat_map_front(all, f);
        flat_map_nothing(all.drop_first(), f);
        assert(f(all[0]) == Seq::<B>::empty());
    }
    assert(all.flat_map(f) =~= Seq::<B>::empty());
}

/// A commit leaves nothing staged. A commit with nothing staged changes nothing
/// that is in force, and tells only the VRFs, which get the two ends of its
/// frame.
pub proof fn idle_commit_is_quiet(policy: PolicyView, commit_generation: u64)
    ensures
        nothing_staged(committed(policy, commit_generation)),
        nothing_staged(policy) ==> {
            let after = committed(policy, commit_generation);
            &&& after.policies == policy.policies
            &&& after.prefix == policy.prefix
            &&& after.community == policy.community
            &&& after.ext_community == policy.ext_community
            &&& after.large_community == policy.large_community
            &&& after.as_path == policy.as_path
            &&& after.key_chain == policy.key_chain
            &&& after.outbox == policy.outbox + to_vrfs(
                policy.clients,
                PolicyRxView::PrefixSetCommitStart { generation: after.generation },
            ) + to_vrfs(policy.clients, inventory(after))
        },
{
    if nothing_staged(policy) {
        let after = committed(policy, commit_generation);
        let sets = sets_after(policy);
        let changed = touched(policy);
        in_force_done::<PrefixSet>(policy.prefix.config);
        in_force_done::<MemberSet>(policy.community.config);
        in_force_done::<MemberSet>(policy.ext_community.config);
        in_force_done::<MemberSet>(policy.large_community.config);
        in_force_done::<MemberSet>(policy.as_path.config);
        in_force_done::<KeyChain>(policy.key_chain.config);
        in_force_done::<PolicyList>(policy.policies.config);
        assert(staged_policies(policy) =~= Map::empty());
        let installed = policies_installed(policy);
        assert(installed == policy.policies.config);
        let f = resync_deliveries(policy.watch_policy, policy.clients, installed, sets, changed);
        assert forall|name: Seq<char>| !needs_resync(installed, changed, name) by {}
        assert(cascaded(installed, sets, changed) =~= installed);
        flat_map_nothing(in_order::<String>(installed.dom()), f);
        no_deliveries::<PrefixSet>(
            policy.watch_prefix,
            policy.clients,
            prefix_set_news(after.generation),
        );
        no_deliveries::<KeyChain>(policy.watch_keychain, policy.clients, key_chain_news());
        no_deliveries::<PolicyList>(policy.watch_policy, policy.clients, policy_list_news());
        assert(after.outbox =~= policy.outbox + to_vrfs(
            policy.clients,
            PolicyRxView::PrefixSetCommitStart { generation: after.generation },
        ) + to_vrfs(policy.clients, inventory(after)));
    }
}

} // verus!
