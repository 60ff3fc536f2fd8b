//! What a commit hands out, delivery by delivery.

use vstd::prelude::*;
use crate::order::{in_order, in_order_enumerates};
use crate::policy::cascade::{needs_resync, resync_deliveries, stale, stale_entry};
use crate::policy::commit::{flat_map_back, key_chain_news, name_deliveries, policy_list_news,
    prefix_set_news};
use crate::policy::inst::{committed, is_vrf, policies_installed, received, sets_after,
    staged_policies, to_vrfs, touched, PolicyView};
use crate::policy::list::{PolicyEntryView, PolicyList, PolicyListView};
use crate::policy::message::{DeliveryView, MessageView, PolicyRxView, PolicyType, PolicyWatchView};
use crate::policy::sets::{KeyChain, KeyChainView, PrefixSet, PrefixSetView, SetConfigView};
use crate::policy::request_laws::row;
use crate::policy::syncer::{delivery, fanned_out, is_live, NewsView};
use crate::rows::{filter_picks, picks};

verus! {

/// What is under a name, none where nothing is.
pub open spec fn under<M>(map: Map<Seq<char>, M>, name: Seq<char>) -> Option<M> {
    if map.contains_key(name) {
        Some(map[name])
    } else {
        None
    }
}

/// Whether a name begins with `bgp:vrf:`.
pub open spec fn names_a_vrf(proto: Seq<char>) -> bool {
    proto.len() >= 8 && proto.take(8) == seq!['b', 'g', 'p', ':', 'v', 'r', 'f', ':']
}

proof fn vrf_names(proto: Seq<char>)
    ensures
        is_vrf(proto) == names_a_vrf(proto),
{
    reveal_strlit("bgp:vrf:");
    let mark = seq!['b', 'g', 'p', ':', 'v', 'r', 'f', ':'];
    assert("bgp:vrf:"@ =~= mark);
    if mark.is_prefix_of(proto) {
        assert(proto.take(8) =~= mark);
    } else if proto.len() >= 8 && proto.take(8) == mark {
        assert(mark =~= proto.subrange(0, 8));
    }
}

/// The deliveries that a row of watches makes: one for each watch whose client
/// is there, one after the other.
pub open spec fn row_deliveries(
    watches: Seq<PolicyWatchView>,
    clients: Map<Seq<char>, u64>,
    msg: spec_fn(PolicyWatchView) -> PolicyRxView,
) -> Seq<DeliveryView>
    decreases watches.len(),
{
    if watches.len() == 0 {
        Seq::empty()
    } else {
        let before = row_deliveries(watches.drop_last(), clients, msg);
        let watch = watches.last();
        if clients.contains_key(watch.proto) {
            before.push(DeliveryView { tx: clients[watch.proto], msg: msg(watch) })
        } else {
            before
        }
    }
}

/// The deliveries that a row of names makes, one name after the other.
pub open spec fn all_deliveries(
    names: Seq<Seq<char>>,
    of: spec_fn(Seq<char>) -> Seq<DeliveryView>,
) -> Seq<DeliveryView>
    decreases names.len(),
{
    if names.len() == 0 {
        Seq::empty()
    } else {
        all_deliveries(names.drop_last(), of) + of(names.last())
    }
}

/// One delivery for each client whose name begins with `bgp:vrf:`.
pub open spec fn vrf_deliveries(
    protos: Seq<Seq<char>>,
    clients: Map<Seq<char>, u64>,
    msg: PolicyRxView,
) -> Seq<DeliveryView>
    decreases protos.len(),
{
    if protos.len() == 0 {
        Seq::empty()
    } else {
        let before = vrf_deliveries(protos.drop_last(), clients, msg);
        if names_a_vrf(protos.last()) {
            before.push(DeliveryView { tx: clients[protos.last()], msg })
        } else {
            before
        }
    }
}

proof fn vrf_deliveries_are(
    protos: Seq<Seq<char>>,
    clients: Map<Seq<char>, u64>,
    msg: PolicyRxView,
)
    ensures
        vrf_deliveries(protos, clients, msg) == protos.filter(
            |proto: Seq<char>| is_vrf(proto),
        ).map_values(|proto: Seq<char>| DeliveryView { tx: clients[proto], msg }),
    decreases protos.len(),
{
    reveal(Seq::filter);
    let f = |proto: Seq<char>| DeliveryView { tx: clients[proto], msg };
    let pred = |proto: Seq<char>| is_vrf(proto);
    if protos.len() > 0 {
        vrf_deliveries_are(protos.drop_last(), clients, msg);
        vrf_names(protos.last());
    }
    assert(vrf_deliveries(protos, clients, msg) =~= protos.filter(pred).map_values(f));
}

proof fn row_deliveries_are(
    watches: Seq<PolicyWatchView>,
    clients: Map<Seq<char>, u64>,
    name: Seq<char>,
    news: NewsView,
    msg: spec_fn(PolicyWatchView) -> PolicyRxView,
)
    requires
        forall|watch: PolicyWatchView|
            delivery(clients, name, news)(watch) == (DeliveryView {
                tx: clients[watch.proto],
                msg: #[trigger] msg(watch),
            }),
    ensures
        row_deliveries(watches, clients, msg) == watches.filter(is_live(clients)).map_values(
            delivery(clients, name, news),
        ),
    decreases watches.len(),
{
    reveal(Seq::filter);
    if watches.len() > 0 {
        row_deliveries_are(watches.drop_last(), clients, name, news, msg);
        assert(msg(watches.last()) == msg(watches.last()));
    }
    assert(row_deliveries(watches, clients, msg) =~= watches.filter(is_live(clients)).map_values(
        delivery(clients, name, news),
    ));
}

proof fn fanned_out_is(
    watch_map: Map<Seq<char>, Seq<PolicyWatchView>>,
    clients: Map<Seq<char>, u64>,
    name: Seq<char>,
    news: NewsView,
    msg: spec_fn(PolicyWatchView) -> PolicyRxView,
)
    requires
        forall|watch: PolicyWatchView|
            delivery(clients, name, news)(watch) == (DeliveryView {
                tx: clients[watch.proto],
                msg: #[trigger] msg(watch),
            }),
    ensures
        row_deliveries(row(watch_map, name), clients, msg) == fanned_out(
            watch_map,
            clients,
            name,
            news,
        ),
{
    row_deliveries_are(row(watch_map, name), clients, name, news, msg);
    reveal(Seq::filter);
    assert(row_deliveries(row(watch_map, name), clients, msg) =~= fanned_out(
        watch_map,
        clients,
        name,
        news,
    ));
}

proof fn all_deliveries_are(
    names: Seq<Seq<char>>,
    of: spec_fn(Seq<char>) -> Seq<DeliveryView>,
    f: spec_fn(Seq<char>) -> Seq<DeliveryView>,
)
    requires
        forall|i: int| 0 <= i < names.len() ==> of(#[trigger] names[i]) == f(names[i]),
    ensures
        all_deliveries(names, of) == names.flat_map(f),
    decreases names.len(),
{
    if names.len() > 0 {
        let front = names.drop_last();
        assert forall|i: int| 0 <= i < front.len() implies of(#[trigger] front[i]) == f(
            front[i],
        ) by {
            assert(of(names[i]) == f(names[i]));
        }
        all_deliveries_are(front, of, f);
        flat_map_back(front, names.last(), f);
        assert(names =~= front.push(names.last()));
        assert(of(names[names.len() - 1]) == f(names[names.len() - 1]));
    } else {
        assert(all_deliveries(names, of) =~= names.flat_map(f));
    }
}

/// The news of a prefix-set goes to its watches as the prefix-set in force.
pub open spec fn prefix_set_row(policy: PolicyView, after: PolicyView) -> spec_fn(
    Seq<char>,
) -> Seq<DeliveryView> {
    |name: Seq<char>|
        row_deliveries(
            row(policy.watch_prefix, name),
            policy.clients,
            |watch: PolicyWatchView|
                PolicyRxView::PrefixSet {
                    generation: after.generation,
                    name,
                    ident: watch.ident,
                    policy_type: watch.policy_type,
                    prefix_set: under(after.prefix.config, name),
                },
        )
}

/// The news of a key chain goes to its watches as the key chain in force.
pub open spec fn key_chain_row(policy: PolicyView, after: PolicyView) -> spec_fn(
    Seq<char>,
) -> Seq<DeliveryView> {
    |name: Seq<char>|
        row_deliveries(
            row(policy.watch_keychain, name),
            policy.clients,
            |watch: PolicyWatchView|
                PolicyRxView::KeyChain {
                    name,
                    ident: watch.ident,
                    policy_type: watch.policy_type,
                    key_chain: under(after.key_chain.config, name),
                },
        )
}

/// The news of a policy goes to its watches as the policy in force.
pub open spec fn policy_row(policy: PolicyView, after: PolicyView) -> spec_fn(
    Seq<char>,
) -> Seq<DeliveryView> {
    |name: Seq<char>|
        row_deliveries(
            row(policy.watch_policy, name),
            policy.clients,
            |watch: PolicyWatchView|
                PolicyRxView::PolicyList {
                    name,
                    ident: watch.ident,
                    policy_type: watch.policy_type,
                    policy_list: under(after.policies.config, name),
                },
        )
}

/// Whether an entry refers to a set that is staged.
pub open spec fn refers_to_staged(entry: PolicyEntryView, policy: PolicyView) -> bool {
    ||| entry.prefix_set_name is Some && policy.prefix.cache.contains_key(
        entry.prefix_set_name->0,
    )
    ||| entry.community_set_name is Some && policy.community.cache.contains_key(
        entry.community_set_name->0,
    )
    ||| entry.set_community is Some && policy.community.cache.contains_key(
        entry.set_community->0.name,
    )
    ||| entry.ext_community_set_name is Some && policy.ext_community.cache.contains_key(
        entry.ext_community_set_name->0,
    )
    ||| entry.large_community_set_name is Some && policy.large_community.cache.contains_key(
        entry.large_community_set_name->0,
    )
    ||| entry.as_path_set_name is Some && policy.as_path.cache.contains_key(
        entry.as_path_set_name->0,
    )
}

/// Whether a commit reaches a policy by the sets alone: the policy is in force,
/// is not staged, and has an entry that refers to a staged set.
pub open spec fn reached_by_sets(policy: PolicyView, name: Seq<char>) -> bool {
    &&& policy.policies.config.contains_key(name)
    &&& !policy.policies.cache.contains_key(name)
    &&& exists|number: u32| #[trigger]
        policy.policies.config[name].entry.contains_key(number) && refers_to_staged(
            policy.policies.config[name].entry[number],
            policy,
        )
}

/// The news of a policy that a commit reaches by the sets alone.
pub open spec fn reached_row(policy: PolicyView, after: PolicyView) -> spec_fn(
    Seq<char>,
) -> Seq<DeliveryView> {
    |name: Seq<char>|
        if reached_by_sets(policy, name) {
            policy_row(policy, after)(name)
        } else {
            Seq::empty()
        }
}

/// Where a commit reaches a policy by the sets alone.
proof fn reached_is_needed(policy: PolicyView, name: Seq<char>)
    ensures
        reached_by_sets(policy, name) == needs_resync(
            policies_installed(policy),
            touched(policy),
            name,
        ),
{
    let changed = touched(policy);
    let installed = policies_installed(policy);
    assert(staged_policies(policy).contains_key(name) == policy.policies.cache.contains_key(name));
    if policy.policies.config.contains_key(name) && !policy.policies.cache.contains_key(name) {
        let list = policy.policies.config[name];
        assert(installed[name] == list);
        assert forall|number: u32| #[trigger] list.entry.contains_key(number) implies (
        refers_to_staged(list.entry[number], policy) == stale_entry(
            list.entry[number],
            changed,
        )) by {}
        if reached_by_sets(policy, name) {
            let number = choose|number: u32| #[trigger]
                list.entry.contains_key(number) && refers_to_staged(list.entry[number], policy);
            assert(list.entry.contains_key(number) && stale_entry(list.entry[number], changed));
        }
        if stale(list, changed) {
            let number = choose|number: u32| #[trigger]
                list.entry.contains_key(number) && stale_entry(list.entry[number], changed);
            assert(list.entry.contains_key(number) && refers_to_staged(
                list.entry[number],
                policy,
            ));
        }
    }
}

/// What a commit hands out, in full and in order: its start to all VRFs, the
/// staged prefix-sets to their watches, the list of all prefix-sets to all VRFs,
/// the staged key chains, the staged policies, and the policies that the commit
/// reaches by the sets alone. Names are taken in their order and watches in the
/// order of registration, and every body is the one in force after the commit.
pub proof fn commit_hands_out(policy: PolicyView, commit_generation: u64)
    requires
        policy.prefix.cache.dom().finite(),
        policy.key_chain.cache.dom().finite(),
        policy.policies.cache.dom().finite(),
        policy.policies.config.dom().finite(),
    ensures
        ({
            let after = committed(policy, commit_generation);
            let protos = in_order::<String>(policy.clients.dom());
            after.outbox == policy.outbox + vrf_deliveries(
                protos,
                policy.clients,
                PolicyRxView::PrefixSetCommitStart { generation: after.generation },
            ) + all_deliveries(
                in_order::<String>(policy.prefix.cache.dom()),
                prefix_set_row(policy, after),
            ) + vrf_deliveries(
                protos,
                policy.clients,
                PolicyRxView::PrefixSetInventory {
                    generation: after.generation,
                    prefix_sets: after.prefix.config,
                },
            ) + all_deliveries(
                in_order::<String>(policy.key_chain.cache.dom()),
                key_chain_row(policy, after),
            ) + all_deliveries(
                in_order::<String>(policy.policies.cache.dom()),
                policy_row(policy, after),
            ) + all_deliveries(
                in_order::<String>(after.policies.config.dom()),
                reached_row(policy, after),
            )
        }),
{
    let after = committed(policy, commit_generation);
    let generation = after.generation;
    let clients = policy.clients;
    let protos = in_order::<String>(clients.dom());
    let start = PolicyRxView::PrefixSetCommitStart { generation };
    let end = PolicyRxView::PrefixSetInventory { generation, prefix_sets: after.prefix.config };
    vrf_deliveries_are(protos, clients, start);
    vrf_deliveries_are(protos, clients, end);
    assert(to_vrfs(clients, start) == vrf_deliveries(protos, clients, start));
    assert(to_vrfs(clients, end) == vrf_deliveries(protos, clients, end));

    let prefix_names = in_order::<String>(policy.prefix.cache.dom());
    let f = name_deliveries::<PrefixSet>(
        policy.watch_prefix,
        clients,
        policy.prefix.cache,
        prefix_set_news(generation),
    );
    in_order_enumerates::<String>(policy.prefix.cache.dom());
    assert forall|i: int| 0 <= i < prefix_names.len() implies prefix_set_row(policy, after)(
        #[trigger] prefix_names[i],
    ) == f(prefix_names[i]) by {
        let name = prefix_names[i];
        assert(prefix_names.to_set().contains(name));
        let news = NewsView::PrefixSet { generation, prefix_set: under(after.prefix.config, name) };
        let msg = |watch: PolicyWatchView|
            PolicyRxView::PrefixSet {
                generation: after.generation,
                name,
                ident: watch.ident,
                policy_type: watch.policy_type,
                prefix_set: under(after.prefix.config, name),
            };
        fanned_out_is(policy.watch_prefix, clients, name, news, msg);
    }
    all_deliveries_are(prefix_names, prefix_set_row(policy, after), f);

    let chain_names = in_order::<String>(policy.key_chain.cache.dom());
    let g = name_deliveries::<KeyChain>(
        policy.watch_keychain,
        clients,
        policy.key_chain.cache,
        key_chain_news(),
    );
    in_order_enumerates::<String>(policy.key_chain.cache.dom());
    assert forall|i: int| 0 <= i < chain_names.len() implies key_chain_row(policy, after)(
        #[trigger] chain_names[i],
    ) == g(chain_names[i]) by {
        let name = chain_names[i];
        assert(chain_names.to_set().contains(name));
        let news = NewsView::KeyChain { key_chain: under(after.key_chain.config, name) };
        let msg = |watch: PolicyWatchView|
            PolicyRxView::KeyChain {
                name,
                ident: watch.ident,
                policy_type: watch.policy_type,
                key_chain: under(after.key_chain.config, name),
            };
        fanned_out_is(policy.watch_keychain, clients, name, news, msg);
    }
    all_deliveries_are(chain_names, key_chain_row(policy, after), g);

    policies_handed_out(policy, commit_generation);
}

/// The part of the policies.
proof fn policies_handed_out(policy: PolicyView, commit_generation: u64)
    requires
        policy.policies.cache.dom().finite(),
        policy.policies.config.dom().finite(),
    ensures
        ({
            let after = committed(policy, commit_generation);
            let f = name_deliveries::<PolicyList>(
                policy.watch_policy,
                policy.clients,
                staged_policies(policy),
                policy_list_news(),
            );
            let g = resync_deliveries(
                policy.watch_policy,
                policy.clients,
                policies_installed(policy),
                sets_after(policy),
                touched(policy),
            );
            &&& all_deliveries(
                in_order::<String>(policy.policies.cache.dom()),
                policy_row(policy, after),
            ) == in_order::<String>(staged_policies(policy).dom()).flat_map(f)
            &&& all_deliveries(
                in_order::<String>(after.policies.config.dom()),
                reached_row(policy, after),
            ) == in_order::<String>(policies_installed(policy).dom()).flat_map(g)
        }),
{
    let after = committed(policy, commit_generation);
    let clients = policy.clients;
    let staged = staged_policies(policy);
    let installed = policies_installed(policy);
    let f = name_deliveries::<PolicyList>(policy.watch_policy, clients, staged, policy_list_news());
    let g = resync_deliveries(
        policy.watch_policy,
        clients,
        installed,
        sets_after(policy),
        touched(policy),
    );
    assert(staged.dom() =~= policy.policies.cache.dom());
    assert(after.policies.config.dom() =~= installed.dom());
    let names = in_order::<String>(policy.policies.cache.dom());
    in_order_enumerates::<String>(policy.policies.cache.dom());
    assert forall|i: int| 0 <= i < names.len() implies policy_row(policy, after)(
        #[trigger] names[i],
    ) == f(names[i]) by {
        let name = names[i];
        assert(names.to_set().contains(name));
        assert(staged.contains_key(name));
        reached_is_needed(policy, name);
        policy_row_is(policy, after, name);
    }
    all_deliveries_are(names, policy_row(policy, after), f);
    let held = in_order::<String>(installed.dom());
    assert forall|i: int| 0 <= i < held.len() implies reached_row(policy, after)(
        #[trigger] held[i],
    ) == g(held[i]) by {
        let name = held[i];
        reached_is_needed(policy, name);
        policy_row_is(policy, after, name);
    }
    all_deliveries_are(held, reached_row(policy, after), g);
}

proof fn policy_row_is(policy: PolicyView, after: PolicyView, name: Seq<char>)
    ensures
        policy_row(policy, after)(name) == fanned_out(
            policy.watch_policy,
            policy.clients,
            name,
            NewsView::PolicyList { policy_list: under(after.policies.config, name) },
        ),
{
    let news = NewsView::PolicyList { policy_list: under(after.policies.config, name) };
    let msg = |watch: PolicyWatchView|
        PolicyRxView::PolicyList {
            name,
            ident: watch.ident,
            policy_type: watch.policy_type,
            policy_list: under(after.policies.config, name),
        };
    fanned_out_is(policy.watch_policy, policy.clients, name, news, msg);
}

/// A row of watches makes a delivery for each watch whose client is there.
proof fn row_delivers(
    watches: Seq<PolicyWatchView>,
    clients: Map<Seq<char>, u64>,
    msg: spec_fn(PolicyWatchView) -> PolicyRxView,
    watch: PolicyWatchView,
)
    requires
        watches.contains(watch),
        clients.contains_key(watch.proto),
    ensures
        row_deliveries(watches, clients, msg).contains(
            DeliveryView { tx: clients[watch.proto], msg: msg(watch) },
        ),
    decreases watches.len(),
{
    let all = row_deliveries(watches, clients, msg);
    let item = DeliveryView { tx: clients[watch.proto], msg: msg(watch) };
    let front = watches.drop_last();
    if watches.last() == watch {
        assert(all.last() == item);
    } else {
        let i = choose|i: int| 0 <= i < watches.len() && watches[i] == watch;
        assert(front[i] == watch);
        row_delivers(front, clients, msg, watch);
        let before = row_deliveries(front, clients, msg);
        let j = choose|j: int| 0 <= j < before.len() && before[j] == item;
        assert(all[j] == item);
    }
}

/// A row of names makes the deliveries of each of them.
proof fn names_deliver(
    names: Seq<Seq<char>>,
    of: spec_fn(Seq<char>) -> Seq<DeliveryView>,
    name: Seq<char>,
    item: DeliveryView,
)
    requires
        names.contains(name),
        of(name).contains(item),
    ensures
        all_deliveries(names, of).contains(item),
    decreases names.len(),
{
    let front = names.drop_last();
    let head = all_deliveries(front, of);
    let tail = of(names.last());
    if names.last() == name {
        let j = choose|j: int| 0 <= j < tail.len() && tail[j] == item;
        assert((head + tail)[head.len() + j] == item);
    } else {
        let i = choose|i: int| 0 <= i < names.len() && names[i] == name;
        assert(front[i] == name);
        names_deliver(front, of, name, item);
        let j = choose|j: int| 0 <= j < head.len() && head[j] == item;
        assert((head + tail)[j] == item);
    }
}

/// A part of a row is in the row, wherever the row goes on.
proof fn in_parts<A>(a: Seq<A>, b: Seq<A>, c: Seq<A>, item: A)
    requires
        b.contains(item),
    ensures
        (a + b + c).contains(item),
{
    let i = choose|i: int| 0 <= i < b.len() && b[i] == item;
    assert((a + b + c)[a.len() + i] == item);
}

/// Once a client has registered, it hears of every commit of the name: whatever
/// is staged under the name next, the commit hands the client its final form,
/// with the ident and the type of the registration.
pub proof fn registered_client_hears_of_commits(
    policy: PolicyView,
    proto: Seq<char>,
    name: Seq<char>,
    ident: usize,
    policy_type: PolicyType,
    set: PrefixSetView,
    list: PolicyListView,
    chain: KeyChainView,
    commit_generation: u64,
)
    requires
        policy.clients.contains_key(proto),
        policy.prefix.cache.dom().finite(),
        policy.key_chain.cache.dom().finite(),
        policy.policies.cache.dom().finite(),
        policy.policies.config.dom().finite(),
    ensures
        ({
            let registered = received(
                policy,
                MessageView::Register { proto, name, ident, policy_type },
            );
            let staged = PolicyView {
                prefix: SetConfigView {
                    cache: registered.prefix.cache.insert(name, set),
                    ..registered.prefix
                },
                policies: SetConfigView {
                    cache: registered.policies.cache.insert(name, list),
                    ..registered.policies
                },
                key_chain: SetConfigView {
                    cache: registered.key_chain.cache.insert(name, chain),
                    ..registered.key_chain
                },
                ..registered
            };
            let after = committed(staged, commit_generation);
            let news = after.outbox.skip(staged.outbox.len() as int);
            news.contains(
                DeliveryView {
                    tx: policy.clients[proto],
                    msg: if policy_type is PrefixSetIn || policy_type is PrefixSetOut {
                        PolicyRxView::PrefixSet {
                            generation: after.generation,
                            name,
                            ident,
                            policy_type,
                            prefix_set: under(after.prefix.config, name),
                        }
                    } else if policy_type is KeyChain {
                        PolicyRxView::KeyChain {
                            name,
                            ident,
                            policy_type,
                            key_chain: under(after.key_chain.config, name),
                        }
                    } else {
                        PolicyRxView::PolicyList {
                            name,
                            ident,
                            policy_type,
                            policy_list: under(after.policies.config, name),
                        }
                    },
                },
            )
        }),
{
    let registered = received(policy, MessageView::Register { proto, name, ident, policy_type });
    let staged = PolicyView {
        prefix: SetConfigView {
            cache: registered.prefix.cache.insert(name, set),
            ..registered.prefix
        },
        policies: SetConfigView {
            cache: registered.policies.cache.insert(name, list),
            ..registered.policies
        },
        key_chain: SetConfigView {
            cache: registered.key_chain.cache.insert(name, chain),
            ..registered.key_chain
        },
        ..registered
    };
    let after = committed(staged, commit_generation);
    let clients = staged.clients;
    let protos = in_order::<String>(clients.dom());
    let watch = PolicyWatchView { proto, ident, policy_type };
    commit_hands_out(staged, commit_generation);
    in_order_enumerates::<String>(staged.prefix.cache.dom());
    in_order_enumerates::<String>(staged.key_chain.cache.dom());
    in_order_enumerates::<String>(staged.policies.cache.dom());
    let p1 = vrf_deliveries(
        protos,
        clients,
        PolicyRxView::PrefixSetCommitStart { generation: after.generation },
    );
    let n2 = in_order::<String>(staged.prefix.cache.dom());
    let p2 = all_deliveries(n2, prefix_set_row(staged, after));
    let p3 = vrf_deliveries(
        protos,
        clients,
        PolicyRxView::PrefixSetInventory {
            generation: after.generation,
            prefix_sets: after.prefix.config,
        },
    );
    let n4 = in_order::<String>(staged.key_chain.cache.dom());
    let p4 = all_deliveries(n4, key_chain_row(staged, after));
    let n5 = in_order::<String>(staged.policies.cache.dom());
    let p5 = all_deliveries(n5, policy_row(staged, after));
    let p6 = all_deliveries(
        in_order::<String>(after.policies.config.dom()),
        reached_row(staged, after),
    );
    let news = after.outbox.skip(staged.outbox.len() as int);
    assert(n2.to_set().contains(name) && n4.to_set().contains(name) && n5.to_set().contains(name));
    if policy_type is PrefixSetIn || policy_type is PrefixSetOut {
        let msg = |watch: PolicyWatchView|
            PolicyRxView::PrefixSet {
                generation: after.generation,
                name,
                ident: watch.ident,
                policy_type: watch.policy_type,
                prefix_set: under(after.prefix.config, name),
            };
        let watches = row(staged.watch_prefix, name);
        assert(watches[watches.len() - 1] == watch);
        row_delivers(watches, clients, msg, watch);
        let item = DeliveryView { tx: clients[proto], msg: msg(watch) };
        names_deliver(n2, prefix_set_row(staged, after), name, item);
        in_parts(p1, p2, p3 + p4 + p5 + p6, item);
        assert(news =~= p1 + p2 + (p3 + p4 + p5 + p6));
    } else if policy_type is KeyChain {
        let msg = |watch: PolicyWatchView|
            PolicyRxView::KeyChain {
                name,
                ident: watch.ident,
                policy_type: watch.policy_type,
                key_chain: under(after.key_chain.config, name),
            };
        let watches = row(staged.watch_keychain, name);
        assert(watches[watches.len() - 1] == watch);
        row_delivers(watches, clients, msg, watch);
        let item = DeliveryView { tx: clients[proto], msg: msg(watch) };
        names_deliver(n4, key_chain_row(staged, after), name, item);
        in_parts(p1 + p2 + p3, p4, p5 + p6, item);
        assert(news =~= p1 + p2 + p3 + p4 + (p5 + p6));
    } else {
        let msg = |watch: PolicyWatchView|
            PolicyRxView::PolicyList {
                name,
                ident: watch.ident,
                policy_type: watch.policy_type,
                policy_list: under(after.policies.config, name),
            };
        let watches = row(staged.watch_policy, name);
        assert(watches[watches.len() - 1] == watch);
        row_delivers(watches, clients, msg, watch);
        let item = DeliveryView { tx: clients[proto], msg: msg(watch) };
        names_deliver(n5, policy_row(staged, after), name, item);
        in_parts(p1 + p2 + p3 + p4, p5, p6, item);
        assert(news =~= p1 + p2 + p3 + p4 + p5 + p6);
    }
}

/// A commit counts one generation on, from the greatest to zero, unless it
/// brings a number of its own; it leaves nothing staged, and the clients and
/// their watches as they are.
pub proof fn commit_keeps_clients(policy: PolicyView, commit_generation: u64)
    ensures
        ({
            let after = committed(policy, commit_generation);
            &&& after.clients == policy.clients
            &&& after.watch_prefix == policy.watch_prefix
            &&& after.watch_policy == policy.watch_policy
            &&& after.watch_keychain == policy.watch_keychain
            &&& commit_generation != 0 ==> after.generation == commit_generation
            &&& commit_generation == 0 ==> after.generation as int == (policy.generation as int
                + 1) % 0x1_0000_0000_0000_0000
            &&& after.policies.cache.dom() == Set::<Seq<char>>::empty()
            &&& after.prefix.cache.dom() == Set::<Seq<char>>::empty()
            &&& after.community.cache.dom() == Set::<Seq<char>>::empty()
            &&& after.ext_community.cache.dom() == Set::<Seq<char>>::empty()
            &&& after.large_community.cache.dom() == Set::<Seq<char>>::empty()
            &&& after.as_path.cache.dom() == Set::<Seq<char>>::empty()
            &&& after.key_chain.cache.dom() == Set::<Seq<char>>::empty()
        }),
{
}

/// The news of a name reaches just the watches on it whose clients are there, in
/// the order of registration. Each is told the name, its own ident and type, and
/// the body; the generation goes with a prefix-set.
pub proof fn news_reaches_the_watches(
    watch_map: Map<Seq<char>, Seq<PolicyWatchView>>,
    clients: Map<Seq<char>, u64>,
    name: Seq<char>,
    news: NewsView,
) -> (at: Seq<int>)
    ensures
        ({
            let watches = row(watch_map, name);
            let sent = fanned_out(watch_map, clients, name, news);
            &&& picks(
                at,
                watches.len() as int,
                |j: int| clients.contains_key(watches[j].proto),
            )
            &&& sent.len() == at.len()
            &&& forall|i: int|
                0 <= i < at.len() ==> {
                    let watch = watches[at[i]];
                    &&& (#[trigger] sent[i]).tx == clients[watch.proto]
                    &&& match news {
                        NewsView::PrefixSet { generation, prefix_set } => sent[i].msg
                            == (PolicyRxView::PrefixSet {
                            generation,
                            name,
                            ident: watch.ident,
                            policy_type: watch.policy_type,
                            prefix_set,
                        }),
                        NewsView::PolicyList { policy_list } => sent[i].msg
                            == (PolicyRxView::PolicyList {
                            name,
                            ident: watch.ident,
                            policy_type: watch.policy_type,
                            policy_list,
                        }),
                        NewsView::KeyChain { key_chain } => sent[i].msg
                            == (PolicyRxView::KeyChain {
                            name,
                            ident: watch.ident,
                            policy_type: watch.policy_type,
                            key_chain,
                        }),
                    }
                }
        }),
{
    let watches = row(watch_map, name);
    let at = filter_picks(watches, is_live(clients));
    let p = |j: int| is_live(clients)(watches[j]);
    let q = |j: int| clients.contains_key(watches[j].proto);
    assert(p =~= q);
    reveal(Seq::filter);
    at
}

} // verus!
