//! What holds of the policy service over requests and commits.

use vstd::prelude::*;
use crate::policy::inst::{committed, current, is_vrf, received, PolicyView};
use crate::policy::list::PolicyList;
use crate::policy::message::{DeliveryView, MessageView, PolicyRxView, PolicyType, PolicyWatchView};
use crate::policy::sets::{KeyChain, PrefixSet};
use crate::policy::syncer::{fanned_out, is_live, told, NewsView};
use crate::policy::watch::{is_foreign, is_other, unwatched, watched, watches_on, without_client};

verus! {

/// Whether every watch is made by a client that is there, and no name is kept
/// without a watch.
pub open spec fn orderly_watches(
    watch_map: Map<Seq<char>, Seq<PolicyWatchView>>,
    clients: Map<Seq<char>, u64>,
) -> bool {
    forall|name: Seq<char>| #[trigger]
        watch_map.contains_key(name) ==> watch_map[name].len() > 0 && forall|i: int|
            0 <= i < watch_map[name].len() ==> clients.contains_key(
                (#[trigger] watch_map[name][i]).proto,
            )
}

/// Whether all watches of the service are in order.
pub open spec fn orderly(policy: PolicyView) -> bool {
    &&& orderly_watches(policy.watch_prefix, policy.clients)
    &&& orderly_watches(policy.watch_policy, policy.clients)
    &&& orderly_watches(policy.watch_keychain, policy.clients)
}

/// What is filtered out of a row comes from the row and passes the filter.
proof fn filter_within<A>(s: Seq<A>, pred: spec_fn(A) -> bool)
    ensures
        forall|i: int|
            0 <= i < s.filter(pred).len() ==> s.contains(#[trigger] s.filter(pred)[i]) && pred(
                s.filter(pred)[i],
            ),
    decreases s.len(),
{
    reveal(Seq::filter);
    if s.len() > 0 {
        let front = s.drop_last();
        filter_within(front, pred);
        assert forall|i: int| 0 <= i < s.filter(pred).len() implies s.contains(
            #[trigger] s.filter(pred)[i],
        ) && pred(s.filter(pred)[i]) by {
            if i < front.filter(pred).len() {
                let x = front.filter(pred)[i];
                assert(front.contains(x));
                let j = choose|j: int| 0 <= j < front.len() && front[j] == x;
                assert(s[j] == x);
            } else {
                assert(s[s.len() - 1] == s.last());
            }
        }
    }
}

/// A filter that all of a row passes changes nothing.
proof fn filter_all<A>(s: Seq<A>, pred: spec_fn(A) -> bool)
    requires
        forall|i: int| 0 <= i < s.len() ==> pred(#[trigger] s[i]),
    ensures
        s.filter(pred) == s,
    decreases s.len(),
{
    reveal(Seq::filter);
    if s.len() > 0 {
        let front = s.drop_last();
        assert forall|i: int| 0 <= i < front.len() implies pred(#[trigger] front[i]) by {
            assert(pred(s[i]));
        }
        filter_all(front, pred);
        assert(pred(s[s.len() - 1]));
    }
    assert(s.filter(pred) =~= s);
}

/// A watch that is registered by a client that is there is in order.
proof fn watched_is_orderly(
    watch_map: Map<Seq<char>, Seq<PolicyWatchView>>,
    clients: Map<Seq<char>, u64>,
    name: Seq<char>,
    watch: PolicyWatchView,
)
    requires
        orderly_watches(watch_map, clients),
        clients.contains_key(watch.proto),
    ensures
        orderly_watches(watched(watch_map, name, watch), clients),
{
}

/// Dropping a watch keeps the others in order.
proof fn unwatched_is_orderly(
    watch_map: Map<Seq<char>, Seq<PolicyWatchView>>,
    clients: Map<Seq<char>, u64>,
    name: Seq<char>,
    watch: PolicyWatchView,
)
    requires
        orderly_watches(watch_map, clients),
    ensures
        orderly_watches(unwatched(watch_map, name, watch), clients),
{
    if watch_map.contains_key(name) {
        let all = watch_map[name];
        let kept = all.filter(is_other(watch));
        filter_within(all, is_other(watch));
        assert forall|i: int| 0 <= i < kept.len() implies clients.contains_key(
            (#[trigger] kept[i]).proto,
        ) by {
            assert(all.contains(kept[i]));
            let j = choose|j: int| 0 <= j < all.len() && all[j] == kept[i];
            assert(clients.contains_key(all[j].proto));
        }
    }
}

/// Dropping a client with its watches keeps the others in order.
proof fn without_client_is_orderly(
    watch_map: Map<Seq<char>, Seq<PolicyWatchView>>,
    clients: Map<Seq<char>, u64>,
    proto: Seq<char>,
)
    requires
        orderly_watches(watch_map, clients),
    ensures
        orderly_watches(without_client(watch_map, proto), clients.remove(proto)),
{
    let after = without_client(watch_map, proto);
    assert forall|name: Seq<char>| #[trigger] after.contains_key(name) implies after[name].len()
        > 0 && forall|i: int|
        0 <= i < after[name].len() ==> clients.remove(proto).contains_key(
            (#[trigger] after[name][i]).proto,
        ) by {
        let all = watch_map[name];
        let kept = all.filter(is_foreign(proto));
        assert(watch_map.contains_key(name));
        filter_within(all, is_foreign(proto));
        assert forall|i: int| 0 <= i < kept.len() implies clients.remove(proto).contains_key(
            (#[trigger] kept[i]).proto,
        ) by {
            assert(all.contains(kept[i]));
            let j = choose|j: int| 0 <= j < all.len() && all[j] == kept[i];
            assert(clients.contains_key(all[j].proto));
        }
    }
}

/// The service starts in order.
pub proof fn start_is_orderly()
    ensures
        orderly(PolicyView::empty()),
{
}

/// Every request keeps the watches in order: no watch outlives its client.
pub proof fn requests_keep_order(policy: PolicyView, msg: MessageView)
    requires
        orderly(policy),
    ensures
        orderly(received(policy, msg)),
{
    match msg {
        MessageView::Subscribe { proto, tx } => {},
        MessageView::Unsubscribe { proto } => {
            without_client_is_orderly(policy.watch_prefix, policy.clients, proto);
            without_client_is_orderly(policy.watch_policy, policy.clients, proto);
            without_client_is_orderly(policy.watch_keychain, policy.clients, proto);
        },
        MessageView::Register { proto, name, ident, policy_type } => {
            if policy.clients.contains_key(proto) {
                let watch = PolicyWatchView { proto, ident, policy_type };
                watched_is_orderly(policy.watch_prefix, policy.clients, name, watch);
                watched_is_orderly(policy.watch_policy, policy.clients, name, watch);
                watched_is_orderly(policy.watch_keychain, policy.clients, name, watch);
            }
        },
        MessageView::Unregister { proto, name, ident, policy_type } => {
            let watch = PolicyWatchView { proto, ident, policy_type };
            unwatched_is_orderly(policy.watch_prefix, policy.clients, name, watch);
            unwatched_is_orderly(policy.watch_policy, policy.clients, name, watch);
            unwatched_is_orderly(policy.watch_keychain, policy.clients, name, watch);
        },
    }
}

/// A commit keeps the watches as they are.
pub proof fn commits_keep_order(policy: PolicyView, commit_generation: u64)
    requires
        orderly(policy),
    ensures
        orderly(committed(policy, commit_generation)),
{
}

/// A client that has gone has no watch left, and a registration of its own that
/// arrives late has no effect.
pub proof fn late_registration_is_void(
    policy: PolicyView,
    proto: Seq<char>,
    name: Seq<char>,
    ident: usize,
    policy_type: PolicyType,
)
    requires
        orderly(policy),
    ensures
        ({
            let gone = received(policy, MessageView::Unsubscribe { proto });
            &&& !gone.clients.contains_key(proto)
            &&& received(gone, MessageView::Register { proto, name, ident, policy_type }) == gone
            &&& forall|n: Seq<char>, i: int|
                gone.watch_prefix.contains_key(n) && 0 <= i < gone.watch_prefix[n].len() ==> (
                #[trigger] gone.watch_prefix[n][i]).proto != proto
            &&& forall|n: Seq<char>, i: int|
                gone.watch_policy.contains_key(n) && 0 <= i < gone.watch_policy[n].len() ==> (
                #[trigger] gone.watch_policy[n][i]).proto != proto
            &&& forall|n: Seq<char>, i: int|
                gone.watch_keychain.contains_key(n) && 0 <= i < gone.watch_keychain[n].len()
                    ==> (#[trigger] gone.watch_keychain[n][i]).proto != proto
        }),
{
    let gone = received(policy, MessageView::Unsubscribe { proto });
    requests_keep_order(policy, MessageView::Unsubscribe { proto });
    assert forall|n: Seq<char>, i: int|
        gone.watch_prefix.contains_key(n) && 0 <= i < gone.watch_prefix[n].len() implies (
    #[trigger] gone.watch_prefix[n][i]).proto != proto by {
        assert(gone.clients.contains_key(gone.watch_prefix[n][i].proto));
    }
    assert forall|n: Seq<char>, i: int|
        gone.watch_policy.contains_key(n) && 0 <= i < gone.watch_policy[n].len() implies (
    #[trigger] gone.watch_policy[n][i]).proto != proto by {
        assert(gone.clients.contains_key(gone.watch_policy[n][i].proto));
    }
    assert forall|n: Seq<char>, i: int|
        gone.watch_keychain.contains_key(n) && 0 <= i < gone.watch_keychain[n].len() implies (
    #[trigger] gone.watch_keychain[n][i]).proto != proto by {
        assert(gone.clients.contains_key(gone.watch_keychain[n][i].proto));
    }
}

/// Dropping a watch that was not there before takes back its registration.
proof fn unwatched_undoes_watched(
    watch_map: Map<Seq<char>, Seq<PolicyWatchView>>,
    clients: Map<Seq<char>, u64>,
    name: Seq<char>,
    watch: PolicyWatchView,
)
    requires
        orderly_watches(watch_map, clients),
        !watches_on(watch_map, name).contains(watch),
    ensures
        unwatched(watched(watch_map, name, watch), name, watch) == watch_map,
{
    let all = watches_on(watch_map, name);
    reveal(Seq::filter);
    assert(all.push(watch).drop_last() =~= all);
    assert forall|i: int| 0 <= i < all.len() implies is_other(watch)(#[trigger] all[i]) by {
        assert(all.contains(all[i]));
    }
    filter_all(all, is_other(watch));
    assert(all.push(watch).filter(is_other(watch)) == all);
    assert(unwatched(watched(watch_map, name, watch), name, watch) =~= watch_map);
}

/// Registering a watch and dropping it again leaves the watches as they were.
pub proof fn unregister_undoes_register(
    policy: PolicyView,
    proto: Seq<char>,
    name: Seq<char>,
    ident: usize,
    policy_type: PolicyType,
)
    requires
        orderly(policy),
        policy.clients.contains_key(proto),
        ({
            let watch = PolicyWatchView { proto, ident, policy_type };
            &&& !watches_on(policy.watch_prefix, name).contains(watch)
            &&& !watches_on(policy.watch_policy, name).contains(watch)
            &&& !watches_on(policy.watch_keychain, name).contains(watch)
        }),
    ensures
        ({
            let once = received(
                policy,
                MessageView::Register { proto, name, ident, policy_type },
            );
            let after = received(
                once,
                MessageView::Unregister { proto, name, ident, policy_type },
            );
            &&& after.watch_prefix == policy.watch_prefix
            &&& after.watch_policy == policy.watch_policy
            &&& after.watch_keychain == policy.watch_keychain
            &&& after.clients == policy.clients
        }),
{
    let watch = PolicyWatchView { proto, ident, policy_type };
    unwatched_undoes_watched(policy.watch_prefix, policy.clients, name, watch);
    unwatched_undoes_watched(policy.watch_policy, policy.clients, name, watch);
    unwatched_undoes_watched(policy.watch_keychain, policy.clients, name, watch);
}

/// A registration is answered at once, with what is in force under the name and
/// as of the current generation. The answer comes even where the name is not
/// defined, except for a key chain.
pub proof fn registration_is_answered(
    policy: PolicyView,
    proto: Seq<char>,
    name: Seq<char>,
    ident: usize,
    policy_type: PolicyType,
)
    requires
        policy.clients.contains_key(proto),
    ensures
        ({
            let tx = policy.clients[proto];
            let after = received(
                policy,
                MessageView::Register { proto, name, ident, policy_type },
            );
            match policy_type {
                PolicyType::PrefixSetIn | PolicyType::PrefixSetOut => after.outbox
                    == policy.outbox.push(
                    DeliveryView {
                        tx,
                        msg: PolicyRxView::PrefixSet {
                            generation: policy.generation,
                            name,
                            ident,
                            policy_type,
                            prefix_set: current(policy.prefix.config, name),
                        },
                    },
                ),
                PolicyType::PolicyListIn | PolicyType::PolicyListOut | PolicyType::TableMap =>
                    after.outbox == policy.outbox.push(
                    DeliveryView {
                        tx,
                        msg: PolicyRxView::PolicyList {
                            name,
                            ident,
                            policy_type,
                            policy_list: current(policy.policies.config, name),
                        },
                    },
                ),
                PolicyType::KeyChain(_) => if policy.key_chain.config.contains_key(name) {
                    after.outbox == policy.outbox.push(
                        DeliveryView {
                            tx,
                            msg: PolicyRxView::KeyChain {
                                name,
                                ident,
                                policy_type,
                                key_chain: Some(policy.key_chain.config[name]),
                            },
                        },
                    )
                } else {
                    after.outbox == policy.outbox
                },
            }
        }),
{
    let after = received(policy, MessageView::Register { proto, name, ident, policy_type });
    if after.outbox.len() > policy.outbox.len() {
        assert(after.outbox =~= policy.outbox.push(after.outbox.last()));
    }
}

/// A client that drops a watch is told that it is bound to nothing, whether the
/// watch was there or not. A key chain stays with the client.
pub proof fn unregistration_clears(
    policy: PolicyView,
    proto: Seq<char>,
    name: Seq<char>,
    ident: usize,
    policy_type: PolicyType,
)
    requires
        policy.clients.contains_key(proto),
    ensures
        ({
            let tx = policy.clients[proto];
            let after = received(
                policy,
                MessageView::Unregister { proto, name, ident, policy_type },
            );
            match policy_type {
                PolicyType::PrefixSetIn | PolicyType::PrefixSetOut => after.outbox
                    == policy.outbox.push(
                    DeliveryView {
                        tx,
                        msg: PolicyRxView::PrefixSet {
                            generation: policy.generation,
                            name,
                            ident,
                            policy_type,
                            prefix_set: None,
                        },
                    },
                ),
                PolicyType::PolicyListIn | PolicyType::PolicyListOut | PolicyType::TableMap =>
                    after.outbox == policy.outbox.push(
                    DeliveryView {
                        tx,
                        msg: PolicyRxView::PolicyList {
                            name,
                            ident,
                            policy_type,
                            policy_list: None,
                        },
                    },
                ),
                PolicyType::KeyChain(_) => after.outbox == policy.outbox,
            }
        }),
{
    let after = received(policy, MessageView::Unregister { proto, name, ident, policy_type });
    if after.outbox.len() > policy.outbox.len() {
        assert(after.outbox =~= policy.outbox.push(after.outbox.last()));
    }
}

/// A VRF that starts is handed all prefix-sets in force, and nobody else is
/// told anything when a client starts.
pub proof fn vrf_starts_with_inventory(policy: PolicyView, proto: Seq<char>, tx: u64)
    ensures
        ({
            let after = received(policy, MessageView::Subscribe { proto, tx });
            &&& after.clients == policy.clients.insert(proto, tx)
            &&& after.outbox == if is_vrf(proto) {
                policy.outbox.push(
                    DeliveryView {
                        tx,
                        msg: PolicyRxView::PrefixSetInventory {
                            generation: policy.generation,
                            prefix_sets: policy.prefix.config,
                        },
                    },
                )
            } else {
                policy.outbox
            }
        }),
{
    let after = received(policy, MessageView::Subscribe { proto, tx });
    if is_vrf(proto) {
        assert(after.outbox =~= policy.outbox.push(after.outbox.last()));
    }
}

/// Where the watches are in order, the news of a name goes to each of its
/// watches once, in the order in which they were registered.
pub proof fn every_watch_is_told(
    watch_map: Map<Seq<char>, Seq<PolicyWatchView>>,
    clients: Map<Seq<char>, u64>,
    name: Seq<char>,
    news: NewsView,
)
    requires
        orderly_watches(watch_map, clients),
    ensures
        ({
            let watches = watches_on(watch_map, name);
            let sent = fanned_out(watch_map, clients, name, news);
            &&& sent.len() == watches.len()
            &&& forall|i: int|
                0 <= i < watches.len() ==> #[trigger] sent[i] == (DeliveryView {
                    tx: clients[watches[i].proto],
                    msg: told(news, name, watches[i]),
                })
        }),
{
    if watch_map.contains_key(name) {
        let watches = watch_map[name];
        assert forall|i: int| 0 <= i < watches.len() implies is_live(clients)(
            #[trigger] watches[i],
        ) by {
            assert(clients.contains_key(watches[i].proto));
        }
        filter_all(watches, is_live(clients));
    }
}

} // verus!
