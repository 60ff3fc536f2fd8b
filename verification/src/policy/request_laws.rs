//! What a request does to the watches of a name and to what the client hears.

use vstd::prelude::*;
use crate::policy::inst::{received, PolicyView};
use crate::policy::message::{MessageView, PolicyRxView, PolicyType, PolicyWatchView};
use crate::policy::watch::{is_foreign, is_other};
use crate::rows::{filter_picks, picks};

verus! {

/// The watches on a name, none where the name is not watched.
pub open spec fn row(
    watch_map: Map<Seq<char>, Seq<PolicyWatchView>>,
    name: Seq<char>,
) -> Seq<PolicyWatchView> {
    if watch_map.contains_key(name) {
        watch_map[name]
    } else {
        Seq::empty()
    }
}

/// Whether two services hold the same configuration, staged and in force, and
/// count the same generation.
pub open spec fn same_configuration(a: PolicyView, b: PolicyView) -> bool {
    &&& a.policies == b.policies
    &&& a.prefix == b.prefix
    &&& a.community == b.community
    &&& a.ext_community == b.ext_community
    &&& a.large_community == b.large_community
    &&& a.as_path == b.as_path
    &&& a.key_chain == b.key_chain
    &&& a.generation == b.generation
}

/// Whether one watch was put behind the row of a name, and no other row was
/// touched.
pub open spec fn one_more(
    after: Map<Seq<char>, Seq<PolicyWatchView>>,
    before: Map<Seq<char>, Seq<PolicyWatchView>>,
    name: Seq<char>,
    watch: PolicyWatchView,
) -> bool {
    &&& after.contains_key(name)
    &&& after[name].len() == row(before, name).len() + 1
    &&& forall|i: int|
        0 <= i < row(before, name).len() ==> #[trigger] after[name][i] == row(before, name)[i]
    &&& after[name].last() == watch
    &&& forall|other: Seq<char>|
        other != name ==> #[trigger] after.contains_key(other) == before.contains_key(other)
            && after[other] == before[other]
}

/// A registration files its watch with the watches of its kind: behind those
/// that the name has among the prefix-sets, the policies or the key chains. The
/// other two kinds, the clients and the configuration stay as they were.
pub proof fn registration_files_its_watch(
    policy: PolicyView,
    proto: Seq<char>,
    name: Seq<char>,
    ident: usize,
    policy_type: PolicyType,
)
    requires
        policy.clients.contains_key(proto),
    ensures
        ({
            let watch = PolicyWatchView { proto, ident, policy_type };
            let after = received(
                policy,
                MessageView::Register { proto, name, ident, policy_type },
            );
            &&& after.clients == policy.clients
            &&& same_configuration(after, policy)
            &&& if policy_type is PrefixSetIn || policy_type is PrefixSetOut {
                &&& one_more(after.watch_prefix, policy.watch_prefix, name, watch)
                &&& after.watch_policy == policy.watch_policy
                &&& after.watch_keychain == policy.watch_keychain
            } else if policy_type is KeyChain {
                &&& one_more(after.watch_keychain, policy.watch_keychain, name, watch)
                &&& after.watch_prefix == policy.watch_prefix
                &&& after.watch_policy == policy.watch_policy
            } else {
                &&& one_more(after.watch_policy, policy.watch_policy, name, watch)
                &&& after.watch_prefix == policy.watch_prefix
                &&& after.watch_keychain == policy.watch_keychain
            }
        }),
{
}

/// What a registration is answered, and that nothing else is sent: the body in
/// force under the name as of the current generation, or that there is none. A
/// key chain that does not exist is not answered.
pub proof fn registration_reply(
    policy: PolicyView,
    proto: Seq<char>,
    name: Seq<char>,
    ident: usize,
    policy_type: PolicyType,
)
    requires
        policy.clients.contains_key(proto),
    ensures
        ({
            let after = received(
                policy,
                MessageView::Register { proto, name, ident, policy_type },
            );
            let n = policy.outbox.len();
            let reply = after.outbox[n as int];
            &&& policy.outbox.is_prefix_of(after.outbox)
            &&& if policy_type is KeyChain && !policy.key_chain.config.contains_key(name) {
                after.outbox.len() == n
            } else {
                &&& after.outbox.len() == n + 1
                &&& reply.tx == policy.clients[proto]
                &&& if policy_type is PrefixSetIn || policy_type is PrefixSetOut {
                    &&& reply.msg matches PolicyRxView::PrefixSet {
                        generation,
                        name: of,
                        ident: to,
                        policy_type: as_type,
                        prefix_set,
                    }
                    &&& generation == policy.generation && of == name && to == ident && as_type
                        == policy_type
                    &&& prefix_set is Some == policy.prefix.config.contains_key(name)
                    &&& prefix_set is Some ==> prefix_set->0 == policy.prefix.config[name]
                } else if policy_type is KeyChain {
                    &&& reply.msg matches PolicyRxView::KeyChain {
                        name: of,
                        ident: to,
                        policy_type: as_type,
                        key_chain,
                    }
                    &&& of == name && to == ident && as_type == policy_type
                    &&& key_chain == Some(policy.key_chain.config[name])
                } else {
                    &&& reply.msg matches PolicyRxView::PolicyList {
                        name: of,
                        ident: to,
                        policy_type: as_type,
                        policy_list,
                    }
                    &&& of == name && to == ident && as_type == policy_type
                    &&& policy_list is Some == policy.policies.config.contains_key(name)
                    &&& policy_list is Some ==> policy_list->0 == policy.policies.config[name]
                }
            }
        }),
{
}

/// A registration for a client that is not there has no effect at all.
pub proof fn registration_needs_a_client(
    policy: PolicyView,
    proto: Seq<char>,
    name: Seq<char>,
    ident: usize,
    policy_type: PolicyType,
)
    requires
        !policy.clients.contains_key(proto),
    ensures
        received(policy, MessageView::Register { proto, name, ident, policy_type }) == policy,
{
}

/// Whether just the watches that are `wanted` are left of a row, at the places
/// `at` of the old row, and an emptied name is gone.
pub open spec fn left_over(
    after: Map<Seq<char>, Seq<PolicyWatchView>>,
    before: Map<Seq<char>, Seq<PolicyWatchView>>,
    name: Seq<char>,
    at: Seq<int>,
    wanted: spec_fn(PolicyWatchView) -> bool,
) -> bool {
    &&& picks(at, row(before, name).len() as int, |j: int| wanted(row(before, name)[j]))
    &&& after.contains_key(name) == (at.len() > 0)
    &&& row(after, name).len() == at.len()
    &&& forall|i: int|
        0 <= i < at.len() ==> #[trigger] row(after, name)[i] == row(before, name)[at[i]]
}

/// When a client goes, just its own watches go with it: of each row of watches,
/// on prefix-sets, policies and key chains alike, those of the other clients are
/// left, all of them and in their order. The other clients, the configuration
/// and what waits to be sent stay as they were.
pub proof fn departure_takes_own_watches(
    policy: PolicyView,
    proto: Seq<char>,
    name: Seq<char>,
) -> (at: (Seq<int>, Seq<int>, Seq<int>))
    ensures
        ({
            let after = received(policy, MessageView::Unsubscribe { proto });
            let foreign = |watch: PolicyWatchView| watch.proto != proto;
            &&& left_over(after.watch_prefix, policy.watch_prefix, name, at.0, foreign)
            &&& left_over(after.watch_policy, policy.watch_policy, name, at.1, foreign)
            &&& left_over(after.watch_keychain, policy.watch_keychain, name, at.2, foreign)
            &&& !after.clients.contains_key(proto)
            &&& forall|other: Seq<char>|
                other != proto ==> #[trigger] after.clients.contains_key(other)
                    == policy.clients.contains_key(other) && after.clients[other]
                    == policy.clients[other]
            &&& same_configuration(after, policy)
            &&& after.outbox == policy.outbox
        }),
{
    let after = received(policy, MessageView::Unsubscribe { proto });
    let foreign = |watch: PolicyWatchView| watch.proto != proto;
    assert(foreign =~= is_foreign(proto));
    let a = filter_picks(row(policy.watch_prefix, name), is_foreign(proto));
    let b = filter_picks(row(policy.watch_policy, name), is_foreign(proto));
    let c = filter_picks(row(policy.watch_keychain, name), is_foreign(proto));
    same_picks(row(policy.watch_prefix, name), is_foreign(proto), foreign, a);
    same_picks(row(policy.watch_policy, name), is_foreign(proto), foreign, b);
    same_picks(row(policy.watch_keychain, name), is_foreign(proto), foreign, c);
    reveal(Seq::filter);
    (a, b, c)
}

/// Two filters that agree pick the same places.
proof fn same_picks<A>(
    s: Seq<A>,
    p: spec_fn(A) -> bool,
    q: spec_fn(A) -> bool,
    at: Seq<int>,
)
    requires
        picks(at, s.len() as int, |j: int| p(s[j])),
        forall|a: A| #[trigger] p(a) == q(a),
    ensures
        picks(at, s.len() as int, |j: int| q(s[j])),
{
    let wp = |j: int| p(s[j]);
    let wq = |j: int| q(s[j]);
    assert(forall|j: int| #[trigger] wq(j) == wp(j));
    assert forall|i: int| 0 <= i < at.len() implies 0 <= #[trigger] at[i] < s.len() && wq(at[i]) by {
        assert(wp(at[i]));
    }
    assert forall|j: int| 0 <= j < s.len() && #[trigger] wq(j) implies at.contains(j) by {
        assert(wp(j));
    }
}

/// Dropping a watch takes that watch, and no other, from the watches of its kind
/// on that name. The other rows, the other two kinds, the clients and the
/// configuration stay as they were.
pub proof fn unregistration_drops_its_watch(
    policy: PolicyView,
    proto: Seq<char>,
    name: Seq<char>,
    ident: usize,
    policy_type: PolicyType,
    other: Seq<char>,
) -> (at: Seq<int>)
    requires
        forall|n: Seq<char>| #[trigger]
            policy.watch_prefix.contains_key(n) ==> policy.watch_prefix[n].len() > 0,
        forall|n: Seq<char>| #[trigger]
            policy.watch_policy.contains_key(n) ==> policy.watch_policy[n].len() > 0,
        forall|n: Seq<char>| #[trigger]
            policy.watch_keychain.contains_key(n) ==> policy.watch_keychain[n].len() > 0,
    ensures
        ({
            let after = received(
                policy,
                MessageView::Unregister { proto, name, ident, policy_type },
            );
            let kept = |watch: PolicyWatchView|
                watch.proto != proto || watch.ident != ident || watch.policy_type != policy_type;
            let (new, old) = if policy_type is PrefixSetIn || policy_type is PrefixSetOut {
                (after.watch_prefix, policy.watch_prefix)
            } else if policy_type is KeyChain {
                (after.watch_keychain, policy.watch_keychain)
            } else {
                (after.watch_policy, policy.watch_policy)
            };
            &&& left_over(new, old, name, at, kept)
            &&& other != name ==> new.contains_key(other) == old.contains_key(other) && new[other]
                == old[other]
            &&& !(policy_type is PrefixSetIn || policy_type is PrefixSetOut) ==> after.watch_prefix
                == policy.watch_prefix
            &&& !(policy_type is PolicyListIn || policy_type is PolicyListOut || policy_type is
                TableMap) ==> after.watch_policy == policy.watch_policy
            &&& !(policy_type is KeyChain) ==> after.watch_keychain == policy.watch_keychain
            &&& after.clients == policy.clients
            &&& same_configuration(after, policy)
        }),
{
    let watch = PolicyWatchView { proto, ident, policy_type };
    let kept = |w: PolicyWatchView|
        w.proto != proto || w.ident != ident || w.policy_type != policy_type;
    let old = if policy_type is PrefixSetIn || policy_type is PrefixSetOut {
        policy.watch_prefix
    } else if policy_type is KeyChain {
        policy.watch_keychain
    } else {
        policy.watch_policy
    };
    let at = filter_picks(row(old, name), is_other(watch));
    assert forall|w: PolicyWatchView| #[trigger] is_other(watch)(w) == kept(w) by {}
    same_picks(row(old, name), is_other(watch), kept, at);
    reveal(Seq::filter);
    at
}

/// What a client that drops a watch is told: once, that it is bound to nothing.
/// A key chain is not taken from it, and a client that is not there is told
/// nothing.
pub proof fn unregistration_reply(
    policy: PolicyView,
    proto: Seq<char>,
    name: Seq<char>,
    ident: usize,
    policy_type: PolicyType,
)
    ensures
        ({
            let after = received(
                policy,
                MessageView::Unregister { proto, name, ident, policy_type },
            );
            let n = policy.outbox.len();
            let reply = after.outbox[n as int];
            &&& policy.outbox.is_prefix_of(after.outbox)
            &&& if policy_type is KeyChain || !policy.clients.contains_key(proto) {
                after.outbox.len() == n
            } else {
                &&& after.outbox.len() == n + 1
                &&& reply.tx == policy.clients[proto]
                &&& if policy_type is PrefixSetIn || policy_type is PrefixSetOut {
                    &&& reply.msg matches PolicyRxView::PrefixSet {
                        generation,
                        name: of,
                        ident: to,
                        policy_type: as_type,
                        prefix_set,
                    }
                    &&& generation == policy.generation && of == name && to == ident && as_type
                        == policy_type && prefix_set is None
                } else {
                    &&& reply.msg matches PolicyRxView::PolicyList {
                        name: of,
                        ident: to,
                        policy_type: as_type,
                        policy_list,
                    }
                    &&& of == name && to == ident && as_type == policy_type && policy_list is None
                }
            }
        }),
{
}

/// A client that starts is known from then on, under the channel that it brings
/// and beside all others. Where its name begins with `bgp:vrf:` it is handed all
/// prefix-sets in force, and otherwise nothing. Its watches from an earlier life
/// are not touched.
pub proof fn subscription(policy: PolicyView, proto: Seq<char>, tx: u64)
    ensures
        ({
            let after = received(policy, MessageView::Subscribe { proto, tx });
            let n = policy.outbox.len();
            let first = after.outbox[n as int];
            &&& after.clients.contains_key(proto) && after.clients[proto] == tx
            &&& forall|other: Seq<char>|
                other != proto ==> #[trigger] after.clients.contains_key(other)
                    == policy.clients.contains_key(other) && after.clients[other]
                    == policy.clients[other]
            &&& after.watch_prefix == policy.watch_prefix
            &&& after.watch_policy == policy.watch_policy
            &&& after.watch_keychain == policy.watch_keychain
            &&& same_configuration(after, policy)
            &&& policy.outbox.is_prefix_of(after.outbox)
            &&& if proto.len() >= 8 && proto.take(8) == seq!['b', 'g', 'p', ':', 'v', 'r', 'f', ':']
            {
                &&& after.outbox.len() == n + 1
                &&& first.tx == tx
                &&& first.msg matches PolicyRxView::PrefixSetInventory { generation, prefix_sets }
                &&& generation == policy.generation && prefix_sets == policy.prefix.config
            } else {
                after.outbox.len() == n
            }
        }),
{
    reveal_strlit("bgp:vrf:");
    let mark = seq!['b', 'g', 'p', ':', 'v', 'r', 'f', ':'];
    assert("bgp:vrf:"@ =~= mark);
    if mark.is_prefix_of(proto) {
        assert(proto.take(8) =~= mark);
    } else if proto.len() >= 8 && proto.take(8) == mark {
        assert(mark =~= proto.subrange(0, 8));
    }
}

} // verus!
