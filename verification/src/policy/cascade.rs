//! Policies that were not edited themselves but refer to sets that were.

use vstd::prelude::*;
use crate::order::{in_order, visited, visited_all, visited_next, visited_none};
use crate::policy::commit::{extend, flat_map_back};
use crate::policy::list::{policy_entry_sync, resolved, sets_in_force, PolicyEntryView, PolicyList,
    PolicyListView, SetsView};
use crate::policy::message::{Delivery, DeliveryView, PolicyWatchView};
use crate::policy::sets::{AsPathSetConfig, CommunitySetConfig, ExtCommunitySetConfig,
    LargeCommunitySetConfig, PrefixSetConfig};
use crate::policy::syncer::{fanned_out, Clients, NewsView, PolicySyncer, Syncer, WatchMap};
use crate::sorted_map::{SortedMap, SortedSet};

verus! {

/// The names that a commit has touched.
pub struct ChangedView {
    pub prefix: Set<Seq<char>>,
    pub community: Set<Seq<char>>,
    pub ext_community: Set<Seq<char>>,
    pub large_community: Set<Seq<char>>,
    pub as_path: Set<Seq<char>>,
    pub policies: Set<Seq<char>>,
}

/// Whether a name is there and among others.
pub open spec fn names(name: Option<Seq<char>>, changed: Set<Seq<char>>) -> bool {
    name matches Some(name) && changed.contains(name)
}

/// Whether an entry refers to a set that was touched.
pub open spec fn stale_entry(entry: PolicyEntryView, changed: ChangedView) -> bool {
    ||| names(entry.prefix_set_name, changed.prefix)
    ||| names(entry.community_set_name, changed.community)
    ||| (entry.set_community matches Some(setting) && changed.community.contains(setting.name))
    ||| names(entry.ext_community_set_name, changed.ext_community)
    ||| names(entry.large_community_set_name, changed.large_community)
    ||| names(entry.as_path_set_name, changed.as_path)
}

/// Whether a policy refers to a set that was touched.
pub open spec fn stale(list: PolicyListView, changed: ChangedView) -> bool {
    exists|number: u32| #[trigger]
        list.entry.contains_key(number) && stale_entry(list.entry[number], changed)
}

/// Whether a policy in force has to be resolved again: it refers to a set that
/// was touched, and was not touched itself.
pub open spec fn needs_resync(
    policies: Map<Seq<char>, PolicyListView>,
    changed: ChangedView,
    name: Seq<char>,
) -> bool {
    policies.contains_key(name) && !changed.policies.contains(name) && stale(
        policies[name],
        changed,
    )
}

/// The policies in force after the stale ones were resolved again.
pub open spec fn cascaded(
    policies: Map<Seq<char>, PolicyListView>,
    sets: SetsView,
    changed: ChangedView,
) -> Map<Seq<char>, PolicyListView> {
    Map::new(
        |name: Seq<char>| policies.contains_key(name),
        |name: Seq<char>|
            if needs_resync(policies, changed, name) {
                resolved(policies[name], sets)
            } else {
                policies[name]
            },
    )
}

/// The deliveries for one policy, which are none where it is not stale.
pub open spec fn resync_deliveries(
    watch_policy: Map<Seq<char>, Seq<PolicyWatchView>>,
    clients: Map<Seq<char>, u64>,
    policies: Map<Seq<char>, PolicyListView>,
    sets: SetsView,
    changed: ChangedView,
) -> spec_fn(Seq<char>) -> Seq<DeliveryView> {
    |name: Seq<char>|
        if needs_resync(policies, changed, name) {
            fanned_out(
                watch_policy,
                clients,
                name,
                NewsView::PolicyList { policy_list: Some(resolved(policies[name], sets)) },
            )
        } else {
            Seq::empty()
        }
}

/// The deliveries for all stale policies, in the order of their names.
pub open spec fn cascade_deliveries(
    watch_policy: Map<Seq<char>, Seq<PolicyWatchView>>,
    clients: Map<Seq<char>, u64>,
    policies: Map<Seq<char>, PolicyListView>,
    sets: SetsView,
    changed: ChangedView,
) -> Seq<DeliveryView> {
    in_order::<String>(policies.dom()).flat_map(
        resync_deliveries(watch_policy, clients, policies, sets, changed),
    )
}

/// Whether a name is there and among others.
fn is_named(name: &Option<String>, changed: &SortedSet<String>) -> (r: bool)
    ensures
        r == names(name.deep_view(), changed@),
{
    match name {
        Some(name) => changed.contains(name),
        None => false,
    }
}

/// Whether a policy refers to a set that was touched.
fn is_stale(
    policy_list: &PolicyList,
    changed_prefix_sets: &SortedSet<String>,
    changed_community_sets: &SortedSet<String>,
    changed_ext_community_sets: &SortedSet<String>,
    changed_large_community_sets: &SortedSet<String>,
    changed_as_path_sets: &SortedSet<String>,
    Ghost(changed): Ghost<ChangedView>,
) -> (r: bool)
    requires
        changed.prefix == changed_prefix_sets@,
        changed.community == changed_community_sets@,
        changed.ext_community == changed_ext_community_sets@,
        changed.large_community == changed_large_community_sets@,
        changed.as_path == changed_as_path_sets@,
    ensures
        r == stale(policy_list@, changed),
{
    let n = policy_list.entry.len();
    let ghost numbers = policy_list@.entry.dom();
    let mut i: usize = 0;
    proof {
        visited_none::<u32>(numbers);
    }
    while i < n
        invariant
            i <= n,
            numbers == policy_list@.entry.dom(),
            numbers.finite(),
            n == in_order::<u32>(numbers).len(),
            changed.prefix == changed_prefix_sets@,
            changed.community == changed_community_sets@,
            changed.ext_community == changed_ext_community_sets@,
            changed.large_community == changed_large_community_sets@,
            changed.as_path == changed_as_path_sets@,
            forall|number: u32| #[trigger]
                visited::<u32>(numbers, i as int).contains(number) ==> !stale_entry(
                    policy_list@.entry[number],
                    changed,
                ),
        decreases n - i,
    {
        let entry = policy_list.entry.value_at(i);
        let ghost number = in_order::<u32>(numbers)[i as int];
        proof {
            visited_next::<u32>(numbers, i as int);
        }
        let sets_community = match &entry.set_community {
            Some(setting) => changed_community_sets.contains(&setting.name),
            None => false,
        };
        if is_named(&entry.prefix_set_name, changed_prefix_sets) || is_named(
            &entry.community_set_name,
            changed_community_sets,
        ) || sets_community || is_named(
            &entry.ext_community_set_name,
            changed_ext_community_sets,
        ) || is_named(&entry.large_community_set_name, changed_large_community_sets) || is_named(
            &entry.as_path_set_name,
            changed_as_path_sets,
        ) {
            assert(policy_list@.entry.contains_key(number) && stale_entry(
                policy_list@.entry[number],
                changed,
            ));
            return true;
        }
        i += 1;
    }
    proof {
        visited_all::<u32>(numbers);
    }
    false
}

/// Resolve again the policies that refer to a set that was touched, and tell
/// their watchers. A policy that was committed itself has been resolved against
/// the new sets already and is left alone.
pub fn cascade_indirect_policy_updates(
    policy_config: &mut SortedMap<String, PolicyList>,
    prefix_config: &PrefixSetConfig,
    community_config: &CommunitySetConfig,
    ext_community_config: &ExtCommunitySetConfig,
    large_community_config: &LargeCommunitySetConfig,
    as_path_config: &AsPathSetConfig,
    watch_policy: &WatchMap,
    clients: &Clients,
    changed_prefix_sets: &SortedSet<String>,
    changed_community_sets: &SortedSet<String>,
    changed_ext_community_sets: &SortedSet<String>,
    changed_large_community_sets: &SortedSet<String>,
    changed_as_path_sets: &SortedSet<String>,
    changed_policies: &SortedSet<String>,
) -> (r: Vec<Delivery>)
    ensures
        ({
            let sets = sets_in_force(
                *prefix_config,
                *community_config,
                *ext_community_config,
                *large_community_config,
                *as_path_config,
            );
            let changed = ChangedView {
                prefix: changed_prefix_sets@,
                community: changed_community_sets@,
                ext_community: changed_ext_community_sets@,
                large_community: changed_large_community_sets@,
                as_path: changed_as_path_sets@,
                policies: changed_policies@,
            };
            &&& final(policy_config)@ == cascaded(old(policy_config)@, sets, changed)
            &&& r.deep_view() == cascade_deliveries(
                watch_policy@,
                clients@,
                old(policy_config)@,
                sets,
                changed,
            )
        }),
{
    let ghost sets = sets_in_force(
        *prefix_config,
        *community_config,
        *ext_community_config,
        *large_community_config,
        *as_path_config,
    );
    let ghost changed = ChangedView {
        prefix: changed_prefix_sets@,
        community: changed_community_sets@,
        ext_community: changed_ext_community_sets@,
        large_community: changed_large_community_sets@,
        as_path: changed_as_path_sets@,
        policies: changed_policies@,
    };
    let ghost before = policy_config@;
    let ghost keys = before.dom();
    let ghost goal = cascaded(before, sets, changed);
    let ghost f = resync_deliveries(watch_policy@, clients@, before, sets, changed);
    let mut out: Vec<Delivery> = Vec::new();
    assert(out.deep_view() =~= Seq::empty());
    let n = policy_config.len();
    if changed_prefix_sets.is_empty() && changed_community_sets.is_empty()
        && changed_ext_community_sets.is_empty() && changed_large_community_sets.is_empty()
        && changed_as_path_sets.is_empty() {
        proof {
            untouched_sets(before, sets, changed, f, in_order::<String>(keys));
        }
        return out;
    }
    let mut i: usize = 0;
    let syncer = PolicySyncer { watch_map: watch_policy, clients, generation: 0 };
    proof {
        visited_none::<String>(keys);
        assert(in_order::<String>(keys).take(0).flat_map(f) =~= Seq::empty());
    }
    while i < n
        invariant
            i <= n,
            keys == before.dom(),
            keys.finite(),
            n == in_order::<String>(keys).len(),
            syncer.watch_map == watch_policy,
            syncer.clients == clients,
            sets == sets_in_force(
                *prefix_config,
                *community_config,
                *ext_community_config,
                *large_community_config,
                *as_path_config,
            ),
            changed == (ChangedView {
                prefix: changed_prefix_sets@,
                community: changed_community_sets@,
                ext_community: changed_ext_community_sets@,
                large_community: changed_large_community_sets@,
                as_path: changed_as_path_sets@,
                policies: changed_policies@,
            }),
            goal == cascaded(before, sets, changed),
            f == resync_deliveries(watch_policy@, clients@, before, sets, changed),
            policy_config@.dom() == keys,
            forall|name: Seq<char>|
                keys.contains(name) ==> #[trigger] policy_config@[name] == if visited::<String>(
                    keys,
                    i as int,
                ).contains(name) {
                    goal[name]
                } else {
                    before[name]
                },
            out.deep_view() == in_order::<String>(keys).take(i as int).flat_map(f),
        decreases n - i,
    {
        let name = policy_config.key_at(i).clone();
        let ghost sent = out.deep_view();
        let ghost mid = policy_config@;
        proof {
            visited_next::<String>(keys, i as int);
            let all = in_order::<String>(keys);
            assert(all.take(i + 1) =~= all.take(i as int).push(name@));
            flat_map_back(all.take(i as int), name@, f);
            assert(mid[name@] == before[name@]);
            assert(sent + Seq::<DeliveryView>::empty() =~= sent);
        }
        if !changed_policies.contains(&name) {
            match policy_config.get_mut(&name) {
                Some(policy_list) => {
                    if is_stale(
                        policy_list,
                        changed_prefix_sets,
                        changed_community_sets,
                        changed_ext_community_sets,
                        changed_large_community_sets,
                        changed_as_path_sets,
                        Ghost(changed),
                    ) {
                        policy_entry_sync(
                            policy_list,
                            prefix_config,
                            community_config,
                            ext_community_config,
                            large_community_config,
                            as_path_config,
                        );
                        let more = syncer.policy_list_update(name.as_str(), policy_list);
                        extend(&mut out, more);
                    }
                },
                None => {},
            }
        }
        proof {
            assert(policy_config@ =~= mid.insert(name@, goal[name@]));
            assert(policy_config@.dom() =~= keys);
            assert(out.deep_view() =~= sent + f(name@));
        }
        i += 1;
    }
    proof {
        visited_all::<String>(keys);
        assert(policy_config@ =~= goal);
        assert(in_order::<String>(keys).take(n as int) =~= in_order::<String>(keys));
    }
    out
}

/// Where no set was touched no policy is stale.
proof fn untouched_sets(
    policies: Map<Seq<char>, PolicyListView>,
    sets: SetsView,
    changed: ChangedView,
    f: spec_fn(Seq<char>) -> Seq<DeliveryView>,
    all: Seq<Seq<char>>,
)
    requires
        changed.prefix == Set::<Seq<char>>::empty(),
        changed.community == Set::<Seq<char>>::empty(),
        changed.ext_community == Set::<Seq<char>>::empty(),
        changed.large_community == Set::<Seq<char>>::empty(),
        changed.as_path == Set::<Seq<char>>::empty(),
        forall|name: Seq<char>|
            !needs_resync(policies, changed, name) ==> #[trigger] f(name) == Seq::<
                DeliveryView,
            >::empty(),
    ensures
        cascaded(policies, sets, changed) == policies,
        all.flat_map(f) == Seq::<DeliveryView>::empty(),
    decreases all.len(),
{
    assert forall|name: Seq<char>| !needs_resync(policies, changed, name) by {}
    assert(cascaded(policies, sets, changed) =~= policies);
    if all.len() > 0 {
        let front = all.drop_last();
        untouched_sets(policies, sets, changed, f, front);
        assert(all =~= front.push(all.last()));
        flat_map_back(front, all.last(), f);
        assert(f(all.last()) == Seq::<DeliveryView>::empty());
        assert(all.flat_map(f) =~= Seq::empty());
    } else {
        assert(all.flat_map(f) =~= Seq::empty());
    }
}

} // verus!
