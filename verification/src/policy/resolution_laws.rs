//! What a commit puts in force, name by name, and what each entry of a policy
//! holds afterwards, set by set.

use vstd::prelude::*;
use crate::policy::cascade::{cascaded, needs_resync, stale_entry, ChangedView};
use crate::policy::inst::{committed, policies_installed, sets_after, staged_policies, touched,
    PolicyView};
use crate::policy::list::{resolved, PolicyEntryView, PolicyListView, SetsView};
use crate::policy::sets::{KeyChainView, MemberSetView, PrefixSetView};

verus! {

/// Whether a set is the one that a map holds under a name, and none where there
/// is no name or nothing under it.
pub open spec fn is_under<M>(
    set: Option<M>,
    name: Option<Seq<char>>,
    sets: Map<Seq<char>, M>,
) -> bool {
    match set {
        Some(body) => name is Some && sets.contains_key(name->0) && sets[name->0] == body,
        None => name is Some ==> !sets.contains_key(name->0),
    }
}

/// Whether an entry holds, for each name that it refers to, what the given maps
/// hold under the name. The action plays no part.
pub open spec fn entry_holds(
    entry: PolicyEntryView,
    prefix: Map<Seq<char>, PrefixSetView>,
    community: Map<Seq<char>, MemberSetView>,
    ext_community: Map<Seq<char>, MemberSetView>,
    large_community: Map<Seq<char>, MemberSetView>,
    as_path: Map<Seq<char>, MemberSetView>,
) -> bool {
    &&& is_under(entry.prefix_set, entry.prefix_set_name, prefix)
    &&& is_under(entry.community_set, entry.community_set_name, community)
    &&& entry.set_community is Some ==> is_under(
        entry.set_community->0.community_set,
        Some(entry.set_community->0.name),
        community,
    )
    &&& is_under(entry.ext_community_set, entry.ext_community_set_name, ext_community)
    &&& is_under(entry.large_community_set, entry.large_community_set_name, large_community)
    &&& is_under(entry.as_path_set, entry.as_path_set_name, as_path)
}

/// Whether every entry of a policy holds the sets in force.
pub open spec fn list_holds(list: PolicyListView, policy: PolicyView) -> bool {
    forall|number: u32| #[trigger]
        list.entry.contains_key(number) ==> entry_holds(
            list.entry[number],
            policy.prefix.config,
            policy.community.config,
            policy.ext_community.config,
            policy.large_community.config,
            policy.as_path.config,
        )
}

/// Whether two entries say the same, apart from what their names stand for.
pub open spec fn same_entry(a: PolicyEntryView, b: PolicyEntryView) -> bool {
    &&& a.action == b.action
    &&& a.prefix_set_name == b.prefix_set_name
    &&& a.community_set_name == b.community_set_name
    &&& a.set_community is Some == b.set_community is Some
    &&& a.set_community is Some ==> {
        &&& a.set_community->0.name == b.set_community->0.name
        &&& a.set_community->0.additive == b.set_community->0.additive
    }
    &&& a.ext_community_set_name == b.ext_community_set_name
    &&& a.large_community_set_name == b.large_community_set_name
    &&& a.as_path_set_name == b.as_path_set_name
}

/// Whether two policies have the same entries, apart from what names stand for.
pub open spec fn same_list(a: PolicyListView, b: PolicyListView) -> bool {
    &&& a.delete == b.delete
    &&& forall|number: u32| #[trigger]
        a.entry.contains_key(number) == b.entry.contains_key(number)
    &&& forall|number: u32| #[trigger]
        a.entry.contains_key(number) ==> same_entry(a.entry[number], b.entry[number])
}

/// Resolving a policy fills in every entry, whatever its action, with just what
/// the sets hold under its names, and changes nothing else.
pub proof fn resolution_is_exact(list: PolicyListView, sets: SetsView)
    ensures
        same_list(resolved(list, sets), list),
        forall|number: u32| #[trigger]
            list.entry.contains_key(number) ==> entry_holds(
                resolved(list, sets).entry[number],
                sets.prefix,
                sets.community,
                sets.ext_community,
                sets.large_community,
                sets.as_path,
            ),
{
    assert forall|number: u32| #[trigger] list.entry.contains_key(number) implies entry_holds(
        resolved(list, sets).entry[number],
        sets.prefix,
        sets.community,
        sets.ext_community,
        sets.large_community,
        sets.as_path,
    ) by {
        assert(resolved(list, sets).entry.contains_key(number));
    }
}

/// A policy that holds what the sets have under its names is left as it is when
/// it is resolved again.
pub proof fn resolution_is_stable(list: PolicyListView, policy: PolicyView)
    requires
        list_holds(list, policy),
    ensures
        resolved(
            list,
            SetsView {
                prefix: policy.prefix.config,
                community: policy.community.config,
                ext_community: policy.ext_community.config,
                large_community: policy.large_community.config,
                as_path: policy.as_path.config,
            },
        ) == list,
{
    let sets = SetsView {
        prefix: policy.prefix.config,
        community: policy.community.config,
        ext_community: policy.ext_community.config,
        large_community: policy.large_community.config,
        as_path: policy.as_path.config,
    };
    let again = resolved(list, sets);
    assert forall|number: u32| list.entry.contains_key(number) implies #[trigger]
        again.entry[number] == list.entry[number] by {
        let e = list.entry[number];
        assert(list.entry.contains_key(number));
        assert(again.entry[number].prefix_set == e.prefix_set);
        assert(again.entry[number].set_community == e.set_community);
    }
    assert(again.entry =~= list.entry);
}

/// Whether a map is another one after the staged names were taken in: a staged
/// name has its staged body, unless that is marked to go, and every other name
/// is as it was.
pub open spec fn took_in<M>(
    after: Map<Seq<char>, M>,
    before: Map<Seq<char>, M>,
    staged: Map<Seq<char>, M>,
    marked: spec_fn(M) -> bool,
) -> bool {
    forall|name: Seq<char>|
        {
            if staged.contains_key(name) {
                if marked(staged[name]) {
                    !(#[trigger] after.contains_key(name))
                } else {
                    after.contains_key(name) && after[name] == staged[name]
                }
            } else {
                after.contains_key(name) == before.contains_key(name) && (before.contains_key(name)
                    ==> after[name] == before[name])
            }
        }
}

/// A commit takes in every staged set and key chain, and touches no other.
pub proof fn commit_takes_sets_in(policy: PolicyView, commit_generation: u64)
    ensures
        ({
            let after = committed(policy, commit_generation);
            &&& took_in(
                after.prefix.config,
                policy.prefix.config,
                policy.prefix.cache,
                |set: PrefixSetView| set.delete,
            )
            &&& took_in(
                after.community.config,
                policy.community.config,
                policy.community.cache,
                |set: MemberSetView| set.delete,
            )
            &&& took_in(
                after.ext_community.config,
                policy.ext_community.config,
                policy.ext_community.cache,
                |set: MemberSetView| set.delete,
            )
            &&& took_in(
                after.large_community.config,
                policy.large_community.config,
                policy.large_community.cache,
                |set: MemberSetView| set.delete,
            )
            &&& took_in(
                after.as_path.config,
                policy.as_path.config,
                policy.as_path.cache,
                |set: MemberSetView| set.delete,
            )
            &&& took_in(
                after.key_chain.config,
                policy.key_chain.config,
                policy.key_chain.cache,
                |chain: KeyChainView| chain.delete,
            )
        }),
{
}

/// A commit takes in every staged policy, and adds or removes no other. Apart
/// from what the names in it stand for, a staged policy comes in as it was
/// staged, and any other stays as it was.
pub proof fn commit_takes_policies_in(policy: PolicyView, commit_generation: u64, name: Seq<char>)
    ensures
        ({
            let before = policy.policies.config;
            let staged = policy.policies.cache;
            let after = committed(policy, commit_generation).policies.config;
            if staged.contains_key(name) {
                &&& after.contains_key(name) == !staged[name].delete
                &&& after.contains_key(name) ==> same_list(after[name], staged[name])
            } else {
                &&& after.contains_key(name) == before.contains_key(name)
                &&& after.contains_key(name) ==> same_list(after[name], before[name])
            }
        }),
{
    let sets = sets_after(policy);
    let staged = policy.policies.cache;
    let installed = policies_installed(policy);
    if staged.contains_key(name) {
        assert(staged_policies(policy).contains_key(name));
        resolution_is_exact(staged[name], sets);
    } else {
        assert(!staged_policies(policy).contains_key(name));
        if installed.contains_key(name) {
            resolution_is_exact(installed[name], sets);
        }
    }
}

/// After a commit every entry of a policy holds, field by field, the sets in
/// force under the names that it refers to, whatever its action. This is so of
/// a policy that was staged, and of one that was so before: it need not have
/// been touched itself.
pub proof fn commit_resolves_every_entry(
    policy: PolicyView,
    commit_generation: u64,
    name: Seq<char>,
)
    requires
        policy.policies.cache.contains_key(name) || (policy.policies.config.contains_key(name)
            && list_holds(policy.policies.config[name], policy)),
    ensures
        ({
            let after = committed(policy, commit_generation);
            after.policies.config.contains_key(name) ==> list_holds(
                after.policies.config[name],
                after,
            )
        }),
{
    let after = committed(policy, commit_generation);
    let sets = sets_after(policy);
    let changed = touched(policy);
    let installed = policies_installed(policy);
    if after.policies.config.contains_key(name) {
        let list = after.policies.config[name];
        if policy.policies.cache.contains_key(name) {
            assert(staged_policies(policy).contains_key(name));
            let staged = policy.policies.cache[name];
            resolution_is_exact(staged, sets);
            assert(list == resolved(staged, sets));
            assert forall|number: u32| #[trigger] list.entry.contains_key(number) implies entry_holds(
                list.entry[number],
                after.prefix.config,
                after.community.config,
                after.ext_community.config,
                after.large_community.config,
                after.as_path.config,
            ) by {
                assert(staged.entry.contains_key(number));
            }
        } else {
            assert(!staged_policies(policy).contains_key(name));
            let before = policy.policies.config[name];
            assert(installed[name] == before);
            if needs_resync(installed, changed, name) {
                resolution_is_exact(before, sets);
                assert forall|number: u32| #[trigger]
                    list.entry.contains_key(number) implies entry_holds(
                    list.entry[number],
                    after.prefix.config,
                    after.community.config,
                    after.ext_community.config,
                    after.large_community.config,
                    after.as_path.config,
                ) by {
                    assert(before.entry.contains_key(number));
                }
            } else {
                assert(list == before);
                assert forall|number: u32| #[trigger]
                    list.entry.contains_key(number) implies entry_holds(
                    list.entry[number],
                    after.prefix.config,
                    after.community.config,
                    after.ext_community.config,
                    after.large_community.config,
                    after.as_path.config,
                ) by {
                    assert(before.entry.contains_key(number));
                    assert(!stale_entry(before.entry[number], changed));
                }
            }
        }
    }
}

/// An edit of a set reaches every entry that refers to it: where a commit stages
/// a prefix-set, an entry of any policy that names it holds the staged body
/// afterwards, or none where the set is marked to go.
pub proof fn staged_prefix_set_reaches_entries(
    policy: PolicyView,
    commit_generation: u64,
    name: Seq<char>,
    number: u32,
    set: Seq<char>,
)
    requires
        policy.prefix.cache.contains_key(set),
        ({
            let after = committed(policy, commit_generation).policies.config;
            &&& after.contains_key(name)
            &&& after[name].entry.contains_key(number)
            &&& after[name].entry[number].prefix_set_name == Some(set)
        }),
    ensures
        ({
            let after = committed(policy, commit_generation).policies.config;
            after[name].entry[number].prefix_set == if policy.prefix.cache[set].delete {
                None
            } else {
                Some(policy.prefix.cache[set])
            }
        }),
{
    let sets = sets_after(policy);
    let changed = touched(policy);
    let installed = policies_installed(policy);
    let after = committed(policy, commit_generation).policies.config;
    if policy.policies.cache.contains_key(name) {
        assert(staged_policies(policy).contains_key(name));
        resolution_is_exact(policy.policies.cache[name], sets);
    } else {
        assert(!staged_policies(policy).contains_key(name));
        let before = policy.policies.config[name];
        resolution_is_exact(before, sets);
        if !needs_resync(installed, changed, name) {
            assert(before.entry.contains_key(number));
            assert(stale_entry(before.entry[number], changed));
        } else {
            assert(before.entry.contains_key(number));
        }
    }
}

/// Whether an entry refers to a set whose name is among the touched ones of its
/// kind.
pub open spec fn refers_to_touched(entry: PolicyEntryView, changed: ChangedView) -> bool {
    ||| entry.prefix_set_name is Some && changed.prefix.contains(entry.prefix_set_name->0)
    ||| entry.community_set_name is Some && changed.community.contains(
        entry.community_set_name->0,
    )
    ||| entry.set_community is Some && changed.community.contains(entry.set_community->0.name)
    ||| entry.ext_community_set_name is Some && changed.ext_community.contains(
        entry.ext_community_set_name->0,
    )
    ||| entry.large_community_set_name is Some && changed.large_community.contains(
        entry.large_community_set_name->0,
    )
    ||| entry.as_path_set_name is Some && changed.as_path.contains(entry.as_path_set_name->0)
}

/// Resolving again what touched sets reach: a policy that was not touched itself
/// and has an entry that refers to a touched set holds the sets as they are, in
/// every entry; any other policy is as it was, and no policy comes or goes.
pub proof fn touched_sets_reach_policies(
    policies: Map<Seq<char>, PolicyListView>,
    sets: SetsView,
    changed: ChangedView,
    name: Seq<char>,
    number: u32,
)
    requires
        policies.contains_key(name),
        policies[name].entry.contains_key(number),
    ensures
        ({
            let after = cascaded(policies, sets, changed);
            let reached = !changed.policies.contains(name) && exists|n: u32| #[trigger]
                policies[name].entry.contains_key(n) && refers_to_touched(
                    policies[name].entry[n],
                    changed,
                );
            &&& forall|other: Seq<char>| #[trigger]
                after.contains_key(other) == policies.contains_key(other)
            &&& same_list(after[name], policies[name])
            &&& !reached ==> after[name] == policies[name]
            &&& reached ==> entry_holds(
                after[name].entry[number],
                sets.prefix,
                sets.community,
                sets.ext_community,
                sets.large_community,
                sets.as_path,
            )
        }),
{
    resolution_is_exact(policies[name], sets);
    assert forall|n: u32| #[trigger] policies[name].entry.contains_key(n) implies refers_to_touched(
        policies[name].entry[n],
        changed,
    ) == stale_entry(policies[name].entry[n], changed) by {}
}

} // verus!
