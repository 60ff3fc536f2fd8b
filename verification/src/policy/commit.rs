//! Bringing staged sets and policies into force, and telling their watchers.

use vstd::prelude::*;
use crate::order::{in_order, in_order_is};
use crate::policy::list::{policy_entry_sync, resolved, sets_in_force, PolicyList, PolicyListView,
    SetsView};
use crate::policy::message::{Delivery, DeliveryView, PolicyWatchView};
use crate::policy::sets::{in_force, in_force_done, in_force_step, AsPathSetConfig,
    CommunitySetConfig, ExtCommunitySetConfig, KeyChain, KeyChainView, LargeCommunitySetConfig,
    PrefixSet, PrefixSetConfig, PrefixSetView, SetConfig, Staged};
use crate::policy::syncer::{fanned_out, KeyChainSyncer, NewsView, PolicySyncer, Syncer};
use crate::sorted_map::SortedMap;

verus! {

/// The first of a row of names, and the rest of it.
pub proof fn flat_map_front<A, B>(names: Seq<A>, f: spec_fn(A) -> Seq<B>)
    requires
        names.len() > 0,
    ensures
        names.flat_map(f) == f(names[0]) + names.drop_first().flat_map(f),
{
    assert(names.map_values(f).drop_first() =~= names.drop_first().map_values(f));
}

/// A row of names with one more at its end.
pub proof fn flat_map_back<A, B>(names: Seq<A>, name: A, f: spec_fn(A) -> Seq<B>)
    ensures
        names.push(name).flat_map(f) == names.flat_map(f) + f(name),
{
    names.lemma_flat_map_push(f, name);
}

/// The body that a name is staged with, none where the name is to go.
pub open spec fn staged_body<T: Staged>(cache: Map<Seq<char>, T::V>, name: Seq<char>) -> Option<
    T::V,
> {
    if T::marked(cache[name]) {
        None
    } else {
        Some(cache[name])
    }
}

/// The deliveries of a commit for one staged name.
pub open spec fn name_deliveries<T: Staged>(
    watch_map: Map<Seq<char>, Seq<PolicyWatchView>>,
    clients: Map<Seq<char>, u64>,
    cache: Map<Seq<char>, T::V>,
    news: spec_fn(Option<T::V>) -> NewsView,
) -> spec_fn(Seq<char>) -> Seq<DeliveryView> {
    |name: Seq<char>|
        fanned_out(watch_map, clients, name, news(staged_body::<T>(cache, name)))
}

/// The deliveries of a commit for all staged names, in their order.
pub open spec fn commit_deliveries<T: Staged>(
    watch_map: Map<Seq<char>, Seq<PolicyWatchView>>,
    clients: Map<Seq<char>, u64>,
    cache: Map<Seq<char>, T::V>,
    news: spec_fn(Option<T::V>) -> NewsView,
) -> Seq<DeliveryView> {
    in_order::<String>(cache.dom()).flat_map(
        name_deliveries::<T>(watch_map, clients, cache, news),
    )
}

/// The news of a prefix-set, as of a generation.
pub open spec fn prefix_set_news(generation: u64) -> spec_fn(Option<PrefixSetView>) -> NewsView {
    |prefix_set: Option<PrefixSetView>| NewsView::PrefixSet { generation, prefix_set }
}

/// The news of a policy.
pub open spec fn policy_list_news() -> spec_fn(Option<PolicyListView>) -> NewsView {
    |policy_list: Option<PolicyListView>| NewsView::PolicyList { policy_list }
}

/// The news of a key chain.
pub open spec fn key_chain_news() -> spec_fn(Option<KeyChainView>) -> NewsView {
    |key_chain: Option<KeyChainView>| NewsView::KeyChain { key_chain }
}

/// Append deliveries to others.
pub(crate) fn extend(out: &mut Vec<Delivery>, more: Vec<Delivery>)
    ensures
        final(out).deep_view() == old(out).deep_view() + more.deep_view(),
{
    let ghost before = out.deep_view();
    let ghost added = more.deep_view();
    let mut more = more;
    out.append(&mut more);
    assert(out.deep_view() =~= before + added);
}

impl SetConfig<PrefixSet> {
    /// Bring the staged prefix-sets into force and tell their watchers.
    pub fn commit(
        config: &mut SortedMap<String, PrefixSet>,
        cache: &mut SortedMap<String, PrefixSet>,
        syncer: PolicySyncer,
    ) -> (r: Vec<Delivery>)
        ensures
            final(config)@ == in_force::<PrefixSet>(old(config)@, old(cache)@),
            final(cache)@ == Map::<Seq<char>, PrefixSetView>::empty(),
            r.deep_view() == commit_deliveries::<PrefixSet>(
                syncer.watch_map@,
                syncer.clients@,
                old(cache)@,
                prefix_set_news(syncer.generation),
            ),
    {
        let ghost staged = cache@;
        let ghost goal = in_force::<PrefixSet>(config@, staged);
        let ghost f = name_deliveries::<PrefixSet>(
            syncer.watch_map@,
            syncer.clients@,
            staged,
            prefix_set_news(syncer.generation),
        );
        let ghost all = in_order::<String>(staged.dom()).flat_map(f);
        let mut out: Vec<Delivery> = Vec::new();
        assert(out.deep_view() + all =~= all);
        loop
            invariant
                in_force::<PrefixSet>(config@, cache@) == goal,
                forall|name: Seq<char>| #[trigger]
                    cache@.contains_key(name) ==> cache@[name] == staged[name],
                f == name_deliveries::<PrefixSet>(
                    syncer.watch_map@,
                    syncer.clients@,
                    staged,
                    prefix_set_news(syncer.generation),
                ),
                out.deep_view() + in_order::<String>(cache@.dom()).flat_map(f) == all,
            ensures
                config@ == goal,
                cache@ == Map::<Seq<char>, PrefixSetView>::empty(),
                out.deep_view() == all,
            decreases in_order::<String>(cache@.dom()).len(),
        {
            let ghost in_config = config@;
            let ghost in_cache = cache@;
            let ghost names = in_order::<String>(cache@.dom());
            let ghost sent = out.deep_view();
            proof {
                in_force_done::<PrefixSet>(config@);
            }
            match cache.pop_first() {
                None => {
                    proof {
                        no_names(in_cache);
                        assert(sent + Seq::<DeliveryView>::empty() =~= sent);
                    }
                    break ;
                },
                Some((name, set)) => {
                    proof {
                        in_force_step::<PrefixSet>(in_config, in_cache, name@);
                        flat_map_front(names, f);
                        assert(in_cache.contains_key(name@));
                    }
                    if set.delete {
                        let more = syncer.prefix_set_remove(name.as_str());
                        extend(&mut out, more);
                        config.remove(&name);
                        assert(config@ =~= in_config.remove(name@));
                    } else {
                        let more = syncer.prefix_set_update(name.as_str(), &set);
                        extend(&mut out, more);
                        config.insert(name, set);
                    }
                    assert(out.deep_view() == sent + f(name@));
                    assert(out.deep_view() + names.drop_first().flat_map(f) =~= sent
                        + names.flat_map(f));
                },
            }
        }
        out
    }
}

impl SetConfig<KeyChain> {
    /// Bring the staged key chains into force and tell their watchers.
    pub fn commit(
        config: &mut SortedMap<String, KeyChain>,
        cache: &mut SortedMap<String, KeyChain>,
        syncer: KeyChainSyncer,
    ) -> (r: Vec<Delivery>)
        ensures
            final(config)@ == in_force::<KeyChain>(old(config)@, old(cache)@),
            final(cache)@ == Map::<Seq<char>, KeyChainView>::empty(),
            r.deep_view() == commit_deliveries::<KeyChain>(
                syncer.watch_map@,
                syncer.clients@,
                old(cache)@,
                key_chain_news(),
            ),
    {
        let ghost staged = cache@;
        let ghost goal = in_force::<KeyChain>(config@, staged);
        let ghost f = name_deliveries::<KeyChain>(
            syncer.watch_map@,
            syncer.clients@,
            staged,
            key_chain_news(),
        );
        let ghost all = in_order::<String>(staged.dom()).flat_map(f);
        let mut out: Vec<Delivery> = Vec::new();
        assert(out.deep_view() + all =~= all);
        loop
            invariant
                in_force::<KeyChain>(config@, cache@) == goal,
                forall|name: Seq<char>| #[trigger]
                    cache@.contains_key(name) ==> cache@[name] == staged[name],
                f == name_deliveries::<KeyChain>(
                    syncer.watch_map@,
                    syncer.clients@,
                    staged,
                    key_chain_news(),
                ),
                out.deep_view() + in_order::<String>(cache@.dom()).flat_map(f) == all,
            ensures
                config@ == goal,
                cache@ == Map::<Seq<char>, KeyChainView>::empty(),
                out.deep_view() == all,
            decreases in_order::<String>(cache@.dom()).len(),
        {
            let ghost in_config = config@;
            let ghost in_cache = cache@;
            let ghost names = in_order::<String>(cache@.dom());
            let ghost sent = out.deep_view();
            proof {
                in_force_done::<KeyChain>(config@);
            }
            match cache.pop_first() {
                None => {
                    proof {
                        no_names(in_cache);
                        assert(sent + Seq::<DeliveryView>::empty() =~= sent);
                    }
                    break ;
                },
                Some((name, chain)) => {
                    proof {
                        in_force_step::<KeyChain>(in_config, in_cache, name@);
                        flat_map_front(names, f);
                        assert(in_cache.contains_key(name@));
                    }
                    if chain.delete {
                        let more = syncer.key_chain_remove(name.as_str());
                        extend(&mut out, more);
                        config.remove(&name);
                        assert(config@ =~= in_config.remove(name@));
                    } else {
                        let more = syncer.key_chain_update(name.as_str(), &chain);
                        extend(&mut out, more);
                        config.insert(name, chain);
                    }
                    assert(out.deep_view() == sent + f(name@));
                    assert(out.deep_view() + names.drop_first().flat_map(f) =~= sent
                        + names.flat_map(f));
                },
            }
        }
        out
    }
}

/// Policies with all their names resolved.
pub open spec fn resolved_all(
    policies: Map<Seq<char>, PolicyListView>,
    sets: SetsView,
) -> Map<Seq<char>, PolicyListView> {
    Map::new(
        |name: Seq<char>| policies.contains_key(name),
        |name: Seq<char>| resolved(policies[name], sets),
    )
}

impl SetConfig<PolicyList> {
    /// Bring the staged policies into force, resolved against the sets in force,
    /// and tell their watchers.
    pub fn commit(
        config: &mut SortedMap<String, PolicyList>,
        cache: &mut SortedMap<String, PolicyList>,
        prefix_config: &PrefixSetConfig,
        community_config: &CommunitySetConfig,
        ext_community_config: &ExtCommunitySetConfig,
        large_community_config: &LargeCommunitySetConfig,
        as_path_config: &AsPathSetConfig,
        syncer: PolicySyncer,
    ) -> (r: Vec<Delivery>)
        ensures
            ({
                let sets = sets_in_force(
                    *prefix_config,
                    *community_config,
                    *ext_community_config,
                    *large_community_config,
                    *as_path_config,
                );
                let staged = resolved_all(old(cache)@, sets);
                &&& final(config)@ == in_force::<PolicyList>(old(config)@, staged)
                &&& final(cache)@ == Map::<Seq<char>, PolicyListView>::empty()
                &&& r.deep_view() == commit_deliveries::<PolicyList>(
                    syncer.watch_map@,
                    syncer.clients@,
                    staged,
                    policy_list_news(),
                )
            }),
    {
        let ghost sets = sets_in_force(
            *prefix_config,
            *community_config,
            *ext_community_config,
            *large_community_config,
            *as_path_config,
        );
        let ghost staged = resolved_all(cache@, sets);
        let ghost goal = in_force::<PolicyList>(config@, staged);
        let ghost f = name_deliveries::<PolicyList>(
            syncer.watch_map@,
            syncer.clients@,
            staged,
            policy_list_news(),
        );
        assert(staged.dom() =~= cache@.dom());
        let ghost all = in_order::<String>(cache@.dom()).flat_map(f);
        let mut out: Vec<Delivery> = Vec::new();
        assert(out.deep_view() + all =~= all);
        loop
            invariant
                sets == sets_in_force(
                    *prefix_config,
                    *community_config,
                    *ext_community_config,
                    *large_community_config,
                    *as_path_config,
                ),
                in_force::<PolicyList>(config@, resolved_all(cache@, sets)) == goal,
                forall|name: Seq<char>| #[trigger]
                    cache@.contains_key(name) ==> resolved(cache@[name], sets) == staged[name],
                f == name_deliveries::<PolicyList>(
                    syncer.watch_map@,
                    syncer.clients@,
                    staged,
                    policy_list_news(),
                ),
                out.deep_view() + in_order::<String>(cache@.dom()).flat_map(f) == all,
            ensures
                config@ == goal,
                cache@ == Map::<Seq<char>, PolicyListView>::empty(),
                out.deep_view() == all,
            decreases in_order::<String>(cache@.dom()).len(),
        {
            let ghost in_config = config@;
            let ghost in_cache = cache@;
            let ghost names = in_order::<String>(cache@.dom());
            let ghost sent = out.deep_view();
            match cache.pop_first() {
                None => {
                    proof {
                        assert(resolved_all(in_cache, sets) =~= Map::empty());
                        in_force_done::<PolicyList>(config@);
                        no_names(in_cache);
                        assert(sent + Seq::<DeliveryView>::empty() =~= sent);
                    }
                    break ;
                },
                Some((name, list)) => {
                    let mut list = list;
                    proof {
                        assert(in_cache.contains_key(name@));
                        in_force_step::<PolicyList>(
                            in_config,
                            resolved_all(in_cache, sets),
                            name@,
                        );
                        assert(resolved_all(cache@, sets) =~= resolved_all(in_cache, sets).remove(
                            name@,
                        ));
                        flat_map_front(names, f);
                    }
                    if list.delete {
                        let more = syncer.policy_list_remove(name.as_str());
                        extend(&mut out, more);
                        config.remove(&name);
                        assert(config@ =~= in_config.remove(name@));
                    } else {
                        policy_entry_sync(
                            &mut list,
                            prefix_config,
                            community_config,
                            ext_community_config,
                            large_community_config,
                            as_path_config,
                        );
                        let more = syncer.policy_list_update(name.as_str(), &list);
                        extend(&mut out, more);
                        config.insert(name, list);
                    }
                    assert(out.deep_view() == sent + f(name@));
                    assert(out.deep_view() + names.drop_first().flat_map(f) =~= sent
                        + names.flat_map(f));
                },
            }
        }
        out
    }
}

/// An empty map has no names.
proof fn no_names<M>(cache: Map<Seq<char>, M>)
    requires
        cache == Map::<Seq<char>, M>::empty(),
    ensures
        in_order::<String>(cache.dom()) == Seq::<Seq<char>>::empty(),
{
    in_order_is::<String>(Seq::empty());
    assert(Seq::<Seq<char>>::empty().to_set() =~= cache.dom());
}

} // verus!
