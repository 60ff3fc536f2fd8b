//! The watches on names: adding them, and dropping one or all of a client's.

use vstd::prelude::*;
use crate::order::in_order;
use crate::policy::message::{PolicyType, PolicyWatch, PolicyWatchView};
use crate::policy::syncer::WatchMap;
use crate::sorted_map::SortedMap;

verus! {

/// The watches on a name.
pub open spec fn watches_on(
    watch_map: Map<Seq<char>, Seq<PolicyWatchView>>,
    name: Seq<char>,
) -> Seq<PolicyWatchView> {
    if watch_map.contains_key(name) {
        watch_map[name]
    } else {
        Seq::empty()
    }
}

/// The watches after one more was registered: it stands behind those that the
/// name has already.
pub open spec fn watched(
    watch_map: Map<Seq<char>, Seq<PolicyWatchView>>,
    name: Seq<char>,
    watch: PolicyWatchView,
) -> Map<Seq<char>, Seq<PolicyWatchView>> {
    watch_map.insert(name, watches_on(watch_map, name).push(watch))
}

/// Whether a watch is not a given one.
pub open spec fn is_other(watch: PolicyWatchView) -> spec_fn(PolicyWatchView) -> bool {
    |other: PolicyWatchView| other != watch
}

/// Whether a watch is not made by a given client.
pub open spec fn is_foreign(proto: Seq<char>) -> spec_fn(PolicyWatchView) -> bool {
    |watch: PolicyWatchView| watch.proto != proto
}

/// The watches without a given one. A name without watches is dropped.
pub open spec fn unwatched(
    watch_map: Map<Seq<char>, Seq<PolicyWatchView>>,
    name: Seq<char>,
    watch: PolicyWatchView,
) -> Map<Seq<char>, Seq<PolicyWatchView>> {
    if watch_map.contains_key(name) {
        let kept = watch_map[name].filter(is_other(watch));
        if kept.len() == 0 {
            watch_map.remove(name)
        } else {
            watch_map.insert(name, kept)
        }
    } else {
        watch_map
    }
}

/// The watches without those of a client. A name without watches is dropped.
pub open spec fn without_client(
    watch_map: Map<Seq<char>, Seq<PolicyWatchView>>,
    proto: Seq<char>,
) -> Map<Seq<char>, Seq<PolicyWatchView>> {
    Map::new(
        |name: Seq<char>|
            watch_map.contains_key(name) && watch_map[name].filter(is_foreign(proto)).len() > 0,
        |name: Seq<char>| watch_map[name].filter(is_foreign(proto)),
    )
}

/// Register a watch.
pub fn add_watch(watch_map: &mut WatchMap, name: String, watch: PolicyWatch)
    ensures
        final(watch_map)@ == watched(old(watch_map)@, name@, watch@),
{
    let ghost before = watches_on(watch_map@, name@);
    let empty: Vec<PolicyWatch> = Vec::new();
    assert(empty.deep_view() =~= Seq::<PolicyWatchView>::empty());
    let watches = watch_map.get_or_insert(name, empty);
    watches.push(watch);
    assert(watches.deep_view() =~= before.push(watch@));
}

/// The watches of a row that are not the given one.
fn others(watches: &mut Vec<PolicyWatch>, proto: &String, ident: usize, policy_type: PolicyType)
    ensures
        final(watches).deep_view() == old(watches).deep_view().filter(
            is_other(PolicyWatchView { proto: proto@, ident, policy_type }),
        ),
{
    let ghost given = PolicyWatchView { proto: proto@, ident, policy_type };
    let ghost all = watches.deep_view();
    let mut taken: Vec<PolicyWatch> = Vec::new();
    std::mem::swap(&mut taken, watches);
    proof {
        reveal(Seq::filter);
        assert(watches.deep_view() =~= all.take(0).filter(is_other(given)));
    }
    for watch in it: taken
        invariant
            taken.deep_view() == all,
            it.seq() == taken@,
            given == (PolicyWatchView { proto: proto@, ident, policy_type }),
            watches.deep_view() == all.take(it.index()).filter(is_other(given)),
    {
        let ghost i = it.index();
        let ghost before = watches.deep_view();
        proof {
            reveal(Seq::filter);
            assert(all.take(i + 1).drop_last() =~= all.take(i));
            assert(all.take(i + 1).last() == watch@);
        }
        if !(watch.proto == *proto && watch.ident == ident && watch.policy_type == policy_type) {
            watches.push(watch);
            assert(watches.deep_view() =~= before.push(watch@));
        }
    }
    assert(all.take(all.len() as int) =~= all);
}

/// The watches of a row that are not made by the client.
fn foreign(watches: Vec<PolicyWatch>, proto: &String) -> (r: Vec<PolicyWatch>)
    ensures
        r.deep_view() == watches.deep_view().filter(is_foreign(proto@)),
{
    let ghost all = watches.deep_view();
    let mut kept: Vec<PolicyWatch> = Vec::new();
    proof {
        reveal(Seq::filter);
        assert(kept.deep_view() =~= all.take(0).filter(is_foreign(proto@)));
    }
    for watch in it: watches
        invariant
            watches.deep_view() == all,
            it.seq() == watches@,
            kept.deep_view() == all.take(it.index()).filter(is_foreign(proto@)),
    {
        let ghost i = it.index();
        let ghost before = kept.deep_view();
        proof {
            reveal(Seq::filter);
            assert(all.take(i + 1).drop_last() =~= all.take(i));
            assert(all.take(i + 1).last() == watch@);
        }
        if !(watch.proto == *proto) {
            kept.push(watch);
            assert(kept.deep_view() =~= before.push(watch@));
        }
    }
    assert(all.take(all.len() as int) =~= all);
    kept
}

/// Drop a watch.
pub fn drop_watch(
    watch_map: &mut WatchMap,
    name: &String,
    proto: &String,
    ident: usize,
    policy_type: PolicyType,
)
    ensures
        final(watch_map)@ == unwatched(
            old(watch_map)@,
            name@,
            PolicyWatchView { proto: proto@, ident, policy_type },
        ),
{
    let ghost before = watch_map@;
    let emptied = match watch_map.get_mut(name) {
        Some(watches) => {
            others(watches, proto, ident, policy_type);
            watches.len() == 0
        },
        None => false,
    };
    if emptied {
        watch_map.remove(name);
        assert(watch_map@ =~= before.remove(name@));
    }
}

/// Drop all watches of a client.
pub fn drop_client(watch_map: &mut WatchMap, proto: &String)
    ensures
        final(watch_map)@ == without_client(old(watch_map)@, proto@),
{
    let ghost before = watch_map@;
    let ghost goal = without_client(before, proto@);
    let mut taken: WatchMap = SortedMap::new();
    std::mem::swap(&mut taken, watch_map);
    loop
        invariant
            goal == without_client(before, proto@),
            forall|name: Seq<char>| #[trigger]
                taken@.contains_key(name) ==> before.contains_key(name) && taken@[name]
                    == before[name],
            forall|name: Seq<char>| #[trigger]
                watch_map@.contains_key(name) <==> goal.contains_key(name) && !taken@.contains_key(
                    name,
                ),
            forall|name: Seq<char>| #[trigger]
                watch_map@.contains_key(name) ==> watch_map@[name] == goal[name],
        ensures
            watch_map@ == goal,
        decreases in_order::<String>(taken@.dom()).len(),
    {
        let ghost left = taken@;
        match taken.pop_first() {
            None => {
                assert(watch_map@ =~= goal);
                break ;
            },
            Some((name, watches)) => {
                assert(left.contains_key(name@));
                let kept = foreign(watches, proto);
                if kept.len() > 0 {
                    watch_map.insert(name, kept);
                }
            },
        }
    }
}

} // verus!
