//! Telling the watchers of a name what has become of it.

use vstd::prelude::*;
use crate::policy::list::{PolicyList, PolicyListView};
use crate::policy::message::{Delivery, DeliveryView, PolicyRx, PolicyRxView, PolicyWatch,
    PolicyWatchView};
use crate::policy::sets::{KeyChain, KeyChainView, PrefixSet, PrefixSetView};
use crate::sorted_map::SortedMap;
use crate::value::Value;

verus! {

/// The watches on each name, in the order in which they were registered.
pub type WatchMap = SortedMap<String, Vec<PolicyWatch>>;

/// The channels of the clients.
pub type Clients = SortedMap<String, u64>;

/// What has become of a name.
pub enum NewsView {
    PrefixSet { generation: u64, prefix_set: Option<PrefixSetView> },
    PolicyList { policy_list: Option<PolicyListView> },
    KeyChain { key_chain: Option<KeyChainView> },
}

/// What has become of a name.
enum News<'a> {
    PrefixSet { generation: u64, prefix_set: Option<&'a PrefixSet> },
    PolicyList { policy_list: Option<&'a PolicyList> },
    KeyChain { key_chain: Option<&'a KeyChain> },
}

impl<'a> News<'a> {
    spec fn view(&self) -> NewsView {
        match *self {
            News::PrefixSet { generation, prefix_set } => NewsView::PrefixSet {
                generation,
                prefix_set: match prefix_set {
                    Some(set) => Some(set@),
                    None => None,
                },
            },
            News::PolicyList { policy_list } => NewsView::PolicyList {
                policy_list: match policy_list {
                    Some(list) => Some(list@),
                    None => None,
                },
            },
            News::KeyChain { key_chain } => NewsView::KeyChain {
                key_chain: match key_chain {
                    Some(chain) => Some(chain@),
                    None => None,
                },
            },
        }
    }

    /// The news as one watch gets it.
    fn told(&self, name: &String, watch: &PolicyWatch) -> (r: PolicyRx)
        ensures
            r@ == told(self@, name@, watch@),
    {
        match self {
            News::PrefixSet { generation, prefix_set } => PolicyRx::PrefixSet {
                generation: *generation,
                name: name.clone(),
                ident: watch.ident,
                policy_type: watch.policy_type,
                prefix_set: match prefix_set {
                    Some(set) => Some(set.duplicate()),
                    None => None,
                },
            },
            News::PolicyList { policy_list } => PolicyRx::PolicyList {
                name: name.clone(),
                ident: watch.ident,
                policy_type: watch.policy_type,
                policy_list: match policy_list {
                    Some(list) => Some(list.duplicate()),
                    None => None,
                },
            },
            News::KeyChain { key_chain } => PolicyRx::KeyChain {
                name: name.clone(),
                ident: watch.ident,
                policy_type: watch.policy_type,
                key_chain: match key_chain {
                    Some(chain) => Some(chain.duplicate()),
                    None => None,
                },
            },
        }
    }
}

/// The news of a name as one watch gets it.
pub open spec fn told(news: NewsView, name: Seq<char>, watch: PolicyWatchView) -> PolicyRxView {
    match news {
        NewsView::PrefixSet { generation, prefix_set } => PolicyRxView::PrefixSet {
            generation,
            name,
            ident: watch.ident,
            policy_type: watch.policy_type,
            prefix_set,
        },
        NewsView::PolicyList { policy_list } => PolicyRxView::PolicyList {
            name,
            ident: watch.ident,
            policy_type: watch.policy_type,
            policy_list,
        },
        NewsView::KeyChain { key_chain } => PolicyRxView::KeyChain {
            name,
            ident: watch.ident,
            policy_type: watch.policy_type,
            key_chain,
        },
    }
}

/// Whether the client that made a watch is there.
pub open spec fn is_live(clients: Map<Seq<char>, u64>) -> spec_fn(PolicyWatchView) -> bool {
    |watch: PolicyWatchView| clients.contains_key(watch.proto)
}

/// The delivery of the news of a name to a watch.
pub open spec fn delivery(
    clients: Map<Seq<char>, u64>,
    name: Seq<char>,
    news: NewsView,
) -> spec_fn(PolicyWatchView) -> DeliveryView {
    |watch: PolicyWatchView|
        DeliveryView { tx: clients[watch.proto], msg: told(news, name, watch) }
}

/// The deliveries of the news of a name: one for each watch on it whose client
/// is there, in the order in which the watches were registered.
pub open spec fn fanned_out(
    watch_map: Map<Seq<char>, Seq<PolicyWatchView>>,
    clients: Map<Seq<char>, u64>,
    name: Seq<char>,
    news: NewsView,
) -> Seq<DeliveryView> {
    if watch_map.contains_key(name) {
        watch_map[name].filter(is_live(clients)).map_values(delivery(clients, name, news))
    } else {
        Seq::empty()
    }
}

/// Make the deliveries of the news of a name.
fn fan_out(watch_map: &WatchMap, clients: &Clients, name: &String, news: &News) -> (r: Vec<
    Delivery,
>)
    ensures
        r.deep_view() == fanned_out(watch_map@, clients@, name@, news@),
{
    let mut out: Vec<Delivery> = Vec::new();
    match watch_map.get(name) {
        Some(watches) => {
            let ghost all = watches.deep_view();
            let ghost f = delivery(clients@, name@, news@);
            let mut i: usize = 0;
            proof {
                reveal(Seq::filter);
                assert(out.deep_view() =~= all.take(0).filter(is_live(clients@)).map_values(f));
            }
            while i < watches.len()
                invariant
                    i <= watches@.len(),
                    all == watches.deep_view(),
                    f == delivery(clients@, name@, news@),
                    out.deep_view() == all.take(i as int).filter(is_live(clients@)).map_values(f),
                decreases watches@.len() - i,
            {
                let watch = &watches[i];
                let ghost before = out.deep_view();
                proof {
                    reveal(Seq::filter);
                    assert(all.take(i + 1).drop_last() =~= all.take(i as int));
                    assert(all.take(i + 1).last() == watch@);
                }
                match clients.get(&watch.proto) {
                    Some(tx) => {
                        out.push(Delivery { tx: *tx, msg: news.told(name, watch) });
                        assert(out.deep_view() =~= before.push(f(watch@)));
                    },
                    None => {},
                }
                assert(out.deep_view() =~= all.take(i + 1).filter(is_live(clients@)).map_values(f));
                i += 1;
            }
            assert(all.take(all.len() as int) =~= all);
        },
        None => {
            assert(out.deep_view() =~= Seq::empty());
        },
    }
    out
}

/// What a commit calls for each name that it touches. A syncer does only what
/// concerns it; the rest makes no deliveries.
pub trait Syncer {
    fn prefix_set_update(&self, _name: &str, _prefix_set: &PrefixSet) -> (r: Vec<Delivery>)
        default_ensures
            r.deep_view() == Seq::<DeliveryView>::empty(),
    {
        nothing()
    }

    fn prefix_set_remove(&self, _name: &str) -> (r: Vec<Delivery>)
        default_ensures
            r.deep_view() == Seq::<DeliveryView>::empty(),
    {
        nothing()
    }

    fn policy_list_update(&self, _name: &str, _policy_list: &PolicyList) -> (r: Vec<Delivery>)
        default_ensures
            r.deep_view() == Seq::<DeliveryView>::empty(),
    {
        nothing()
    }

    fn policy_list_remove(&self, _name: &str) -> (r: Vec<Delivery>)
        default_ensures
            r.deep_view() == Seq::<DeliveryView>::empty(),
    {
        nothing()
    }

    fn key_chain_update(&self, _name: &str, _key_chain: &KeyChain) -> (r: Vec<Delivery>)
        default_ensures
            r.deep_view() == Seq::<DeliveryView>::empty(),
    {
        nothing()
    }

    fn key_chain_remove(&self, _name: &str) -> (r: Vec<Delivery>)
        default_ensures
            r.deep_view() == Seq::<DeliveryView>::empty(),
    {
        nothing()
    }
}

/// No deliveries.
fn nothing() -> (r: Vec<Delivery>)
    ensures
        r.deep_view() == Seq::<DeliveryView>::empty(),
{
    let r: Vec<Delivery> = Vec::new();
    assert(r.deep_view() =~= Seq::<DeliveryView>::empty());
    r
}

/// Tells the watchers of prefix-sets, or those of policies.
pub struct PolicySyncer<'a> {
    pub watch_map: &'a WatchMap,
    pub clients: &'a Clients,
    pub generation: u64,
}

/// Tells the watchers of key chains. They may belong to different parts of a
/// protocol, which each watch says in its type.
pub struct KeyChainSyncer<'a> {
    pub watch_map: &'a WatchMap,
    pub clients: &'a Clients,
}

impl<'a> Syncer for PolicySyncer<'a> {
    fn prefix_set_update(&self, name: &str, prefix_set: &PrefixSet) -> (r: Vec<Delivery>)
        ensures
            r.deep_view() == fanned_out(
                self.watch_map@,
                self.clients@,
                name@,
                NewsView::PrefixSet { generation: self.generation, prefix_set: Some(prefix_set@) },
            ),
    {
        let news = News::PrefixSet { generation: self.generation, prefix_set: Some(prefix_set) };
        fan_out(self.watch_map, self.clients, &name.to_string(), &news)
    }

    fn prefix_set_remove(&self, name: &str) -> (r: Vec<Delivery>)
        ensures
            r.deep_view() == fanned_out(
                self.watch_map@,
                self.clients@,
                name@,
                NewsView::PrefixSet { generation: self.generation, prefix_set: None },
            ),
    {
        let news = News::PrefixSet { generation: self.generation, prefix_set: None };
        fan_out(self.watch_map, self.clients, &name.to_string(), &news)
    }

    fn policy_list_update(&self, name: &str, policy_list: &PolicyList) -> (r: Vec<Delivery>)
        ensures
            r.deep_view() == fanned_out(
                self.watch_map@,
                self.clients@,
                name@,
                NewsView::PolicyList { policy_list: Some(policy_list@) },
            ),
    {
        let news = News::PolicyList { policy_list: Some(policy_list) };
        fan_out(self.watch_map, self.clients, &name.to_string(), &news)
    }

    fn policy_list_remove(&self, name: &str) -> (r: Vec<Delivery>)
        ensures
            r.deep_view() == fanned_out(
                self.watch_map@,
                self.clients@,
                name@,
                NewsView::PolicyList { policy_list: None },
            ),
    {
        let news = News::PolicyList { policy_list: None };
        fan_out(self.watch_map, self.clients, &name.to_string(), &news)
    }
}

impl<'a> Syncer for KeyChainSyncer<'a> {
    fn key_chain_update(&self, name: &str, key_chain: &KeyChain) -> (r: Vec<Delivery>)
        ensures
            r.deep_view() == fanned_out(
                self.watch_map@,
                self.clients@,
                name@,
                NewsView::KeyChain { key_chain: Some(key_chain@) },
            ),
    {
        let news = News::KeyChain { key_chain: Some(key_chain) };
        fan_out(self.watch_map, self.clients, &name.to_string(), &news)
    }

    fn key_chain_remove(&self, name: &str) -> (r: Vec<Delivery>)
        ensures
            r.deep_view() == fanned_out(
                self.watch_map@,
                self.clients@,
                name@,
                NewsView::KeyChain { key_chain: None },
            ),
    {
        let news = News::KeyChain { key_chain: None };
        fan_out(self.watch_map, self.clients, &name.to_string(), &news)
    }
}

} // verus!
