//! The policy service: what is configured, who watches it, and what happens
//! when a client or the configuration speaks up.

use vstd::prelude::*;
use crate::args::ConfigOp;
use crate::order::in_order;
use crate::policy::cascade::{cascade_deliveries, cascade_indirect_policy_updates, cascaded,
    ChangedView};
use crate::policy::commit::{commit_deliveries, extend, key_chain_news, policy_list_news,
    prefix_set_news, resolved_all};
use crate::policy::list::{PolicyConfig, PolicyList, PolicyListView, SetsView};
use crate::policy::message::{Delivery, DeliveryView, Message, MessageView, PolicyRx, PolicyRxView,
    PolicyType, PolicyWatch, PolicyWatchView};
use crate::policy::sets::{in_force, AsPathSetConfig, CommunitySetConfig, ExtCommunitySetConfig,
    KeyChain, KeyChainSetConfig, KeyChainView, LargeCommunitySetConfig, MemberSet, MemberSetView,
    PrefixSet, PrefixSetConfig, PrefixSetView, SetConfig, SetConfigView};
use crate::policy::syncer::{told, Clients, KeyChainSyncer, NewsView, PolicySyncer, WatchMap};
use crate::policy::watch::{add_watch, drop_client, drop_watch, unwatched, watched, without_client};
use crate::sorted_map::SortedMap;
use crate::text::starts_with;
use crate::value::Value;

verus! {

/// The policy service.
#[derive(Debug)]
pub struct Policy {
    pub policy_config: PolicyConfig,
    pub prefix_config: PrefixSetConfig,
    pub community_config: CommunitySetConfig,
    pub ext_community_config: ExtCommunitySetConfig,
    pub large_community_config: LargeCommunitySetConfig,
    pub as_path_config: AsPathSetConfig,
    /// The key chains, which all protocols watch here.
    pub key_chain_config: KeyChainSetConfig,
    /// The channel of each client, by the client's name.
    pub clients: Clients,
    pub watch_prefix: WatchMap,
    pub watch_policy: WatchMap,
    pub watch_keychain: WatchMap,
    /// Counts the commits, unless a commit brings a number of its own.
    pub prefix_set_generation: u64,
    /// What waits to be handed to the clients.
    pub outbox: Vec<Delivery>,
}

/// What the policy service holds.
pub struct PolicyView {
    pub policies: SetConfigView<PolicyListView>,
    pub prefix: SetConfigView<PrefixSetView>,
    pub community: SetConfigView<MemberSetView>,
    pub ext_community: SetConfigView<MemberSetView>,
    pub large_community: SetConfigView<MemberSetView>,
    pub as_path: SetConfigView<MemberSetView>,
    pub key_chain: SetConfigView<KeyChainView>,
    pub clients: Map<Seq<char>, u64>,
    pub watch_prefix: Map<Seq<char>, Seq<PolicyWatchView>>,
    pub watch_policy: Map<Seq<char>, Seq<PolicyWatchView>>,
    pub watch_keychain: Map<Seq<char>, Seq<PolicyWatchView>>,
    pub generation: u64,
    pub outbox: Seq<DeliveryView>,
}

impl View for Policy {
    type V = PolicyView;

    open spec fn view(&self) -> PolicyView {
        PolicyView {
            policies: self.policy_config@,
            prefix: self.prefix_config@,
            community: self.community_config@,
            ext_community: self.ext_community_config@,
            large_community: self.large_community_config@,
            as_path: self.as_path_config@,
            key_chain: self.key_chain_config@,
            clients: self.clients@,
            watch_prefix: self.watch_prefix@,
            watch_policy: self.watch_policy@,
            watch_keychain: self.watch_keychain@,
            generation: self.prefix_set_generation,
            outbox: self.outbox.deep_view(),
        }
    }
}

impl PolicyView {
    /// Nothing configured, and no client.
    pub open spec fn empty() -> Self {
        PolicyView {
            policies: SetConfigView::empty(),
            prefix: SetConfigView::empty(),
            community: SetConfigView::empty(),
            ext_community: SetConfigView::empty(),
            large_community: SetConfigView::empty(),
            as_path: SetConfigView::empty(),
            key_chain: SetConfigView::empty(),
            clients: Map::empty(),
            watch_prefix: Map::empty(),
            watch_policy: Map::empty(),
            watch_keychain: Map::empty(),
            generation: 0,
            outbox: Seq::empty(),
        }
    }

    /// The same service with more to be handed out.
    pub open spec fn with_sent(self, more: Seq<DeliveryView>) -> Self {
        PolicyView { outbox: self.outbox + more, ..self }
    }

    /// The same service with news queued for a client, if it is there.
    pub open spec fn tell(self, proto: Seq<char>, msg: PolicyRxView) -> Self {
        if self.clients.contains_key(proto) {
            self.with_sent(seq![DeliveryView { tx: self.clients[proto], msg }])
        } else {
            self
        }
    }
}

/// Whether a client is a VRF, which goes by the generations of the prefix-sets.
pub open spec fn is_vrf(proto: Seq<char>) -> bool {
    "bgp:vrf:"@.is_prefix_of(proto)
}

/// All prefix-sets in force.
pub open spec fn inventory(policy: PolicyView) -> PolicyRxView {
    PolicyRxView::PrefixSetInventory {
        generation: policy.generation,
        prefix_sets: policy.prefix.config,
    }
}

/// The service after a client has started. A VRF first gets all prefix-sets.
pub open spec fn subscribed(policy: PolicyView, proto: Seq<char>, tx: u64) -> PolicyView {
    let told = if is_vrf(proto) {
        policy.with_sent(seq![DeliveryView { tx, msg: inventory(policy) }])
    } else {
        policy
    };
    PolicyView { clients: policy.clients.insert(proto, tx), ..told }
}

/// The service after a client was dropped, together with its watches.
pub open spec fn unsubscribed(policy: PolicyView, proto: Seq<char>) -> PolicyView {
    PolicyView {
        clients: policy.clients.remove(proto),
        watch_prefix: without_client(policy.watch_prefix, proto),
        watch_policy: without_client(policy.watch_policy, proto),
        watch_keychain: without_client(policy.watch_keychain, proto),
        ..policy
    }
}

/// What is in force under a name, none where nothing is.
pub open spec fn current<M>(config: Map<Seq<char>, M>, name: Seq<char>) -> Option<M> {
    if config.contains_key(name) {
        Some(config[name])
    } else {
        None
    }
}

/// The service after a client has registered a watch. A name that the client
/// may not use while it is undefined is answered either way, since the client
/// has to drop what it held before; a key chain is answered where it exists.
/// Nothing happens where the client is not there.
pub open spec fn registered(
    policy: PolicyView,
    proto: Seq<char>,
    name: Seq<char>,
    ident: usize,
    policy_type: PolicyType,
) -> PolicyView {
    let watch = PolicyWatchView { proto, ident, policy_type };
    if !policy.clients.contains_key(proto) {
        policy
    } else {
        match policy_type {
            PolicyType::PrefixSetIn | PolicyType::PrefixSetOut => {
                let news = NewsView::PrefixSet {
                    generation: policy.generation,
                    prefix_set: current(policy.prefix.config, name),
                };
                PolicyView {
                    watch_prefix: watched(policy.watch_prefix, name, watch),
                    ..policy.tell(proto, told(news, name, watch))
                }
            },
            PolicyType::PolicyListIn | PolicyType::PolicyListOut | PolicyType::TableMap => {
                let news = NewsView::PolicyList {
                    policy_list: current(policy.policies.config, name),
                };
                PolicyView {
                    watch_policy: watched(policy.watch_policy, name, watch),
                    ..policy.tell(proto, told(news, name, watch))
                }
            },
            PolicyType::KeyChain(_) => {
                let answered = if policy.key_chain.config.contains_key(name) {
                    let news = NewsView::KeyChain {
                        key_chain: Some(policy.key_chain.config[name]),
                    };
                    policy.tell(proto, told(news, name, watch))
                } else {
                    policy
                };
                PolicyView {
                    watch_keychain: watched(policy.watch_keychain, name, watch),
                    ..answered
                }
            },
        }
    }
}

/// The service after a client has dropped a watch. The client is told that it
/// is bound to nothing now; a key chain is shared, and stays with the client.
pub open spec fn unregistered(
    policy: PolicyView,
    proto: Seq<char>,
    name: Seq<char>,
    ident: usize,
    policy_type: PolicyType,
) -> PolicyView {
    let watch = PolicyWatchView { proto, ident, policy_type };
    match policy_type {
        PolicyType::PrefixSetIn | PolicyType::PrefixSetOut => {
            let news = NewsView::PrefixSet { generation: policy.generation, prefix_set: None };
            PolicyView {
                watch_prefix: unwatched(policy.watch_prefix, name, watch),
                ..policy.tell(proto, told(news, name, watch))
            }
        },
        PolicyType::PolicyListIn | PolicyType::PolicyListOut | PolicyType::TableMap => {
            let news = NewsView::PolicyList { policy_list: None };
            PolicyView {
                watch_policy: unwatched(policy.watch_policy, name, watch),
                ..policy.tell(proto, told(news, name, watch))
            }
        },
        PolicyType::KeyChain(_) => PolicyView {
            watch_keychain: unwatched(policy.watch_keychain, name, watch),
            ..policy
        },
    }
}

/// The service after a request.
pub open spec fn received(policy: PolicyView, msg: MessageView) -> PolicyView {
    match msg {
        MessageView::Subscribe { proto, tx } => subscribed(policy, proto, tx),
        MessageView::Unsubscribe { proto } => unsubscribed(policy, proto),
        MessageView::Register { proto, name, ident, policy_type } => registered(
            policy,
            proto,
            name,
            ident,
            policy_type,
        ),
        MessageView::Unregister { proto, name, ident, policy_type } => unregistered(
            policy,
            proto,
            name,
            ident,
            policy_type,
        ),
    }
}

impl Policy {
    /// A service with nothing configured and no client.
    pub fn new() -> (r: Policy)
        ensures
            r@ == PolicyView::empty(),
    {
        let r = Policy {
            policy_config: SetConfig::new(),
            prefix_config: SetConfig::new(),
            community_config: SetConfig::new(),
            ext_community_config: SetConfig::new(),
            large_community_config: SetConfig::new(),
            as_path_config: SetConfig::new(),
            key_chain_config: SetConfig::new(),
            clients: SortedMap::new(),
            watch_prefix: SortedMap::new(),
            watch_policy: SortedMap::new(),
            watch_keychain: SortedMap::new(),
            prefix_set_generation: 0,
            outbox: Vec::new(),
        };
        assert(r.outbox.deep_view() =~= Seq::empty());
        r
    }

    /// Queue news for a channel.
    fn push(&mut self, tx: u64, msg: PolicyRx)
        ensures
            final(self)@ == old(self)@.with_sent(seq![DeliveryView { tx, msg: msg@ }]),
    {
        let ghost before = self@.outbox;
        self.outbox.push(Delivery { tx, msg });
        assert(self@.outbox =~= before + seq![DeliveryView { tx, msg: msg@ }]);
    }

    /// Queue news for a client, if it is there.
    fn send(&mut self, proto: &String, msg: PolicyRx)
        ensures
            final(self)@ == old(self)@.tell(proto@, msg@),
    {
        match self.clients.get(proto) {
            Some(tx) => {
                let tx = *tx;
                self.push(tx, msg);
            },
            None => {},
        }
    }

    /// Handle a request of a client.
    pub fn process_msg(&mut self, msg: Message)
        ensures
            final(self)@ == received(old(self)@, msg@),
    {
        match msg {
            Message::Subscribe { proto, tx } => {
                if starts_with(proto.as_str(), "bgp:vrf:") {
                    let inventory = PolicyRx::PrefixSetInventory {
                        generation: self.prefix_set_generation,
                        prefix_sets: self.prefix_config.config.duplicate(),
                    };
                    self.push(tx, inventory);
                }
                self.clients.insert(proto, tx);
            },
            Message::Unsubscribe { proto } => {
                let ghost before = self.clients@;
                self.clients.remove(&proto);
                assert(self.clients@ =~= before.remove(proto@));
                drop_client(&mut self.watch_prefix, &proto);
                drop_client(&mut self.watch_policy, &proto);
                drop_client(&mut self.watch_keychain, &proto);
            },
            Message::Register { proto, name, ident, policy_type } => {
                if !self.clients.contains_key(&proto) {
                    return ;
                }
                match policy_type {
                    PolicyType::PrefixSetIn | PolicyType::PrefixSetOut => {
                        let prefix_set = match self.prefix_config.config.get(&name) {
                            Some(set) => Some(set.duplicate()),
                            None => None,
                        };
                        let answer = PolicyRx::PrefixSet {
                            generation: self.prefix_set_generation,
                            name: name.clone(),
                            ident,
                            policy_type,
                            prefix_set,
                        };
                        self.send(&proto, answer);
                        let watch = PolicyWatch { proto, ident, policy_type };
                        add_watch(&mut self.watch_prefix, name, watch);
                    },
                    PolicyType::PolicyListIn | PolicyType::PolicyListOut | PolicyType::TableMap => {
                        let policy_list = match self.policy_config.config.get(&name) {
                            Some(list) => Some(list.duplicate()),
                            None => None,
                        };
                        let answer = PolicyRx::PolicyList {
                            name: name.clone(),
                            ident,
                            policy_type,
                            policy_list,
                        };
                        self.send(&proto, answer);
                        let watch = PolicyWatch { proto, ident, policy_type };
                        add_watch(&mut self.watch_policy, name, watch);
                    },
                    PolicyType::KeyChain(_) => {
                        let answer = match self.key_chain_config.config.get(&name) {
                            Some(chain) => Some(
                                PolicyRx::KeyChain {
                                    name: name.clone(),
                                    ident,
                                    policy_type,
                                    key_chain: Some(chain.duplicate()),
                                },
                            ),
                            None => None,
                        };
                        match answer {
                            Some(answer) => self.send(&proto, answer),
                            None => {},
                        }
                        let watch = PolicyWatch { proto, ident, policy_type };
                        add_watch(&mut self.watch_keychain, name, watch);
                    },
                }
            },
            Message::Unregister { proto, name, ident, policy_type } => {
                match policy_type {
                    PolicyType::PrefixSetIn | PolicyType::PrefixSetOut => {
                        drop_watch(&mut self.watch_prefix, &name, &proto, ident, policy_type);
                        let reply = PolicyRx::PrefixSet {
                            generation: self.prefix_set_generation,
                            name,
                            ident,
                            policy_type,
                            prefix_set: None,
                        };
                        self.send(&proto, reply);
                    },
                    PolicyType::PolicyListIn | PolicyType::PolicyListOut | PolicyType::TableMap => {
                        drop_watch(&mut self.watch_policy, &name, &proto, ident, policy_type);
                        let reply = PolicyRx::PolicyList {
                            name,
                            ident,
                            policy_type,
                            policy_list: None,
                        };
                        self.send(&proto, reply);
                    },
                    PolicyType::KeyChain(_) => {
                        drop_watch(&mut self.watch_keychain, &name, &proto, ident, policy_type);
                    },
                }
            },
        }
    }
}

/// The part of the configuration that a path belongs to.
#[derive(Debug, Clone, Copy, PartialEq, Eq, Structural)]
pub enum ConfigTarget {
    Policy,
    PrefixSet,
    CommunitySet,
    ExtCommunitySet,
    LargeCommunitySet,
    AsPathSet,
    KeyChains,
}

/// The part of the configuration that a path belongs to, by how it begins.
pub open spec fn target_of(path: Seq<char>) -> Option<ConfigTarget> {
    if "/policy"@.is_prefix_of(path) {
        Some(ConfigTarget::Policy)
    } else if "/prefix-set"@.is_prefix_of(path) {
        Some(ConfigTarget::PrefixSet)
    } else if "/community-set"@.is_prefix_of(path) {
        Some(ConfigTarget::CommunitySet)
    } else if "/ext-community-set"@.is_prefix_of(path) {
        Some(ConfigTarget::ExtCommunitySet)
    } else if "/large-community-set"@.is_prefix_of(path) {
        Some(ConfigTarget::LargeCommunitySet)
    } else if "/as-path-set"@.is_prefix_of(path) {
        Some(ConfigTarget::AsPathSet)
    } else if "/key-chains"@.is_prefix_of(path) {
        Some(ConfigTarget::KeyChains)
    } else {
        None
    }
}

/// Find the part of the configuration that a path belongs to.
pub fn config_target(path: &str) -> (r: Option<ConfigTarget>)
    ensures
        r == target_of(path@),
{
    if starts_with(path, "/policy") {
        Some(ConfigTarget::Policy)
    } else if starts_with(path, "/prefix-set") {
        Some(ConfigTarget::PrefixSet)
    } else if starts_with(path, "/community-set") {
        Some(ConfigTarget::CommunitySet)
    } else if starts_with(path, "/ext-community-set") {
        Some(ConfigTarget::ExtCommunitySet)
    } else if starts_with(path, "/large-community-set") {
        Some(ConfigTarget::LargeCommunitySet)
    } else if starts_with(path, "/as-path-set") {
        Some(ConfigTarget::AsPathSet)
    } else if starts_with(path, "/key-chains") {
        Some(ConfigTarget::KeyChains)
    } else {
        None
    }
}

/// The generation of a commit: the one that it brings, or else the next one.
pub open spec fn next_generation(generation: u64, commit_generation: u64) -> u64 {
    if commit_generation != 0 {
        commit_generation
    } else if generation == u64::MAX {
        0
    } else {
        (generation + 1) as u64
    }
}

/// The clients that are VRFs, in the order of their names.
pub open spec fn vrf_clients(clients: Map<Seq<char>, u64>) -> Seq<Seq<char>> {
    in_order::<String>(clients.dom()).filter(|proto: Seq<char>| is_vrf(proto))
}

/// The same news for all VRFs.
pub open spec fn to_vrfs(clients: Map<Seq<char>, u64>, msg: PolicyRxView) -> Seq<DeliveryView> {
    vrf_clients(clients).map_values(|proto: Seq<char>| DeliveryView { tx: clients[proto], msg })
}

/// The prefix-sets after a commit.
pub open spec fn prefix_sets_after(policy: PolicyView) -> Map<Seq<char>, PrefixSetView> {
    in_force::<PrefixSet>(policy.prefix.config, policy.prefix.cache)
}

/// The sets after a commit.
pub open spec fn sets_after(policy: PolicyView) -> SetsView {
    SetsView {
        prefix: prefix_sets_after(policy),
        community: in_force::<MemberSet>(policy.community.config, policy.community.cache),
        ext_community: in_force::<MemberSet>(
            policy.ext_community.config,
            policy.ext_community.cache,
        ),
        large_community: in_force::<MemberSet>(
            policy.large_community.config,
            policy.large_community.cache,
        ),
        as_path: in_force::<MemberSet>(policy.as_path.config, policy.as_path.cache),
    }
}

/// The names that a commit touches: those that are staged.
pub open spec fn touched(policy: PolicyView) -> ChangedView {
    ChangedView {
        prefix: policy.prefix.cache.dom(),
        community: policy.community.cache.dom(),
        ext_community: policy.ext_community.cache.dom(),
        large_community: policy.large_community.cache.dom(),
        as_path: policy.as_path.cache.dom(),
        policies: policy.policies.cache.dom(),
    }
}

/// The staged policies, resolved against the sets after the commit.
pub open spec fn staged_policies(policy: PolicyView) -> Map<Seq<char>, PolicyListView> {
    resolved_all(policy.policies.cache, sets_after(policy))
}

/// The policies after a commit, before those that were not staged themselves
/// are resolved again.
pub open spec fn policies_installed(policy: PolicyView) -> Map<Seq<char>, PolicyListView> {
    in_force::<PolicyList>(policy.policies.config, staged_policies(policy))
}

/// What a commit hands out, from its beginning to its end.
pub open spec fn commit_news(policy: PolicyView, generation: u64) -> Seq<DeliveryView> {
    let clients = policy.clients;
    to_vrfs(clients, PolicyRxView::PrefixSetCommitStart { generation }) + commit_deliveries::<
        PrefixSet,
    >(policy.watch_prefix, clients, policy.prefix.cache, prefix_set_news(generation)) + to_vrfs(
        clients,
        PolicyRxView::PrefixSetInventory { generation, prefix_sets: prefix_sets_after(policy) },
    ) + commit_deliveries::<KeyChain>(
        policy.watch_keychain,
        clients,
        policy.key_chain.cache,
        key_chain_news(),
    ) + commit_deliveries::<PolicyList>(
        policy.watch_policy,
        clients,
        staged_policies(policy),
        policy_list_news(),
    ) + cascade_deliveries(
        policy.watch_policy,
        clients,
        policies_installed(policy),
        sets_after(policy),
        touched(policy),
    )
}

/// The service after a commit.
pub open spec fn committed(policy: PolicyView, commit_generation: u64) -> PolicyView {
    let generation = next_generation(policy.generation, commit_generation);
    let sets = sets_after(policy);
    PolicyView {
        policies: SetConfigView {
            config: cascaded(policies_installed(policy), sets, touched(policy)),
            cache: Map::empty(),
        },
        prefix: SetConfigView { config: sets.prefix, cache: Map::empty() },
        community: SetConfigView { config: sets.community, cache: Map::empty() },
        ext_community: SetConfigView { config: sets.ext_community, cache: Map::empty() },
        large_community: SetConfigView { config: sets.large_community, cache: Map::empty() },
        as_path: SetConfigView { config: sets.as_path, cache: Map::empty() },
        key_chain: SetConfigView {
            config: in_force::<KeyChain>(policy.key_chain.config, policy.key_chain.cache),
            cache: Map::empty(),
        },
        generation,
        ..policy.with_sent(commit_news(policy, generation))
    }
}

impl Policy {
    /// The channels of the clients that are VRFs.
    fn vrf_channels(&self) -> (r: Vec<u64>)
        ensures
            r@ == vrf_clients(self@.clients).map_values(
                |proto: Seq<char>| self@.clients[proto],
            ),
    {
        let ghost clients = self.clients@;
        let ghost all = in_order::<String>(clients.dom());
        let ghost pred = |proto: Seq<char>| is_vrf(proto);
        let ghost f = |proto: Seq<char>| clients[proto];
        let n = self.clients.len();
        let mut r: Vec<u64> = Vec::new();
        let mut i: usize = 0;
        proof {
            reveal(Seq::filter);
            assert(r@ =~= all.take(0).filter(pred).map_values(f));
        }
        while i < n
            invariant
                i <= n,
                clients == self.clients@,
                all == in_order::<String>(clients.dom()),
                n == all.len(),
                pred == (|proto: Seq<char>| is_vrf(proto)),
                f == (|proto: Seq<char>| clients[proto]),
                r@ == all.take(i as int).filter(pred).map_values(f),
            decreases n - i,
        {
            let proto = self.clients.key_at(i);
            proof {
                reveal(Seq::filter);
                assert(all.take(i + 1).drop_last() =~= all.take(i as int));
                assert(all.take(i + 1).last() == proto@);
            }
            if starts_with(proto.as_str(), "bgp:vrf:") {
                r.push(*self.clients.value_at(i));
            }
            assert(r@ =~= all.take(i + 1).filter(pred).map_values(f));
            i += 1;
        }
        assert(all.take(n as int) =~= all);
        assert(r@ =~= vrf_clients(self@.clients).map_values(
            |proto: Seq<char>| self@.clients[proto],
        ));
        r
    }

    /// Tell all VRFs that the prefix-sets of a commit follow.
    fn announce_start(&mut self, generation: u64)
        ensures
            final(self)@ == old(self)@.with_sent(
                to_vrfs(
                    old(self)@.clients,
                    PolicyRxView::PrefixSetCommitStart { generation },
                ),
            ),
    {
        let ghost before = self@;
        let ghost msg = PolicyRxView::PrefixSetCommitStart { generation };
        let ghost all = to_vrfs(before.clients, msg);
        let channels = self.vrf_channels();
        assert(self@.outbox =~= before.outbox + all.take(0));
        for tx in it: channels
            invariant
                it.seq() == channels@,
                channels@.len() == all.len(),
                forall|j: int| 0 <= j < all.len() ==> #[trigger] all[j] == (DeliveryView {
                    tx: channels@[j],
                    msg: PolicyRxView::PrefixSetCommitStart { generation },
                }),
                self@ == before.with_sent(all.take(it.index())),
        {
            let ghost i = it.index();
            self.push(tx, PolicyRx::PrefixSetCommitStart { generation });
            proof {
                assert(all.take(i + 1) =~= all.take(i).push(all[i]));
                assert(self@.outbox =~= before.outbox + all.take(i + 1));
            }
        }
        assert(all.take(all.len() as int) =~= all);
    }

    /// Hand all VRFs the prefix-sets in force.
    fn announce_inventory(&mut self)
        ensures
            final(self)@ == old(self)@.with_sent(
                to_vrfs(old(self)@.clients, inventory(old(self)@)),
            ),
    {
        let ghost before = self@;
        let ghost all = to_vrfs(before.clients, inventory(before));
        let channels = self.vrf_channels();
        assert(self@.outbox =~= before.outbox + all.take(0));
        for tx in it: channels
            invariant
                it.seq() == channels@,
                channels@.len() == all.len(),
                forall|j: int| 0 <= j < all.len() ==> #[trigger] all[j] == (DeliveryView {
                    tx: channels@[j],
                    msg: inventory(before),
                }),
                self@ == before.with_sent(all.take(it.index())),
        {
            let ghost i = it.index();
            let prefix_sets = self.prefix_config.config.duplicate();
            let generation = self.prefix_set_generation;
            self.push(tx, PolicyRx::PrefixSetInventory { generation, prefix_sets });
            proof {
                assert(all.take(i + 1) =~= all.take(i).push(all[i]));
                assert(self@.outbox =~= before.outbox + all.take(i + 1));
            }
        }
        assert(all.take(all.len() as int) =~= all);
    }

    /// Bring all that is staged into force, and tell everybody concerned.
    fn commit(&mut self, commit_generation: u64)
        ensures
            final(self)@ == committed(old(self)@, commit_generation),
    {
        let ghost before = self@;
        let changed_prefix_sets = self.prefix_config.cache.key_set();
        let changed_community_sets = self.community_config.cache.key_set();
        let changed_ext_community_sets = self.ext_community_config.cache.key_set();
        let changed_large_community_sets = self.large_community_config.cache.key_set();
        let changed_as_path_sets = self.as_path_config.cache.key_set();
        let changed_policies = self.policy_config.cache.key_set();

        let generation = if commit_generation == 0 {
            self.prefix_set_generation.wrapping_add(1)
        } else {
            commit_generation
        };
        assert(generation == next_generation(before.generation, commit_generation));
        self.announce_start(generation);

        let syncer = PolicySyncer {
            watch_map: &self.watch_prefix,
            clients: &self.clients,
            generation,
        };
        let told = PrefixSetConfig::commit(
            &mut self.prefix_config.config,
            &mut self.prefix_config.cache,
            syncer,
        );
        extend(&mut self.outbox, told);
        self.prefix_set_generation = generation;
        self.announce_inventory();

        let syncer = KeyChainSyncer { watch_map: &self.watch_keychain, clients: &self.clients };
        let told = KeyChainSetConfig::commit(
            &mut self.key_chain_config.config,
            &mut self.key_chain_config.cache,
            syncer,
        );
        extend(&mut self.outbox, told);
        self.community_config.commit();
        self.ext_community_config.commit();
        self.large_community_config.commit();
        self.as_path_config.commit();

        let syncer = PolicySyncer {
            watch_map: &self.watch_policy,
            clients: &self.clients,
            generation,
        };
        let told = PolicyConfig::commit(
            &mut self.policy_config.config,
            &mut self.policy_config.cache,
            &self.prefix_config,
            &self.community_config,
            &self.ext_community_config,
            &self.large_community_config,
            &self.as_path_config,
            syncer,
        );
        extend(&mut self.outbox, told);

        let told = cascade_indirect_policy_updates(
            &mut self.policy_config.config,
            &self.prefix_config,
            &self.community_config,
            &self.ext_community_config,
            &self.large_community_config,
            &self.as_path_config,
            &self.watch_policy,
            &self.clients,
            &changed_prefix_sets,
            &changed_community_sets,
            &changed_ext_community_sets,
            &changed_large_community_sets,
            &changed_as_path_sets,
            &changed_policies,
        );
        extend(&mut self.outbox, told);
        assert(self@.outbox =~= before.outbox + commit_news(before, generation));
    }

    /// Handle a request of the configuration. An assignment or a deletion
    /// belongs to the part of the configuration that is handed back; the end of
    /// a transaction commits what is staged.
    pub fn process_cm_msg(&mut self, path: &str, op: ConfigOp, commit_generation: u64) -> (r: Option<
        ConfigTarget,
    >)
        ensures
            r == (if op == ConfigOp::Assign || op == ConfigOp::Delete {
                target_of(path@)
            } else {
                None
            }),
            final(self)@ == (if op == ConfigOp::CommitEnd {
                committed(old(self)@, commit_generation)
            } else {
                old(self)@
            }),
    {
        match op {
            ConfigOp::Assign | ConfigOp::Delete => config_target(path),
            ConfigOp::CommitEnd => {
                self.commit(commit_generation);
                None
            },
            _ => None,
        }
    }
}

impl Default for Policy {
    fn default() -> (r: Policy)
        ensures
            r@ == PolicyView::empty(),
    {
        Policy::new()
    }
}

} // verus!
