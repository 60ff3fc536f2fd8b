//! What holds of the policy service as a whole, on chosen values.

use vrf_policy::args::{Arg, Args, ConfigOp};
use vrf_policy::policy::inst::{config_target, ConfigTarget, Policy};
use vrf_policy::policy::list::{PolicyAction, PolicyEntry, PolicyList, SetCommunity};
use vrf_policy::policy::message::{
    Delivery, KeyChainScope, Message, PolicyRx, PolicyType, PolicyWatch,
};
use vrf_policy::policy::sets::{KeyChain, MemberSet, PrefixSet, PrefixSetEntry};
use vrf_policy::policy::syncer::{KeyChainSyncer, PolicySyncer, Syncer};
use vrf_policy::sorted_map::SortedMap;

fn s(text: &str) -> String {
    text.to_string()
}

fn prefix_set(prefix: &str) -> PrefixSet {
    let net = Args::new(vec![Arg {
        text: s(prefix),
        addr: None,
        rd: None,
    }])
    .net()
    .unwrap();
    let mut set = PrefixSet::default();
    set.insert(
        net,
        PrefixSetEntry {
            le: Some(32),
            ge: None,
        },
    );
    set
}

fn members(values: &[&str]) -> MemberSet {
    MemberSet {
        members: values.iter().map(|v| s(v)).collect(),
        delete: false,
    }
}

fn subscribe(policy: &mut Policy, proto: &str, tx: u64) {
    policy.process_msg(Message::Subscribe {
        proto: s(proto),
        tx,
    });
}

fn register(policy: &mut Policy, proto: &str, name: &str, ident: usize, policy_type: PolicyType) {
    policy.process_msg(Message::Register {
        proto: s(proto),
        name: s(name),
        ident,
        policy_type,
    });
}

fn unregister(policy: &mut Policy, proto: &str, name: &str, ident: usize, policy_type: PolicyType) {
    policy.process_msg(Message::Unregister {
        proto: s(proto),
        name: s(name),
        ident,
        policy_type,
    });
}

fn commit(policy: &mut Policy) {
    assert_eq!(policy.process_cm_msg("", ConfigOp::CommitEnd, 0), None);
}

/// A policy with one entry that matches a prefix-set.
fn matching(prefix_set_name: &str) -> PolicyList {
    let mut entry = PolicyEntry::new(PolicyAction::Permit);
    entry.prefix_set_name = Some(s(prefix_set_name));
    let mut list = PolicyList::default();
    list.entry.insert(10, entry);
    list
}

fn deleted_prefix_set() -> PrefixSet {
    PrefixSet {
        delete: true,
        ..PrefixSet::default()
    }
}

#[test]
fn no_watch_outlives_its_client() {
    let mut policy = Policy::new();
    subscribe(&mut policy, "bgp", 1);
    subscribe(&mut policy, "ospf", 2);
    register(&mut policy, "bgp", "A", 1, PolicyType::PrefixSetIn);
    register(&mut policy, "ospf", "A", 2, PolicyType::PrefixSetIn);
    register(&mut policy, "bgp", "B", 3, PolicyType::PolicyListOut);
    register(
        &mut policy,
        "bgp",
        "K",
        4,
        PolicyType::KeyChain(KeyChainScope::BgpNeighbor),
    );
    policy.process_msg(Message::Unsubscribe { proto: s("bgp") });
    assert!(!policy.clients.contains_key(&s("bgp")));
    let left = policy.watch_prefix.get(&s("A")).unwrap();
    assert_eq!(left.len(), 1);
    assert_eq!(left[0].proto, "ospf");
    assert!(policy.watch_policy.is_empty());
    assert!(policy.watch_keychain.is_empty());

    let sent = policy.outbox.len();
    register(&mut policy, "bgp", "A", 1, PolicyType::PrefixSetIn);
    register(&mut policy, "bgp", "B", 1, PolicyType::TableMap);
    assert_eq!(policy.watch_prefix.get(&s("A")).unwrap().len(), 1);
    assert!(policy.watch_policy.is_empty());
    assert_eq!(policy.outbox.len(), sent);
}

#[test]
fn unregistering_takes_back_a_registration() {
    let mut policy = Policy::new();
    subscribe(&mut policy, "bgp", 1);
    register(&mut policy, "bgp", "A", 1, PolicyType::PrefixSetIn);
    register(&mut policy, "bgp", "A", 1, PolicyType::PrefixSetOut);
    unregister(&mut policy, "bgp", "A", 1, PolicyType::PrefixSetOut);
    let left = policy.watch_prefix.get(&s("A")).unwrap();
    assert_eq!(left.len(), 1);
    assert_eq!(left[0].policy_type, PolicyType::PrefixSetIn);
    unregister(&mut policy, "bgp", "A", 2, PolicyType::PrefixSetIn);
    assert_eq!(policy.watch_prefix.get(&s("A")).unwrap().len(), 1);
    unregister(&mut policy, "bgp", "A", 1, PolicyType::PrefixSetIn);
    assert!(policy.watch_prefix.is_empty(), "no empty name is kept");
}

#[test]
fn registrations_are_answered() {
    let mut policy = Policy::new();
    subscribe(&mut policy, "bgp", 1);
    assert!(policy.outbox.is_empty(), "only a VRF is told at its start");
    register(&mut policy, "bgp", "NONE", 1, PolicyType::PrefixSetOut);
    register(&mut policy, "bgp", "NONE", 2, PolicyType::TableMap);
    register(
        &mut policy,
        "bgp",
        "NONE",
        3,
        PolicyType::KeyChain(KeyChainScope::OspfLink),
    );
    assert_eq!(
        policy.outbox,
        vec![
            Delivery {
                tx: 1,
                msg: PolicyRx::PrefixSet {
                    generation: 0,
                    name: s("NONE"),
                    ident: 1,
                    policy_type: PolicyType::PrefixSetOut,
                    prefix_set: None
                }
            },
            Delivery {
                tx: 1,
                msg: PolicyRx::PolicyList {
                    name: s("NONE"),
                    ident: 2,
                    policy_type: PolicyType::TableMap,
                    policy_list: None
                }
            },
        ]
    );
    policy.outbox.clear();

    let mut chain = KeyChain::default();
    chain.keys.insert(1, s("key"));
    policy.key_chain_config.cache.insert(s("KC"), chain.clone());
    policy.policy_config.cache.insert(s("P"), PolicyList::default());
    commit(&mut policy);
    assert!(policy.outbox.is_empty(), "nobody watches these");
    let scope = PolicyType::KeyChain(KeyChainScope::IsisLink);
    register(&mut policy, "bgp", "KC", 3, scope);
    register(&mut policy, "bgp", "P", 4, PolicyType::PolicyListIn);
    assert_eq!(
        policy.outbox[0].msg,
        PolicyRx::KeyChain {
            name: s("KC"),
            ident: 3,
            policy_type: scope,
            key_chain: Some(chain)
        }
    );
    assert_eq!(
        policy.outbox[1].msg,
        PolicyRx::PolicyList {
            name: s("P"),
            ident: 4,
            policy_type: PolicyType::PolicyListIn,
            policy_list: Some(PolicyList::default())
        }
    );
}

#[test]
fn an_unregistration_without_a_client_is_silent() {
    let mut policy = Policy::new();
    unregister(&mut policy, "bgp", "A", 1, PolicyType::PrefixSetIn);
    assert!(policy.outbox.is_empty());
}

#[test]
fn watches_are_told_in_order() {
    let mut policy = Policy::new();
    subscribe(&mut policy, "bgp", 1);
    subscribe(&mut policy, "ospf", 2);
    register(&mut policy, "ospf", "A", 5, PolicyType::PrefixSetIn);
    register(&mut policy, "bgp", "A", 6, PolicyType::PrefixSetOut);
    policy.outbox.clear();
    policy
        .prefix_config
        .cache
        .insert(s("A"), prefix_set("10.0.0.0/8"));
    commit(&mut policy);
    let told: Vec<(u64, bool)> = policy
        .outbox
        .iter()
        .map(|d| {
            (
                d.tx,
                matches!(
                    &d.msg,
                    PolicyRx::PrefixSet { generation: 1, prefix_set: Some(set), .. }
                        if *set == prefix_set("10.0.0.0/8")
                ),
            )
        })
        .collect();
    assert_eq!(told, vec![(2, true), (1, true)]);
    policy.outbox.clear();

    policy
        .prefix_config
        .cache
        .insert(s("A"), deleted_prefix_set());
    commit(&mut policy);
    assert_eq!(policy.outbox.len(), 2);
    assert!(policy.outbox.iter().all(|d| matches!(
        &d.msg,
        PolicyRx::PrefixSet {
            generation: 2,
            prefix_set: None,
            ..
        }
    )));
    assert!(policy.prefix_config.config.is_empty());
}

#[test]
fn key_chains_reach_their_watches() {
    let mut policy = Policy::new();
    subscribe(&mut policy, "ospf", 2);
    let scope = PolicyType::KeyChain(KeyChainScope::OspfLink);
    register(&mut policy, "ospf", "KC", 5, scope);
    assert!(policy.outbox.is_empty());
    policy
        .key_chain_config
        .cache
        .insert(s("KC"), KeyChain::default());
    commit(&mut policy);
    policy.key_chain_config.cache.insert(
        s("KC"),
        KeyChain {
            delete: true,
            ..KeyChain::default()
        },
    );
    commit(&mut policy);
    let told: Vec<Option<KeyChain>> = policy
        .outbox
        .iter()
        .map(|d| match &d.msg {
            PolicyRx::KeyChain { key_chain, .. } => key_chain.clone(),
            other => panic!("{other:?}"),
        })
        .collect();
    assert_eq!(told, vec![Some(KeyChain::default()), None]);
}

#[test]
fn a_set_reaches_the_policies_that_refer_to_it() {
    let mut policy = Policy::new();
    subscribe(&mut policy, "bgp", 1);
    policy
        .policy_config
        .cache
        .insert(s("USES"), matching("hoge"));
    policy
        .policy_config
        .cache
        .insert(s("SPARED"), matching("other"));
    commit(&mut policy);
    register(&mut policy, "bgp", "USES", 1, PolicyType::PolicyListIn);
    register(&mut policy, "bgp", "SPARED", 2, PolicyType::PolicyListIn);
    policy.outbox.clear();

    policy
        .prefix_config
        .cache
        .insert(s("hoge"), prefix_set("2.2.2.2/32"));
    commit(&mut policy);
    let resolved = policy.policy_config.config.get(&s("USES")).unwrap();
    assert_eq!(
        resolved.entry.get(&10).unwrap().prefix_set,
        Some(prefix_set("2.2.2.2/32"))
    );
    assert_eq!(
        policy.outbox,
        vec![Delivery {
            tx: 1,
            msg: PolicyRx::PolicyList {
                name: s("USES"),
                ident: 1,
                policy_type: PolicyType::PolicyListIn,
                policy_list: Some(resolved.clone())
            }
        }]
    );
    policy.outbox.clear();

    policy
        .prefix_config
        .cache
        .insert(s("hoge"), deleted_prefix_set());
    commit(&mut policy);
    let resolved = policy.policy_config.config.get(&s("USES")).unwrap();
    assert_eq!(resolved.entry.get(&10).unwrap().prefix_set, None);
    assert_eq!(policy.outbox.len(), 1);
}

#[test]
fn a_staged_policy_is_told_once() {
    let mut policy = Policy::new();
    subscribe(&mut policy, "bgp", 1);
    register(&mut policy, "bgp", "P", 1, PolicyType::PolicyListOut);
    policy.outbox.clear();
    policy.policy_config.cache.insert(s("P"), matching("hoge"));
    policy
        .prefix_config
        .cache
        .insert(s("hoge"), prefix_set("2.2.2.2/32"));
    commit(&mut policy);
    assert_eq!(policy.outbox.len(), 1);
    match &policy.outbox[0].msg {
        PolicyRx::PolicyList {
            policy_list: Some(list),
            ..
        } => assert_eq!(
            list.entry.get(&10).unwrap().prefix_set,
            Some(prefix_set("2.2.2.2/32"))
        ),
        other => panic!("{other:?}"),
    }
    policy.outbox.clear();
    policy.policy_config.cache.insert(
        s("P"),
        PolicyList {
            delete: true,
            ..PolicyList::default()
        },
    );
    commit(&mut policy);
    assert!(matches!(
        &policy.outbox[0].msg,
        PolicyRx::PolicyList {
            policy_list: None,
            ..
        }
    ));
    assert!(policy.policy_config.config.is_empty());
}

#[test]
fn every_kind_of_set_is_resolved() {
    let mut entry = PolicyEntry::new(PolicyAction::Next);
    entry.community_set_name = Some(s("C"));
    entry.set_community = Some(SetCommunity {
        name: s("D"),
        additive: true,
        community_set: None,
    });
    entry.ext_community_set_name = Some(s("E"));
    entry.large_community_set_name = Some(s("L"));
    entry.as_path_set_name = Some(s("A"));
    let mut list = PolicyList::default();
    list.entry.insert(10, entry);
    let mut policy = Policy::new();
    policy.policy_config.cache.insert(s("P"), list);
    commit(&mut policy);

    for name in ["C", "D", "E", "L", "A"] {
        let config = match name {
            "C" | "D" => &mut policy.community_config,
            "E" => &mut policy.ext_community_config,
            "L" => &mut policy.large_community_config,
            _ => &mut policy.as_path_config,
        };
        config.cache.insert(s(name), members(&[name]));
        commit(&mut policy);
        let entry = policy
            .policy_config
            .config
            .get(&s("P"))
            .unwrap()
            .entry
            .get(&10)
            .unwrap();
        let resolved = match name {
            "C" => &entry.community_set,
            "D" => &entry.set_community.as_ref().unwrap().community_set,
            "E" => &entry.ext_community_set,
            "L" => &entry.large_community_set,
            _ => &entry.as_path_set,
        };
        assert_eq!(*resolved, Some(members(&[name])));
    }
}

#[test]
fn a_commit_is_framed_for_vrfs() {
    let mut policy = Policy::new();
    subscribe(&mut policy, "bgp", 1);
    subscribe(&mut policy, "bgp:vrf:blue", 2);
    register(&mut policy, "bgp:vrf:blue", "A", 3, PolicyType::PrefixSetIn);
    policy.outbox.clear();
    policy
        .prefix_config
        .cache
        .insert(s("A"), prefix_set("10.0.0.0/8"));
    policy.process_cm_msg("", ConfigOp::CommitEnd, 41);
    assert!(policy.outbox.iter().all(|d| d.tx == 2));
    assert_eq!(
        policy.outbox[0].msg,
        PolicyRx::PrefixSetCommitStart { generation: 41 }
    );
    assert!(matches!(
        &policy.outbox[1].msg,
        PolicyRx::PrefixSet { generation: 41, .. }
    ));
    assert!(matches!(
        &policy.outbox[2].msg,
        PolicyRx::PrefixSetInventory { generation: 41, prefix_sets }
            if prefix_sets.len() == 1
    ));
    assert_eq!(policy.outbox.len(), 3);
    assert_eq!(policy.prefix_set_generation, 41);

    policy.prefix_set_generation = u64::MAX;
    commit(&mut policy);
    assert_eq!(policy.prefix_set_generation, 0, "the count starts over");
}

#[test]
fn an_idle_commit_is_quiet() {
    let mut policy = Policy::new();
    subscribe(&mut policy, "bgp", 1);
    subscribe(&mut policy, "bgp:vrf:blue", 2);
    policy.policy_config.cache.insert(s("P"), matching("hoge"));
    register(&mut policy, "bgp", "P", 1, PolicyType::PolicyListOut);
    commit(&mut policy);
    policy.outbox.clear();
    commit(&mut policy);
    assert_eq!(policy.outbox.len(), 2);
    assert!(policy.outbox.iter().all(|d| d.tx == 2));
    assert_eq!(policy.policy_config.config.len(), 1);
}

#[test]
fn paths_belong_to_parts_of_the_configuration() {
    assert_eq!(config_target("/policy/entry"), Some(ConfigTarget::Policy));
    assert_eq!(config_target("/prefix-set"), Some(ConfigTarget::PrefixSet));
    assert_eq!(
        config_target("/community-set/members"),
        Some(ConfigTarget::CommunitySet)
    );
    assert_eq!(
        config_target("/ext-community-set"),
        Some(ConfigTarget::ExtCommunitySet)
    );
    assert_eq!(
        config_target("/large-community-set"),
        Some(ConfigTarget::LargeCommunitySet)
    );
    assert_eq!(
        config_target("/as-path-set"),
        Some(ConfigTarget::AsPathSet)
    );
    assert_eq!(
        config_target("/key-chains/key-chain"),
        Some(ConfigTarget::KeyChains)
    );
    assert_eq!(config_target("/router/bgp"), None);
    assert_eq!(config_target("policy"), None);

    let mut policy = Policy::new();
    assert_eq!(
        policy.process_cm_msg("/prefix-set", ConfigOp::Assign, 0),
        Some(ConfigTarget::PrefixSet)
    );
    assert_eq!(
        policy.process_cm_msg("/prefix-set", ConfigOp::Delete, 0),
        Some(ConfigTarget::PrefixSet)
    );
    assert_eq!(
        policy.process_cm_msg("/prefix-set", ConfigOp::CommitStart, 0),
        None
    );
    assert_eq!(policy.prefix_set_generation, 0);
}

#[test]
fn a_syncer_does_only_what_concerns_it() {
    let mut clients = SortedMap::new();
    clients.insert(s("bgp"), 1);
    let mut watch_map = SortedMap::new();
    watch_map.insert(
        s("A"),
        vec![
            PolicyWatch {
                proto: s("bgp"),
                ident: 1,
                policy_type: PolicyType::PrefixSetIn,
            },
            PolicyWatch {
                proto: s("gone"),
                ident: 2,
                policy_type: PolicyType::PrefixSetIn,
            },
        ],
    );
    let policies = PolicySyncer {
        watch_map: &watch_map,
        clients: &clients,
        generation: 3,
    };
    let chains = KeyChainSyncer {
        watch_map: &watch_map,
        clients: &clients,
    };
    assert_eq!(policies.prefix_set_update("A", &PrefixSet::default()).len(), 1);
    assert_eq!(policies.prefix_set_remove("A").len(), 1);
    assert_eq!(
        policies.policy_list_update("A", &PolicyList::default()).len(),
        1
    );
    assert_eq!(policies.policy_list_remove("A").len(), 1);
    assert!(policies.prefix_set_remove("B").is_empty());
    assert!(policies.key_chain_update("A", &KeyChain::default()).is_empty());
    assert!(policies.key_chain_remove("A").is_empty());
    assert_eq!(chains.key_chain_update("A", &KeyChain::default()).len(), 1);
    assert_eq!(chains.key_chain_remove("A").len(), 1);
    assert!(chains.prefix_set_update("A", &PrefixSet::default()).is_empty());
    assert!(chains.prefix_set_remove("A").is_empty());
    assert!(chains
        .policy_list_update("A", &PolicyList::default())
        .is_empty());
    assert!(chains.policy_list_remove("A").is_empty());
}
