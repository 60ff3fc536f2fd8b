//! The requests and commits of the policy service.

use vrf_policy::args::{Arg, Args, ConfigOp};
use vrf_policy::net::IpNet;
use vrf_policy::policy::inst::Policy;
use vrf_policy::policy::message::{KeyChainScope, Message, PolicyRx, PolicyType};
use vrf_policy::policy::sets::{PrefixSet, PrefixSetEntry};

fn net(value: &str) -> IpNet {
    Args::new(vec![Arg {
        text: value.to_string(),
        addr: None,
        rd: None,
    }])
    .net()
    .unwrap()
}

/// The oldest piece of news that waits for a channel.
fn try_recv(policy: &mut Policy, tx: u64) -> Option<PolicyRx> {
    let at = policy.outbox.iter().position(|d| d.tx == tx)?;
    Some(policy.outbox.remove(at).msg)
}

#[test]
fn register_after_unsubscribe_cannot_recreate_stale_watch() {
    let mut policy = Policy::new();
    policy.process_msg(Message::Subscribe {
        proto: "bgp:vrf:blue:policy:1".to_string(),
        tx: 1,
    });
    policy.process_msg(Message::Unsubscribe {
        proto: "bgp:vrf:blue:policy:1".to_string(),
    });

    policy.process_msg(Message::Register {
        proto: "bgp:vrf:blue:policy:1".to_string(),
        name: "OLD".to_string(),
        ident: 7,
        policy_type: PolicyType::PrefixSetIn,
    });
    assert!(!policy.watch_prefix.contains_key(&"OLD".to_string()));
}

#[test]
fn unregister_policy_list_emits_clearing_reply() {
    let mut policy = Policy::new();
    policy.process_msg(Message::Subscribe {
        proto: "bgp".to_string(),
        tx: 1,
    });

    policy.process_msg(Message::Unregister {
        proto: "bgp".to_string(),
        name: "DENY-ALL".to_string(),
        ident: 42,
        policy_type: PolicyType::PolicyListOut,
    });

    match try_recv(&mut policy, 1) {
        Some(PolicyRx::PolicyList {
            name,
            ident,
            policy_type,
            policy_list,
        }) => {
            assert_eq!(name, "DENY-ALL");
            assert_eq!(ident, 42);
            assert_eq!(policy_type, PolicyType::PolicyListOut);
            assert!(policy_list.is_none(), "unbind resolves to no policy");
        }
        other => panic!("expected a clearing PolicyList reply, got {other:?}"),
    }
}

#[test]
fn unregister_prefix_set_emits_clearing_reply() {
    let mut policy = Policy::new();
    policy.process_msg(Message::Subscribe {
        proto: "bgp".to_string(),
        tx: 1,
    });
    policy.process_msg(Message::Unregister {
        proto: "bgp".to_string(),
        name: "PS-OUT".to_string(),
        ident: 7,
        policy_type: PolicyType::PrefixSetOut,
    });
    assert!(
        matches!(
            try_recv(&mut policy, 1),
            Some(PolicyRx::PrefixSet {
                prefix_set: None,
                ..
            })
        ),
        "prefix-set unbind must push a None reply"
    );
}

#[test]
fn unregister_key_chain_emits_no_reply() {
    let mut policy = Policy::new();
    policy.process_msg(Message::Subscribe {
        proto: "bgp".to_string(),
        tx: 1,
    });
    policy.process_msg(Message::Unregister {
        proto: "bgp".to_string(),
        name: "KC".to_string(),
        ident: 1,
        policy_type: PolicyType::KeyChain(KeyChainScope::BgpNeighbor),
    });
    assert!(
        try_recv(&mut policy, 1).is_none(),
        "key-chain unbind pushes nothing"
    );
}

#[test]
fn vrf_subscriber_receives_initial_and_commit_final_prefix_inventory() {
    let mut policy = Policy::new();
    policy.process_msg(Message::Subscribe {
        proto: "bgp:vrf:blue".to_string(),
        tx: 1,
    });
    assert!(matches!(
        try_recv(&mut policy, 1),
        Some(PolicyRx::PrefixSetInventory {
            generation: 0,
            prefix_sets,
        }) if prefix_sets.is_empty()
    ));

    let mut set = PrefixSet::default();
    set.insert(net("198.51.100.0/24"), PrefixSetEntry::default());
    policy
        .prefix_config
        .cache
        .insert("NEW".to_string(), set.clone());
    policy.process_cm_msg("", ConfigOp::CommitEnd, 0);

    assert!(matches!(
        try_recv(&mut policy, 1),
        Some(PolicyRx::PrefixSetCommitStart { generation: 1 })
    ));
    assert!(matches!(
        try_recv(&mut policy, 1),
        Some(PolicyRx::PrefixSetInventory {
            generation: 1,
            prefix_sets,
        }) if prefix_sets.get(&"NEW".to_string()) == Some(&set)
    ));
}

#[test]
fn register_reply_uses_actor_current_prefix_set_generation() {
    let mut policy = Policy::new();
    policy.process_msg(Message::Subscribe {
        proto: "bgp:vrf:blue".to_string(),
        tx: 1,
    });
    let _ = try_recv(&mut policy, 1);

    let mut first = PrefixSet::default();
    first.insert(net("198.51.100.0/24"), PrefixSetEntry::default());
    policy.prefix_config.cache.insert("NEW".to_string(), first);
    policy.process_cm_msg("", ConfigOp::CommitEnd, 0);
    let _ = try_recv(&mut policy, 1);
    let _ = try_recv(&mut policy, 1);

    let mut second = PrefixSet::default();
    second.insert(net("203.0.113.0/24"), PrefixSetEntry::default());
    policy
        .prefix_config
        .cache
        .insert("NEW".to_string(), second.clone());
    policy.process_cm_msg("", ConfigOp::CommitEnd, 0);
    let _ = try_recv(&mut policy, 1);
    let _ = try_recv(&mut policy, 1);

    // The request was made before the second commit and arrives behind it.
    policy.process_msg(Message::Register {
        proto: "bgp:vrf:blue".to_string(),
        name: "NEW".to_string(),
        ident: 17,
        policy_type: PolicyType::PrefixSetIn,
    });
    assert!(matches!(
        try_recv(&mut policy, 1),
        Some(PolicyRx::PrefixSet {
            generation: 2,
            ident: 17,
            prefix_set: Some(prefix_set),
            ..
        }) if prefix_set == second
    ));
}
