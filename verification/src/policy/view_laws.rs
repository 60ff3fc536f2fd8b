//! What the models of policies, sets and messages show of the values they stand
//! for: every field, unchanged.

use vstd::prelude::*;
use crate::policy::inst::{target_of, ConfigTarget, Policy, PolicyView};
use crate::policy::list::{PolicyEntry, PolicyList, SetCommunity};
use crate::policy::message::{Delivery, Message, MessageView, PolicyRx, PolicyRxView, PolicyWatch};
use crate::policy::sets::{KeyChain, MemberSet, PrefixSet, SetConfig, Staged};

verus! {

/// An entry is shown field by field.
pub proof fn entry_is_shown(entry: PolicyEntry)
    ensures
        entry@.action == entry.action,
        entry@.prefix_set_name == entry.prefix_set_name.deep_view(),
        entry@.prefix_set == entry.prefix_set.deep_view(),
        entry@.community_set_name == entry.community_set_name.deep_view(),
        entry@.community_set == entry.community_set.deep_view(),
        entry@.set_community == entry.set_community.deep_view(),
        entry@.ext_community_set_name == entry.ext_community_set_name.deep_view(),
        entry@.ext_community_set == entry.ext_community_set.deep_view(),
        entry@.large_community_set_name == entry.large_community_set_name.deep_view(),
        entry@.large_community_set == entry.large_community_set.deep_view(),
        entry@.as_path_set_name == entry.as_path_set_name.deep_view(),
        entry@.as_path_set == entry.as_path_set.deep_view(),
        entry.deep_view() == entry@,
{
}

/// A setting of communities is shown field by field.
pub proof fn setting_is_shown(setting: SetCommunity)
    ensures
        setting.deep_view().name == setting.name@,
        setting.deep_view().additive == setting.additive,
        setting.deep_view().community_set == setting.community_set.deep_view(),
{
}

/// A policy is shown field by field.
pub proof fn policy_is_shown(list: PolicyList)
    ensures
        list@.entry == list.entry@,
        list@.delete == list.delete,
        list.deep_view() == list@,
{
}

/// A prefix-set is shown field by field.
pub proof fn prefix_set_is_shown(set: PrefixSet)
    ensures
        set@.prefixes == set.prefixes@,
        set@.delete == set.delete,
        set.deep_view() == set@,
{
}

/// A set of texts is shown field by field.
pub proof fn member_set_is_shown(set: MemberSet)
    ensures
        set@.members == set.members.deep_view(),
        set@.delete == set.delete,
        set.deep_view() == set@,
{
}

/// A key chain is shown field by field.
pub proof fn key_chain_is_shown(chain: KeyChain)
    ensures
        chain@.keys == chain.keys@,
        chain@.delete == chain.delete,
        chain.deep_view() == chain@,
{
}

/// What is in force and what is staged are shown apart.
pub proof fn set_config_is_shown<T: Staged>(sets: SetConfig<T>)
    ensures
        sets@.config == sets.config@,
        sets@.cache == sets.cache@,
{
}

/// A watch is shown field by field.
pub proof fn watch_is_shown(watch: PolicyWatch)
    ensures
        watch@.proto == watch.proto@,
        watch@.ident == watch.ident,
        watch@.policy_type == watch.policy_type,
        watch.deep_view() == watch@,
{
}

/// A piece of news on its way is shown with its channel.
pub proof fn delivery_is_shown(delivery: Delivery)
    ensures
        delivery.deep_view().tx == delivery.tx,
        delivery.deep_view().msg == delivery.msg@,
{
}

/// The service is shown field by field.
pub proof fn service_is_shown(policy: Policy)
    ensures
        policy@.policies == policy.policy_config@,
        policy@.prefix == policy.prefix_config@,
        policy@.community == policy.community_config@,
        policy@.ext_community == policy.ext_community_config@,
        policy@.large_community == policy.large_community_config@,
        policy@.as_path == policy.as_path_config@,
        policy@.key_chain == policy.key_chain_config@,
        policy@.clients == policy.clients@,
        policy@.watch_prefix == policy.watch_prefix@,
        policy@.watch_policy == policy.watch_policy@,
        policy@.watch_keychain == policy.watch_keychain@,
        policy@.generation == policy.prefix_set_generation,
        policy@.outbox == policy.outbox.deep_view(),
{
}

/// What is marked to be deleted is what says so itself.
pub proof fn marks_are_the_flags(
    prefix_set: PrefixSet,
    member_set: MemberSet,
    chain: KeyChain,
    list: PolicyList,
)
    ensures
        PrefixSet::marked(prefix_set@) == prefix_set.delete,
        MemberSet::marked(member_set@) == member_set.delete,
        KeyChain::marked(chain@) == chain.delete,
        PolicyList::marked(list@) == list.delete,
{
}

/// A request shows its kind and all that it says.
pub proof fn request_is_shown(msg: Message)
    ensures
        match msg {
            Message::Subscribe { proto: p, tx: t } => {
                msg@ matches MessageView::Subscribe { proto, tx } && proto == p@ && tx == t
            },
            Message::Unsubscribe { proto: p } => {
                msg@ matches MessageView::Unsubscribe { proto } && proto == p@
            },
            Message::Register { proto: p, name: n, ident: i, policy_type: t } => {
                msg@ matches MessageView::Register { proto, name, ident, policy_type } && proto
                    == p@ && name == n@ && ident == i && policy_type == t
            },
            Message::Unregister { proto: p, name: n, ident: i, policy_type: t } => {
                msg@ matches MessageView::Unregister { proto, name, ident, policy_type } && proto
                    == p@ && name == n@ && ident == i && policy_type == t
            },
        },
{
}

/// A piece of news shows its kind and all that it says.
pub proof fn news_is_shown(msg: PolicyRx)
    ensures
        match msg {
            PolicyRx::PrefixSetCommitStart { generation: g } => {
                msg@ matches PolicyRxView::PrefixSetCommitStart { generation } && generation == g
            },
            PolicyRx::PrefixSetInventory { generation: g, prefix_sets: s } => {
                msg@ matches PolicyRxView::PrefixSetInventory { generation, prefix_sets }
                    && generation == g && prefix_sets == s@
            },
            PolicyRx::PrefixSet {
                generation: g,
                name: n,
                ident: i,
                policy_type: t,
                prefix_set: s,
            } => {
                msg@ matches PolicyRxView::PrefixSet {
                    generation,
                    name,
                    ident,
                    policy_type,
                    prefix_set,
                } && generation == g && name == n@ && ident == i && policy_type == t && prefix_set
                    == s.deep_view()
            },
            PolicyRx::PolicyList { name: n, ident: i, policy_type: t, policy_list: l } => {
                msg@ matches PolicyRxView::PolicyList { name, ident, policy_type, policy_list }
                    && name == n@ && ident == i && policy_type == t && policy_list == l.deep_view()
            },
            PolicyRx::KeyChain { name: n, ident: i, policy_type: t, key_chain: k } => {
                msg@ matches PolicyRxView::KeyChain { name, ident, policy_type, key_chain }
                    && name == n@ && ident == i && policy_type == t && key_chain == k.deep_view()
            },
        },
{
}

/// A new service has no client, no watch, nothing configured and nothing to hand
/// out, and no commit behind it.
pub proof fn service_starts_empty(name: Seq<char>)
    ensures
        ({
            let start = PolicyView::empty();
            &&& !start.clients.contains_key(name)
            &&& !start.watch_prefix.contains_key(name)
            &&& !start.watch_policy.contains_key(name)
            &&& !start.watch_keychain.contains_key(name)
            &&& !start.policies.config.contains_key(name)
            &&& !start.policies.cache.contains_key(name)
            &&& !start.prefix.config.contains_key(name)
            &&& !start.prefix.cache.contains_key(name)
            &&& !start.community.config.contains_key(name)
            &&& !start.community.cache.contains_key(name)
            &&& !start.ext_community.config.contains_key(name)
            &&& !start.ext_community.cache.contains_key(name)
            &&& !start.large_community.config.contains_key(name)
            &&& !start.large_community.cache.contains_key(name)
            &&& !start.as_path.config.contains_key(name)
            &&& !start.as_path.cache.contains_key(name)
            &&& !start.key_chain.config.contains_key(name)
            &&& !start.key_chain.cache.contains_key(name)
            &&& start.generation == 0
            &&& start.outbox.len() == 0
        }),
{
}

proof fn no_common_prefix(a: Seq<char>, b: Seq<char>, path: Seq<char>, i: int)
    requires
        0 <= i < a.len(),
        i < b.len(),
        a[i] != b[i],
        a.is_prefix_of(path),
    ensures
        !b.is_prefix_of(path),
{
    assert(a[i] == path.subrange(0, a.len() as int)[i]);
    if b.is_prefix_of(path) {
        assert(b[i] == path.subrange(0, b.len() as int)[i]);
    }
}

/// Each part of the configuration has the paths that begin with its name, and no
/// path belongs to two parts.
pub proof fn paths_have_one_target(path: Seq<char>)
    ensures
        "/policy"@.is_prefix_of(path) <==> target_of(path) == Some(
            ConfigTarget::Policy,
        ),
        "/prefix-set"@.is_prefix_of(path) <==> target_of(path) == Some(
            ConfigTarget::PrefixSet,
        ),
        "/community-set"@.is_prefix_of(path) <==> target_of(path) == Some(
            ConfigTarget::CommunitySet,
        ),
        "/ext-community-set"@.is_prefix_of(path) <==> target_of(path) == Some(
            ConfigTarget::ExtCommunitySet,
        ),
        "/large-community-set"@.is_prefix_of(path) <==> target_of(path) == Some(
            ConfigTarget::LargeCommunitySet,
        ),
        "/as-path-set"@.is_prefix_of(path) <==> target_of(path) == Some(
            ConfigTarget::AsPathSet,
        ),
        "/key-chains"@.is_prefix_of(path) <==> target_of(path) == Some(
            ConfigTarget::KeyChains,
        ),
{
    reveal_strlit("/policy");
    reveal_strlit("/prefix-set");
    reveal_strlit("/community-set");
    reveal_strlit("/ext-community-set");
    reveal_strlit("/large-community-set");
    reveal_strlit("/as-path-set");
    reveal_strlit("/key-chains");
    if "/policy"@.is_prefix_of(path) {
        no_common_prefix("/policy"@, "/prefix-set"@, path, 2);
        no_common_prefix("/policy"@, "/community-set"@, path, 1);
        no_common_prefix("/policy"@, "/ext-community-set"@, path, 1);
        no_common_prefix("/policy"@, "/large-community-set"@, path, 1);
        no_common_prefix("/policy"@, "/as-path-set"@, path, 1);
        no_common_prefix("/policy"@, "/key-chains"@, path, 1);
    }
    if "/prefix-set"@.is_prefix_of(path) {
        no_common_prefix("/prefix-set"@, "/policy"@, path, 2);
        no_common_prefix("/prefix-set"@, "/community-set"@, path, 1);
        no_common_prefix("/prefix-set"@, "/ext-community-set"@, path, 1);
        no_common_prefix("/prefix-set"@, "/large-community-set"@, path, 1);
        no_common_prefix("/prefix-set"@, "/as-path-set"@, path, 1);
        no_common_prefix("/prefix-set"@, "/key-chains"@, path, 1);
    }
    if "/community-set"@.is_prefix_of(path) {
        no_common_prefix("/community-set"@, "/policy"@, path, 1);
        no_common_prefix("/community-set"@, "/prefix-set"@, path, 1);
        no_common_prefix("/community-set"@, "/ext-community-set"@, path, 1);
        no_common_prefix("/community-set"@, "/large-community-set"@, path, 1);
        no_common_prefix("/community-set"@, "/as-path-set"@, path, 1);
        no_common_prefix("/community-set"@, "/key-chains"@, path, 1);
    }
    if "/ext-community-set"@.is_prefix_of(path) {
        no_common_prefix("/ext-community-set"@, "/policy"@, path, 1);
        no_common_prefix("/ext-community-set"@, "/prefix-set"@, path, 1);
        no_common_prefix("/ext-community-set"@, "/community-set"@, path, 1);
        no_common_prefix("/ext-community-set"@, "/large-community-set"@, path, 1);
        no_common_prefix("/ext-community-set"@, "/as-path-set"@, path, 1);
        no_common_prefix("/ext-community-set"@, "/key-chains"@, path, 1);
    }
    if "/large-community-set"@.is_prefix_of(path) {
        no_common_prefix("/large-community-set"@, "/policy"@, path, 1);
        no_common_prefix("/large-community-set"@, "/prefix-set"@, path, 1);
        no_common_prefix("/large-community-set"@, "/community-set"@, path, 1);
        no_common_prefix("/large-community-set"@, "/ext-community-set"@, path, 1);
        no_common_prefix("/large-community-set"@, "/as-path-set"@, path, 1);
        no_common_prefix("/large-community-set"@, "/key-chains"@, path, 1);
    }
    if "/as-path-set"@.is_prefix_of(path) {
        no_common_prefix("/as-path-set"@, "/policy"@, path, 1);
        no_common_prefix("/as-path-set"@, "/prefix-set"@, path, 1);
        no_common_prefix("/as-path-set"@, "/community-set"@, path, 1);
        no_common_prefix("/as-path-set"@, "/ext-community-set"@, path, 1);
        no_common_prefix("/as-path-set"@, "/large-community-set"@, path, 1);
        no_common_prefix("/as-path-set"@, "/key-chains"@, path, 1);
    }
    if "/key-chains"@.is_prefix_of(path) {
        no_common_prefix("/key-chains"@, "/policy"@, path, 1);
        no_common_prefix("/key-chains"@, "/prefix-set"@, path, 1);
        no_common_prefix("/key-chains"@, "/community-set"@, path, 1);
        no_common_prefix("/key-chains"@, "/ext-community-set"@, path, 1);
        no_common_prefix("/key-chains"@, "/large-community-set"@, path, 1);
        no_common_prefix("/key-chains"@, "/as-path-set"@, path, 1);
    }
}

} // verus!
