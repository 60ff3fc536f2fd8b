//! What clients ask of the policy service, and what they are told.

use vstd::prelude::*;
use crate::policy::list::{PolicyList, PolicyListView};
use crate::policy::sets::{KeyChain, KeyChainView, PrefixSet, PrefixSetView};
use crate::sorted_map::SortedMap;

verus! {

/// The part of a protocol that a key chain serves.
#[derive(Debug, Clone, Copy, PartialEq, Eq, Structural)]
pub enum KeyChainScope {
    OspfLink,
    IsisLink,
    BgpNeighbor,
}

/// What a client watches a name for.
#[derive(Debug, Clone, Copy, PartialEq, Eq, Structural)]
pub enum PolicyType {
    PrefixSetIn,
    PrefixSetOut,
    PolicyListIn,
    PolicyListOut,
    /// A policy that decides which routes are installed. It is watched like the
    /// other policies; the `ident` stands for an address family.
    TableMap,
    KeyChain(KeyChainScope),
}

/// A request to the policy service.
#[derive(Debug, PartialEq, Eq)]
pub enum Message {
    /// Start a client. What it is told goes to the channel of number `tx`.
    Subscribe { proto: String, tx: u64 },
    /// Drop a client and all that it watches.
    Unsubscribe { proto: String },
    /// Watch a name.
    Register { proto: String, name: String, ident: usize, policy_type: PolicyType },
    /// Watch it no more.
    Unregister { proto: String, name: String, ident: usize, policy_type: PolicyType },
}

/// What a request says.
pub enum MessageView {
    Subscribe { proto: Seq<char>, tx: u64 },
    Unsubscribe { proto: Seq<char> },
    Register { proto: Seq<char>, name: Seq<char>, ident: usize, policy_type: PolicyType },
    Unregister { proto: Seq<char>, name: Seq<char>, ident: usize, policy_type: PolicyType },
}

impl View for Message {
    type V = MessageView;

    open spec fn view(&self) -> MessageView {
        match *self {
            Message::Subscribe { proto, tx } => MessageView::Subscribe { proto: proto@, tx },
            Message::Unsubscribe { proto } => MessageView::Unsubscribe { proto: proto@ },
            Message::Register { proto, name, ident, policy_type } => MessageView::Register {
                proto: proto@,
                name: name@,
                ident,
                policy_type,
            },
            Message::Unregister { proto, name, ident, policy_type } => MessageView::Unregister {
                proto: proto@,
                name: name@,
                ident,
                policy_type,
            },
        }
    }
}

/// What a client is told.
#[derive(Debug, PartialEq, Eq)]
pub enum PolicyRx {
    /// The prefix-sets that follow belong to one commit. A VRF applies them when
    /// its own side of the commit is over, since the same transaction may bind
    /// other names.
    PrefixSetCommitStart { generation: u64 },
    /// All prefix-sets in force after a commit, by which a VRF tells a name that
    /// is defined from one that is not.
    PrefixSetInventory { generation: u64, prefix_sets: SortedMap<String, PrefixSet> },
    /// A prefix-set as of a generation; none where the name is not defined.
    PrefixSet {
        generation: u64,
        name: String,
        ident: usize,
        policy_type: PolicyType,
        prefix_set: Option<PrefixSet>,
    },
    /// A policy; none where the name is not defined.
    PolicyList {
        name: String,
        ident: usize,
        policy_type: PolicyType,
        policy_list: Option<PolicyList>,
    },
    /// A key chain; none where it is gone.
    KeyChain {
        name: String,
        ident: usize,
        policy_type: PolicyType,
        key_chain: Option<KeyChain>,
    },
}

/// What a piece of news says.
pub enum PolicyRxView {
    PrefixSetCommitStart { generation: u64 },
    PrefixSetInventory { generation: u64, prefix_sets: Map<Seq<char>, PrefixSetView> },
    PrefixSet {
        generation: u64,
        name: Seq<char>,
        ident: usize,
        policy_type: PolicyType,
        prefix_set: Option<PrefixSetView>,
    },
    PolicyList {
        name: Seq<char>,
        ident: usize,
        policy_type: PolicyType,
        policy_list: Option<PolicyListView>,
    },
    KeyChain {
        name: Seq<char>,
        ident: usize,
        policy_type: PolicyType,
        key_chain: Option<KeyChainView>,
    },
}

impl View for PolicyRx {
    type V = PolicyRxView;

    open spec fn view(&self) -> PolicyRxView {
        match *self {
            PolicyRx::PrefixSetCommitStart { generation } => PolicyRxView::PrefixSetCommitStart {
                generation,
            },
            PolicyRx::PrefixSetInventory { generation, prefix_sets } =>
                PolicyRxView::PrefixSetInventory { generation, prefix_sets: prefix_sets@ },
            PolicyRx::PrefixSet { generation, name, ident, policy_type, prefix_set } =>
                PolicyRxView::PrefixSet {
                    generation,
                    name: name@,
                    ident,
                    policy_type,
                    prefix_set: prefix_set.deep_view(),
                },
            PolicyRx::PolicyList { name, ident, policy_type, policy_list } =>
                PolicyRxView::PolicyList {
                    name: name@,
                    ident,
                    policy_type,
                    policy_list: policy_list.deep_view(),
                },
            PolicyRx::KeyChain { name, ident, policy_type, key_chain } => PolicyRxView::KeyChain {
                name: name@,
                ident,
                policy_type,
                key_chain: key_chain.deep_view(),
            },
        }
    }
}

/// A piece of news on its way to the channel of a client.
#[derive(Debug, PartialEq, Eq)]
pub struct Delivery {
    pub tx: u64,
    pub msg: PolicyRx,
}

/// A piece of news and the channel it goes to.
pub struct DeliveryView {
    pub tx: u64,
    pub msg: PolicyRxView,
}

impl DeepView for Delivery {
    type V = DeliveryView;

    open spec fn deep_view(&self) -> DeliveryView {
        DeliveryView { tx: self.tx, msg: self.msg@ }
    }
}

/// One use that a client makes of a name.
#[derive(Debug, PartialEq, Eq)]
pub struct PolicyWatch {
    pub proto: String,
    pub ident: usize,
    pub policy_type: PolicyType,
}

/// What a watch says.
pub struct PolicyWatchView {
    pub proto: Seq<char>,
    pub ident: usize,
    pub policy_type: PolicyType,
}

impl View for PolicyWatch {
    type V = PolicyWatchView;

    open spec fn view(&self) -> PolicyWatchView {
        PolicyWatchView {
            proto: self.proto@,
            ident: self.ident,
            policy_type: self.policy_type,
        }
    }
}

impl DeepView for PolicyWatch {
    type V = PolicyWatchView;

    open spec fn deep_view(&self) -> PolicyWatchView {
        self@
    }
}

} // verus!
