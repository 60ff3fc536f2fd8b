//! Policies, and the resolution of the sets that they refer to.

use vstd::prelude::*;
use crate::order::{in_order, visited, visited_all, visited_next, visited_none};
use crate::policy::sets::{AsPathSetConfig, CommunitySetConfig, ExtCommunitySetConfig,
    LargeCommunitySetConfig, MemberSet, MemberSetView, PrefixSet, PrefixSetConfig, PrefixSetView,
    SetConfig, Staged};
use crate::sorted_map::SortedMap;
use crate::value::Value;

verus! {

/// What becomes of a route that an entry matches.
#[derive(Debug, Clone, Copy, PartialEq, Eq, Structural)]
pub enum PolicyAction {
    Permit,
    Next,
    Deny,
}

/// The communities that an entry sets on a route: those of a community-set, in
/// addition to the route's own or in their place.
#[derive(Debug, PartialEq, Eq)]
pub struct SetCommunity {
    pub name: String,
    pub additive: bool,
    /// The community-set of that name, as far as there is one.
    pub community_set: Option<MemberSet>,
}

/// What a setting of communities holds.
pub struct SetCommunityView {
    pub name: Seq<char>,
    pub additive: bool,
    pub community_set: Option<MemberSetView>,
}

impl DeepView for SetCommunity {
    type V = SetCommunityView;

    open spec fn deep_view(&self) -> SetCommunityView {
        SetCommunityView {
            name: self.name@,
            additive: self.additive,
            community_set: self.community_set.deep_view(),
        }
    }
}

impl Value for SetCommunity {
    fn duplicate(&self) -> (r: Self) {
        SetCommunity {
            name: self.name.duplicate(),
            additive: self.additive,
            community_set: self.community_set.duplicate(),
        }
    }

    fn same(&self, other: &Self) -> (r: bool) {
        self.name.same(&other.name) && self.additive == other.additive && self.community_set.same(
            &other.community_set,
        )
    }
}

/// One entry of a policy: what it does, the sets that it refers to by name, and
/// what those names have been resolved to.
#[derive(Debug, PartialEq, Eq)]
pub struct PolicyEntry {
    pub action: PolicyAction,
    pub prefix_set_name: Option<String>,
    pub prefix_set: Option<PrefixSet>,
    pub community_set_name: Option<String>,
    pub community_set: Option<MemberSet>,
    pub set_community: Option<SetCommunity>,
    pub ext_community_set_name: Option<String>,
    pub ext_community_set: Option<MemberSet>,
    pub large_community_set_name: Option<String>,
    pub large_community_set: Option<MemberSet>,
    pub as_path_set_name: Option<String>,
    pub as_path_set: Option<MemberSet>,
}

/// What an entry holds.
pub struct PolicyEntryView {
    pub action: PolicyAction,
    pub prefix_set_name: Option<Seq<char>>,
    pub prefix_set: Option<PrefixSetView>,
    pub community_set_name: Option<Seq<char>>,
    pub community_set: Option<MemberSetView>,
    pub set_community: Option<SetCommunityView>,
    pub ext_community_set_name: Option<Seq<char>>,
    pub ext_community_set: Option<MemberSetView>,
    pub large_community_set_name: Option<Seq<char>>,
    pub large_community_set: Option<MemberSetView>,
    pub as_path_set_name: Option<Seq<char>>,
    pub as_path_set: Option<MemberSetView>,
}

impl View for PolicyEntry {
    type V = PolicyEntryView;

    open spec fn view(&self) -> PolicyEntryView {
        PolicyEntryView {
            action: self.action,
            prefix_set_name: self.prefix_set_name.deep_view(),
            prefix_set: self.prefix_set.deep_view(),
            community_set_name: self.community_set_name.deep_view(),
            community_set: self.community_set.deep_view(),
            set_community: self.set_community.deep_view(),
            ext_community_set_name: self.ext_community_set_name.deep_view(),
            ext_community_set: self.ext_community_set.deep_view(),
            large_community_set_name: self.large_community_set_name.deep_view(),
            large_community_set: self.large_community_set.deep_view(),
            as_path_set_name: self.as_path_set_name.deep_view(),
            as_path_set: self.as_path_set.deep_view(),
        }
    }
}

impl DeepView for PolicyEntry {
    type V = PolicyEntryView;

    open spec fn deep_view(&self) -> PolicyEntryView {
        self@
    }
}

impl PolicyEntryView {
    /// An entry with an action and nothing else.
    pub open spec fn plain(action: PolicyAction) -> Self {
        PolicyEntryView {
            action,
            prefix_set_name: None,
            prefix_set: None,
            community_set_name: None,
            community_set: None,
            set_community: None,
            ext_community_set_name: None,
            ext_community_set: None,
            large_community_set_name: None,
            large_community_set: None,
            as_path_set_name: None,
            as_path_set: None,
        }
    }
}

impl PolicyEntry {
    /// An entry with an action and nothing else.
    pub fn new(action: PolicyAction) -> (r: Self)
        ensures
            r@ == PolicyEntryView::plain(action),
    {
        PolicyEntry {
            action,
            prefix_set_name: None,
            prefix_set: None,
            community_set_name: None,
            community_set: None,
            set_community: None,
            ext_community_set_name: None,
            ext_community_set: None,
            large_community_set_name: None,
            large_community_set: None,
            as_path_set_name: None,
            as_path_set: None,
        }
    }
}

impl Value for PolicyEntry {
    fn duplicate(&self) -> (r: Self) {
        PolicyEntry {
            action: self.action,
            prefix_set_name: self.prefix_set_name.duplicate(),
            prefix_set: self.prefix_set.duplicate(),
            community_set_name: self.community_set_name.duplicate(),
            community_set: self.community_set.duplicate(),
            set_community: self.set_community.duplicate(),
            ext_community_set_name: self.ext_community_set_name.duplicate(),
            ext_community_set: self.ext_community_set.duplicate(),
            large_community_set_name: self.large_community_set_name.duplicate(),
            large_community_set: self.large_community_set.duplicate(),
            as_path_set_name: self.as_path_set_name.duplicate(),
            as_path_set: self.as_path_set.duplicate(),
        }
    }

    fn same(&self, other: &Self) -> (r: bool) {
        self.action == other.action && self.prefix_set_name.same(&other.prefix_set_name)
            && self.prefix_set.same(&other.prefix_set) && self.community_set_name.same(
            &other.community_set_name,
        ) && self.community_set.same(&other.community_set) && self.set_community.same(
            &other.set_community,
        ) && self.ext_community_set_name.same(&other.ext_community_set_name)
            && self.ext_community_set.same(&other.ext_community_set)
            && self.large_community_set_name.same(&other.large_community_set_name)
            && self.large_community_set.same(&other.large_community_set)
            && self.as_path_set_name.same(&other.as_path_set_name) && self.as_path_set.same(
            &other.as_path_set,
        )
    }
}

/// A policy: entries in the order of their numbers. A policy that is staged to
/// be deleted says so in `delete`.
#[derive(Debug, PartialEq, Eq)]
pub struct PolicyList {
    pub entry: SortedMap<u32, PolicyEntry>,
    pub delete: bool,
}

/// What a policy holds.
pub struct PolicyListView {
    pub entry: Map<u32, PolicyEntryView>,
    pub delete: bool,
}

impl View for PolicyList {
    type V = PolicyListView;

    open spec fn view(&self) -> PolicyListView {
        PolicyListView { entry: self.entry@, delete: self.delete }
    }
}

impl DeepView for PolicyList {
    type V = PolicyListView;

    open spec fn deep_view(&self) -> PolicyListView {
        self@
    }
}

impl Default for PolicyList {
    fn default() -> (r: Self)
        ensures
            r@ == (PolicyListView { entry: Map::empty(), delete: false }),
    {
        PolicyList { entry: SortedMap::new(), delete: false }
    }
}

impl Value for PolicyList {
    fn duplicate(&self) -> (r: Self) {
        PolicyList { entry: self.entry.duplicate(), delete: self.delete }
    }

    fn same(&self, other: &Self) -> (r: bool) {
        self.entry.same(&other.entry) && self.delete == other.delete
    }
}

impl Clone for PolicyList {
    fn clone(&self) -> (r: Self)
        ensures
            r@ == self@,
    {
        self.duplicate()
    }
}

impl Staged for PolicyList {
    open spec fn marked(staged: PolicyListView) -> bool {
        staged.delete
    }
}

/// The policies.
pub type PolicyConfig = SetConfig<PolicyList>;

/// The sets in force that a policy is resolved against.
pub struct SetsView {
    pub prefix: Map<Seq<char>, PrefixSetView>,
    pub community: Map<Seq<char>, MemberSetView>,
    pub ext_community: Map<Seq<char>, MemberSetView>,
    pub large_community: Map<Seq<char>, MemberSetView>,
    pub as_path: Map<Seq<char>, MemberSetView>,
}

/// The set of a name, where both are there.
pub open spec fn resolve<M>(name: Option<Seq<char>>, sets: Map<Seq<char>, M>) -> Option<M> {
    match name {
        Some(name) => if sets.contains_key(name) {
            Some(sets[name])
        } else {
            None
        },
        None => None,
    }
}

/// An entry with all its names resolved.
pub open spec fn resolved_entry(entry: PolicyEntryView, sets: SetsView) -> PolicyEntryView {
    PolicyEntryView {
        prefix_set: resolve(entry.prefix_set_name, sets.prefix),
        community_set: resolve(entry.community_set_name, sets.community),
        set_community: match entry.set_community {
            Some(setting) => Some(
                SetCommunityView {
                    community_set: resolve(Some(setting.name), sets.community),
                    ..setting
                },
            ),
            None => None,
        },
        ext_community_set: resolve(entry.ext_community_set_name, sets.ext_community),
        large_community_set: resolve(entry.large_community_set_name, sets.large_community),
        as_path_set: resolve(entry.as_path_set_name, sets.as_path),
        ..entry
    }
}

/// A policy with all names in its entries resolved.
pub open spec fn resolved(list: PolicyListView, sets: SetsView) -> PolicyListView {
    PolicyListView {
        entry: Map::new(
            |number: u32| list.entry.contains_key(number),
            |number: u32| resolved_entry(list.entry[number], sets),
        ),
        ..list
    }
}

/// The sets in force.
pub open spec fn sets_in_force(
    prefix: PrefixSetConfig,
    community: CommunitySetConfig,
    ext_community: ExtCommunitySetConfig,
    large_community: LargeCommunitySetConfig,
    as_path: AsPathSetConfig,
) -> SetsView {
    SetsView {
        prefix: prefix@.config,
        community: community@.config,
        ext_community: ext_community@.config,
        large_community: large_community@.config,
        as_path: as_path@.config,
    }
}

/// Look a name up.
fn look_up<T: Staged>(name: &Option<String>, sets: &SortedMap<String, T>) -> (r: Option<T>)
    ensures
        r.deep_view() == resolve(name.deep_view(), sets@),
{
    match name {
        Some(name) => match sets.get(name) {
            Some(set) => Some(set.duplicate()),
            None => None,
        },
        None => None,
    }
}

/// Resolve all names in the entries of a policy against the sets in force.
pub fn policy_entry_sync(
    policy_list: &mut PolicyList,
    prefix_config: &PrefixSetConfig,
    community_config: &CommunitySetConfig,
    ext_community_config: &ExtCommunitySetConfig,
    large_community_config: &LargeCommunitySetConfig,
    as_path_config: &AsPathSetConfig,
)
    ensures
        final(policy_list)@ == resolved(
            old(policy_list)@,
            sets_in_force(
                *prefix_config,
                *community_config,
                *ext_community_config,
                *large_community_config,
                *as_path_config,
            ),
        ),
{
    let ghost before = policy_list@;
    let ghost sets = sets_in_force(
        *prefix_config,
        *community_config,
        *ext_community_config,
        *large_community_config,
        *as_path_config,
    );
    let ghost numbers = before.entry.dom();
    let n = policy_list.entry.len();
    let mut i: usize = 0;
    proof {
        visited_none::<u32>(numbers);
    }
    while i < n
        invariant
            i <= n,
            numbers.finite(),
            n == in_order::<u32>(numbers).len(),
            numbers == before.entry.dom(),
            policy_list@.delete == before.delete,
            policy_list@.entry.dom() == numbers,
            sets == sets_in_force(
                *prefix_config,
                *community_config,
                *ext_community_config,
                *large_community_config,
                *as_path_config,
            ),
            forall|number: u32| #[trigger]
                policy_list@.entry[number] == if visited::<u32>(numbers, i as int).contains(
                    number,
                ) {
                    resolved_entry(before.entry[number], sets)
                } else {
                    before.entry[number]
                },
        decreases n - i,
    {
        let number = *policy_list.entry.key_at(i);
        let ghost entries = policy_list@.entry;
        proof {
            visited_next::<u32>(numbers, i as int);
        }
        match policy_list.entry.get_mut(&number) {
            Some(entry) => {
                entry.prefix_set = look_up(&entry.prefix_set_name, &prefix_config.config);
                entry.community_set = look_up(&entry.community_set_name, &community_config.config);
                match &mut entry.set_community {
                    Some(setting) => {
                        setting.community_set = match community_config.config.get(&setting.name) {
                            Some(set) => Some(set.duplicate()),
                            None => None,
                        };
                    },
                    None => {},
                }
                entry.ext_community_set = look_up(
                    &entry.ext_community_set_name,
                    &ext_community_config.config,
                );
                entry.large_community_set = look_up(
                    &entry.large_community_set_name,
                    &large_community_config.config,
                );
                entry.as_path_set = look_up(&entry.as_path_set_name, &as_path_config.config);
            },
            None => {},
        }
        proof {
            assert(policy_list@.entry == entries.insert(
                number,
                resolved_entry(entries[number], sets),
            ));
            assert(policy_list@.entry.dom() =~= numbers);
        }
        i += 1;
    }
    proof {
        visited_all::<u32>(numbers);
        assert(policy_list@.entry =~= resolved(before, sets).entry);
    }
}

} // verus!
