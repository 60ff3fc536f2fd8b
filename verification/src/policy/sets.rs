//! The named sets that policies and neighbors refer to, and how a commit
//! brings staged ones into force.

use vstd::prelude::*;
use crate::net::IpNet;
use crate::order::in_order;
use crate::sorted_map::SortedMap;
use crate::value::Value;

verus! {

/// The bounds on the length of a prefix that an entry of a prefix-set matches.
#[derive(Debug, Clone, Copy, PartialEq, Eq, Structural)]
pub struct PrefixSetEntry {
    pub le: Option<u8>,
    pub ge: Option<u8>,
}

impl DeepView for PrefixSetEntry {
    type V = PrefixSetEntry;

    open spec fn deep_view(&self) -> PrefixSetEntry {
        *self
    }
}

impl Default for PrefixSetEntry {
    fn default() -> (r: Self)
        ensures
            r == (PrefixSetEntry { le: None, ge: None }),
    {
        PrefixSetEntry { le: None, ge: None }
    }
}

impl Value for PrefixSetEntry {
    fn duplicate(&self) -> (r: Self) {
        *self
    }

    fn same(&self, other: &Self) -> (r: bool) {
        self.le.same(&other.le) && self.ge.same(&other.ge)
    }
}

/// IP prefixes, each with optional bounds on the length of what it matches.
/// A set that is staged to be deleted says so in `delete`.
#[derive(Debug, PartialEq, Eq)]
pub struct PrefixSet {
    pub prefixes: SortedMap<IpNet, PrefixSetEntry>,
    pub delete: bool,
}

/// What a prefix-set holds.
pub struct PrefixSetView {
    pub prefixes: Map<IpNet, PrefixSetEntry>,
    pub delete: bool,
}

impl View for PrefixSet {
    type V = PrefixSetView;

    open spec fn view(&self) -> PrefixSetView {
        PrefixSetView { prefixes: self.prefixes@, delete: self.delete }
    }
}

impl DeepView for PrefixSet {
    type V = PrefixSetView;

    open spec fn deep_view(&self) -> PrefixSetView {
        self@
    }
}

impl PrefixSet {
    /// Add a prefix, or exchange its bounds.
    pub fn insert(&mut self, prefix: IpNet, entry: PrefixSetEntry)
        ensures
            final(self)@ == (PrefixSetView {
                prefixes: old(self)@.prefixes.insert(prefix, entry),
                ..old(self)@
            }),
    {
        self.prefixes.insert(prefix, entry);
    }
}

impl Default for PrefixSet {
    fn default() -> (r: Self)
        ensures
            r@ == (PrefixSetView { prefixes: Map::empty(), delete: false }),
    {
        PrefixSet { prefixes: SortedMap::new(), delete: false }
    }
}

impl Value for PrefixSet {
    fn duplicate(&self) -> (r: Self) {
        PrefixSet { prefixes: self.prefixes.duplicate(), delete: self.delete }
    }

    fn same(&self, other: &Self) -> (r: bool) {
        self.prefixes.same(&other.prefixes) && self.delete == other.delete
    }
}

impl Clone for PrefixSet {
    fn clone(&self) -> (r: Self)
        ensures
            r@ == self@,
    {
        self.duplicate()
    }
}

/// Values given by their text, such as communities or patterns for an AS path.
/// A set that is staged to be deleted says so in `delete`.
#[derive(Debug, PartialEq, Eq)]
pub struct MemberSet {
    pub members: Vec<String>,
    pub delete: bool,
}

/// What a set of texts holds.
pub struct MemberSetView {
    pub members: Seq<Seq<char>>,
    pub delete: bool,
}

impl View for MemberSet {
    type V = MemberSetView;

    open spec fn view(&self) -> MemberSetView {
        MemberSetView { members: self.members.deep_view(), delete: self.delete }
    }
}

impl DeepView for MemberSet {
    type V = MemberSetView;

    open spec fn deep_view(&self) -> MemberSetView {
        self@
    }
}

impl Default for MemberSet {
    fn default() -> (r: Self)
        ensures
            r@ == (MemberSetView { members: Seq::empty(), delete: false }),
    {
        let r = MemberSet { members: Vec::new(), delete: false };
        assert(r@.members =~= Seq::empty());
        r
    }
}

impl Value for MemberSet {
    fn duplicate(&self) -> (r: Self) {
        MemberSet { members: self.members.duplicate(), delete: self.delete }
    }

    fn same(&self, other: &Self) -> (r: bool) {
        self.members.same(&other.members) && self.delete == other.delete
    }
}

impl Clone for MemberSet {
    fn clone(&self) -> (r: Self)
        ensures
            r@ == self@,
    {
        self.duplicate()
    }
}

/// The keys of a key chain, each by its number. A chain that is staged to be
/// deleted says so in `delete`.
#[derive(Debug, PartialEq, Eq)]
pub struct KeyChain {
    pub keys: SortedMap<u32, String>,
    pub delete: bool,
}

/// What a key chain holds.
pub struct KeyChainView {
    pub keys: Map<u32, Seq<char>>,
    pub delete: bool,
}

impl View for KeyChain {
    type V = KeyChainView;

    open spec fn view(&self) -> KeyChainView {
        KeyChainView { keys: self.keys@, delete: self.delete }
    }
}

impl DeepView for KeyChain {
    type V = KeyChainView;

    open spec fn deep_view(&self) -> KeyChainView {
        self@
    }
}

impl Default for KeyChain {
    fn default() -> (r: Self)
        ensures
            r@ == (KeyChainView { keys: Map::empty(), delete: false }),
    {
        KeyChain { keys: SortedMap::new(), delete: false }
    }
}

impl Value for KeyChain {
    fn duplicate(&self) -> (r: Self) {
        KeyChain { keys: self.keys.duplicate(), delete: self.delete }
    }

    fn same(&self, other: &Self) -> (r: bool) {
        self.keys.same(&other.keys) && self.delete == other.delete
    }
}

impl Clone for KeyChain {
    fn clone(&self) -> (r: Self)
        ensures
            r@ == self@,
    {
        self.duplicate()
    }
}

/// Something that is staged by name: a new body, or a mark that the name is to
/// go.
pub trait Staged: Value {
    /// Whether the mark is set.
    spec fn marked(staged: Self::V) -> bool;
}

impl Staged for PrefixSet {
    open spec fn marked(staged: PrefixSetView) -> bool {
        staged.delete
    }
}

impl Staged for MemberSet {
    open spec fn marked(staged: MemberSetView) -> bool {
        staged.delete
    }
}

impl Staged for KeyChain {
    open spec fn marked(staged: KeyChainView) -> bool {
        staged.delete
    }
}

/// What is in force by name, and what is staged by name until the next commit.
#[derive(Debug)]
pub struct SetConfig<T: Staged> {
    pub config: SortedMap<String, T>,
    pub cache: SortedMap<String, T>,
}

/// What is in force and what is staged.
#[verifier::reject_recursive_types(M)]
pub struct SetConfigView<M> {
    pub config: Map<Seq<char>, M>,
    pub cache: Map<Seq<char>, M>,
}

/// The community-sets.
pub type CommunitySetConfig = SetConfig<MemberSet>;

/// The sets of extended communities.
pub type ExtCommunitySetConfig = SetConfig<MemberSet>;

/// The sets of large communities.
pub type LargeCommunitySetConfig = SetConfig<MemberSet>;

/// The sets of patterns for an AS path.
pub type AsPathSetConfig = SetConfig<MemberSet>;

/// The prefix-sets.
pub type PrefixSetConfig = SetConfig<PrefixSet>;

/// The key chains.
pub type KeyChainSetConfig = SetConfig<KeyChain>;

impl<T: Staged> View for SetConfig<T> {
    type V = SetConfigView<T::V>;

    open spec fn view(&self) -> SetConfigView<T::V> {
        SetConfigView { config: self.config@, cache: self.cache@ }
    }
}

impl<M> SetConfigView<M> {
    /// Nothing in force and nothing staged.
    pub open spec fn empty() -> Self {
        SetConfigView { config: Map::empty(), cache: Map::empty() }
    }
}

/// What is in force after a commit: a name that was staged has the staged body
/// or is gone, and any other name is as it was.
pub open spec fn in_force<T: Staged>(
    config: Map<Seq<char>, T::V>,
    cache: Map<Seq<char>, T::V>,
) -> Map<Seq<char>, T::V> {
    Map::new(
        |name: Seq<char>|
            if cache.contains_key(name) {
                !T::marked(cache[name])
            } else {
                config.contains_key(name)
            },
        |name: Seq<char>|
            if cache.contains_key(name) {
                cache[name]
            } else {
                config[name]
            },
    )
}

/// Taking one staged name into force ahead of the others does not matter.
pub proof fn in_force_step<T: Staged>(
    config: Map<Seq<char>, T::V>,
    cache: Map<Seq<char>, T::V>,
    name: Seq<char>,
)
    requires
        cache.contains_key(name),
    ensures
        in_force::<T>(
            if T::marked(cache[name]) {
                config.remove(name)
            } else {
                config.insert(name, cache[name])
            },
            cache.remove(name),
        ) == in_force::<T>(config, cache),
{
    let next = if T::marked(cache[name]) {
        config.remove(name)
    } else {
        config.insert(name, cache[name])
    };
    assert(in_force::<T>(next, cache.remove(name)) =~= in_force::<T>(config, cache));
}

/// With nothing staged a commit changes nothing.
pub proof fn in_force_done<T: Staged>(config: Map<Seq<char>, T::V>)
    ensures
        in_force::<T>(config, Map::empty()) == config,
{
    assert(in_force::<T>(config, Map::empty()) =~= config);
}

impl<T: Staged> SetConfig<T> {
    /// Nothing in force and nothing staged.
    pub fn new() -> (r: Self)
        ensures
            r@ == SetConfigView::<T::V>::empty(),
    {
        SetConfig { config: SortedMap::new(), cache: SortedMap::new() }
    }
}

impl SetConfig<MemberSet> {
    /// Bring what is staged into force. Nobody watches these sets by
    /// themselves.
    pub fn commit(&mut self)
        ensures
            final(self)@ == (SetConfigView {
                config: in_force::<MemberSet>(old(self)@.config, old(self)@.cache),
                cache: Map::empty(),
            }),
    {
        let ghost goal = in_force::<MemberSet>(self.config@, self.cache@);
        loop
            invariant
                in_force::<MemberSet>(self.config@, self.cache@) == goal,
            ensures
                self.config@ == goal,
                self.cache@ == Map::<Seq<char>, MemberSetView>::empty(),
            decreases in_order::<String>(self.cache@.dom()).len(),
        {
            proof {
                in_force_done::<MemberSet>(self.config@);
            }
            let ghost config = self.config@;
            let ghost cache = self.cache@;
            match self.cache.pop_first() {
                None => break ,
                Some((name, set)) => {
                    proof {
                        in_force_step::<MemberSet>(config, cache, name@);
                    }
                    if set.delete {
                        self.config.remove(&name);
                        assert(self.config@ =~= config.remove(name@));
                    } else {
                        self.config.insert(name, set);
                    }
                },
            }
        }
    }
}

} // verus!
