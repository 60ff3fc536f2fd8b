//! How a configuration callback finds the entry it works on, and what it does
//! to one leaf there.

use vstd::prelude::*;
use crate::args::{addr_arg, rest, string_arg, ArgView, ConfigOp};
use crate::bgp::state::{Bgp, BgpView};
use crate::bgp::types::{BgpVrfConfig, BgpVrfConfigView, BgpVrfNeighborConfig,
    BgpVrfNeighborConfigView};
use crate::net::IpAddr;

verus! {

/// One leaf of a state: what assigning a value to it makes of the state, and
/// what deleting it does.
#[verifier::reject_recursive_types(S)]
#[verifier::reject_recursive_types(T)]
pub struct Leaf<S, T> {
    pub set: spec_fn(S, T) -> S,
    pub clear: spec_fn(S) -> S,
}

impl<S, T> Leaf<S, T> {
    /// Deleting the leaf undoes an assignment and nothing else, and a second
    /// assignment or deletion leaves no trace of the first.
    pub open spec fn lawful(self) -> bool {
        &&& forall|s: S, t: T|
            (self.clear)(#[trigger] (self.set)(s, t)) == (self.clear)(s)
        &&& forall|s: S, t: T, u: T|
            (self.set)(#[trigger] (self.set)(s, t), u) == #[trigger] (self.set)(s, u)
        &&& forall|s: S, t: T| #[trigger]
            (self.set)((self.clear)(s), t) == (self.set)(s, t)
        &&& forall|s: S| (self.clear)(#[trigger] (self.clear)(s)) == (self.clear)(s)
    }
}

/// What a callback for a leaf does: an assignment needs a value, a deletion
/// does not, and any other operation leaves the leaf alone.
pub open spec fn staged<S, T>(
    state: S,
    value: Option<T>,
    op: ConfigOp,
    leaf: Leaf<S, T>,
) -> (S, Option<()>) {
    match op {
        ConfigOp::Assign => match value {
            Some(value) => ((leaf.set)(state, value), Some(())),
            None => (state, None),
        },
        ConfigOp::Delete => ((leaf.clear)(state), Some(())),
        _ => (state, Some(())),
    }
}

/// The configuration that a callback for a VRF works on. A delete finds what
/// is there and nothing else; every other operation starts an entry where
/// there is none.
pub open spec fn vrf_found(
    vrfs: Map<Seq<char>, BgpVrfConfigView>,
    name: Seq<char>,
    op: ConfigOp,
) -> Option<BgpVrfConfigView> {
    if vrfs.contains_key(name) {
        Some(vrfs[name])
    } else if op == ConfigOp::Delete {
        None
    } else {
        Some(BgpVrfConfigView::unset())
    }
}

/// Borrow the entry of a VRF, which is created unless the operation is a delete.
///
/// A delete of a whole VRF removes the entry before the deletes of its leaves
/// arrive. An entry that a late delete brought back would keep the VRF alive.
pub fn vrf_entry(bgp: &mut Bgp, name: String, op: ConfigOp) -> (r: Option<&mut BgpVrfConfig>)
    ensures
        match r {
            Some(cfg) => {
                &&& vrf_found(old(bgp)@.vrfs, name@, op) == Some(cfg@)
                &&& final(bgp)@ == old(bgp)@.with_vrf(name@, final(cfg)@)
            },
            None => {
                &&& vrf_found(old(bgp)@.vrfs, name@, op) is None
                &&& final(bgp)@ == old(bgp)@
            },
        },
{
    match op {
        ConfigOp::Delete => bgp.vrfs.get_mut(&name),
        _ => Some(bgp.vrfs.get_or_insert(name, BgpVrfConfig::default())),
    }
}

/// The neighbor that a callback works on. Only an assignment starts an entry
/// where there is none, and only assignments and deletes find any.
pub open spec fn neighbor_found(
    cfg: BgpVrfConfigView,
    address: IpAddr,
    op: ConfigOp,
) -> Option<BgpVrfNeighborConfigView> {
    match op {
        ConfigOp::Assign => if cfg.neighbors.contains_key(address) {
            Some(cfg.neighbors[address])
        } else {
            Some(BgpVrfNeighborConfigView::unset())
        },
        ConfigOp::Delete => if cfg.neighbors.contains_key(address) {
            Some(cfg.neighbors[address])
        } else {
            None
        },
        _ => None,
    }
}

impl BgpVrfConfigView {
    /// The same configuration with one neighbor's exchanged.
    pub open spec fn with_neighbor(
        self,
        address: IpAddr,
        neighbor: BgpVrfNeighborConfigView,
    ) -> Self {
        BgpVrfConfigView { neighbors: self.neighbors.insert(address, neighbor), ..self }
    }
}

/// Borrow the entry of a neighbor. An assignment creates it, since a leaf may
/// arrive ahead of the neighbor itself; a delete that trails the removal of
/// the neighbor must not bring it back.
pub fn neighbor_entry(cfg: &mut BgpVrfConfig, address: IpAddr, op: ConfigOp) -> (r: Option<
    &mut BgpVrfNeighborConfig,
>)
    ensures
        match r {
            Some(neighbor) => {
                &&& neighbor_found(old(cfg)@, address, op) == Some(neighbor@)
                &&& final(cfg)@ == old(cfg)@.with_neighbor(address, final(neighbor)@)
            },
            None => {
                &&& neighbor_found(old(cfg)@, address, op) is None
                &&& final(cfg)@ == old(cfg)@
            },
        },
{
    match op {
        ConfigOp::Assign => Some(
            cfg.neighbors.get_or_insert(address, BgpVrfNeighborConfig::default()),
        ),
        ConfigOp::Delete => cfg.neighbors.get_mut(&address),
        _ => None,
    }
}

/// The effect of a step on the configuration of a VRF: nothing where no entry
/// is found. An entry that was created stays, whatever the step reports.
pub open spec fn at_vrf(
    bgp: BgpView,
    name: Seq<char>,
    op: ConfigOp,
    step: spec_fn(BgpVrfConfigView) -> (BgpVrfConfigView, Option<()>),
) -> (BgpView, Option<()>) {
    match vrf_found(bgp.vrfs, name, op) {
        Some(cfg) => (bgp.with_vrf(name, step(cfg).0), step(cfg).1),
        None => (bgp, None),
    }
}

/// The effect of a step on a neighbor of a VRF's configuration.
pub open spec fn at_neighbor(
    cfg: BgpVrfConfigView,
    address: IpAddr,
    op: ConfigOp,
    step: spec_fn(BgpVrfNeighborConfigView) -> (BgpVrfNeighborConfigView, Option<()>),
) -> (BgpVrfConfigView, Option<()>) {
    match neighbor_found(cfg, address, op) {
        Some(neighbor) => (cfg.with_neighbor(address, step(neighbor).0), step(neighbor).1),
        None => (cfg, None),
    }
}

/// The effect of a callback for a leaf of a VRF. The first argument names the
/// VRF; what has to be read before the entry is looked up is the `key`, which
/// picks the leaf. Where either is missing nothing happens at all.
pub open spec fn stage_vrf<K, T>(
    bgp: BgpView,
    args: Seq<ArgView>,
    key: Option<K>,
    value: Option<T>,
    op: ConfigOp,
    leaf: spec_fn(K) -> Leaf<BgpVrfConfigView, T>,
) -> (BgpView, Option<()>) {
    match (string_arg(args), key) {
        (Some(name), Some(key)) => at_vrf(
            bgp,
            name,
            op,
            |cfg: BgpVrfConfigView| staged(cfg, value, op, leaf(key)),
        ),
        _ => (bgp, None),
    }
}

/// The effect of a callback for a leaf of a neighbor. The first argument names
/// the VRF and the second one is the neighbor's address.
pub open spec fn stage_neighbor<K, T>(
    bgp: BgpView,
    args: Seq<ArgView>,
    key: Option<K>,
    value: Option<T>,
    op: ConfigOp,
    leaf: spec_fn(K) -> Leaf<BgpVrfNeighborConfigView, T>,
) -> (BgpView, Option<()>) {
    match (string_arg(args), addr_arg(rest(args)), key) {
        (Some(name), Some(address), Some(key)) => at_vrf(
            bgp,
            name,
            op,
            |cfg: BgpVrfConfigView|
                at_neighbor(
                    cfg,
                    address,
                    op,
                    |neighbor: BgpVrfNeighborConfigView| staged(neighbor, value, op, leaf(key)),
                ),
        ),
        _ => (bgp, None),
    }
}

} // verus!
