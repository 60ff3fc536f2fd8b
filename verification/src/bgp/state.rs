//! The BGP instance as far as its VRFs are concerned, and what it tells them.

use vstd::prelude::*;
use crate::net::{AfiSafi, IpAddr, Ipv4Net, Ipv6Net};
use crate::sorted_map::SortedMap;
use crate::bgp::types::{BgpRedistSource, BgpVrfConfig, BgpVrfConfigView, InOut, RedistAfi};

verus! {

/// What a running VRF is told.
#[derive(Debug, PartialEq, Eq)]
#[allow(inconsistent_fields)]
pub enum BgpVrfMsg {
    /// Originate a prefix of the VRF's own.
    OriginateNetwork { prefix: Ipv4Net },
    /// Withdraw it again.
    WithdrawNetwork { prefix: Ipv4Net },
    OriginateNetworkV6 { prefix: Ipv6Net },
    WithdrawNetworkV6 { prefix: Ipv6Net },
    /// Redistribute the routes of a source.
    RedistEnable { afi: RedistAfi, source: BgpRedistSource },
    /// Stop doing so.
    RedistDisable { afi: RedistAfi, source: BgpRedistSource },
    /// Bind a neighbor's family to a prefix-set, or to none.
    PrefixSetConfig {
        address: IpAddr,
        afi_safi: AfiSafi,
        direction: InOut,
        name: Option<String>,
        generation: u64,
    },
    /// All bindings of one configuration commit have been sent.
    PrefixSetCommitEnd { generation: u64 },
}

/// What a message says.
#[allow(inconsistent_fields)]
pub enum BgpVrfMsgView {
    OriginateNetwork { prefix: Ipv4Net },
    WithdrawNetwork { prefix: Ipv4Net },
    OriginateNetworkV6 { prefix: Ipv6Net },
    WithdrawNetworkV6 { prefix: Ipv6Net },
    RedistEnable { afi: RedistAfi, source: BgpRedistSource },
    RedistDisable { afi: RedistAfi, source: BgpRedistSource },
    PrefixSetConfig {
        address: IpAddr,
        afi_safi: AfiSafi,
        direction: InOut,
        name: Option<Seq<char>>,
        generation: u64,
    },
    PrefixSetCommitEnd { generation: u64 },
}

impl View for BgpVrfMsg {
    type V = BgpVrfMsgView;

    open spec fn view(&self) -> BgpVrfMsgView {
        match *self {
            BgpVrfMsg::OriginateNetwork { prefix } => BgpVrfMsgView::OriginateNetwork { prefix },
            BgpVrfMsg::WithdrawNetwork { prefix } => BgpVrfMsgView::WithdrawNetwork { prefix },
            BgpVrfMsg::OriginateNetworkV6 { prefix } => BgpVrfMsgView::OriginateNetworkV6 {
                prefix,
            },
            BgpVrfMsg::WithdrawNetworkV6 { prefix } => BgpVrfMsgView::WithdrawNetworkV6 { prefix },
            BgpVrfMsg::RedistEnable { afi, source } => BgpVrfMsgView::RedistEnable { afi, source },
            BgpVrfMsg::RedistDisable { afi, source } => BgpVrfMsgView::RedistDisable {
                afi,
                source,
            },
            BgpVrfMsg::PrefixSetConfig {
                address,
                afi_safi,
                direction,
                name,
                generation,
            } => BgpVrfMsgView::PrefixSetConfig {
                address,
                afi_safi,
                direction,
                name: name.deep_view(),
                generation,
            },
            BgpVrfMsg::PrefixSetCommitEnd { generation } => BgpVrfMsgView::PrefixSetCommitEnd {
                generation,
            },
        }
    }
}

/// A message on its way to the inbox of a running VRF.
#[derive(Debug, PartialEq, Eq)]
pub struct VrfDelivery {
    pub inbox: u64,
    pub msg: BgpVrfMsg,
}

/// A message and the inbox it goes to.
pub struct VrfDeliveryView {
    pub inbox: u64,
    pub msg: BgpVrfMsgView,
}

impl DeepView for VrfDelivery {
    type V = VrfDeliveryView;

    open spec fn deep_view(&self) -> VrfDeliveryView {
        VrfDeliveryView { inbox: self.inbox, msg: self.msg@ }
    }
}

/// A running VRF, known by the number of its inbox.
#[derive(Debug, Clone, Copy, PartialEq, Eq, Structural)]
pub struct VrfHandle {
    pub inbox: u64,
}

impl DeepView for VrfHandle {
    type V = u64;

    open spec fn deep_view(&self) -> u64 {
        self.inbox
    }
}

/// One binding of a neighbor to a prefix-set: the VRF, the neighbor, the
/// family and the direction.
pub struct BindingKey {
    pub vrf: Seq<char>,
    pub address: IpAddr,
    pub afi_safi: AfiSafi,
    pub direction: InOut,
}

/// A binding that a configuration transaction has touched, with the name that
/// it had before the transaction first touched it.
///
/// A replacement arrives as a delete followed by a set. Keeping the first name
/// lets the end of the transaction publish the final binding only, so that a
/// running VRF never sees the unbound state in between.
#[derive(Debug, PartialEq, Eq)]
pub struct PendingVrfPrefixSetChange {
    pub vrf: String,
    pub address: IpAddr,
    pub afi_safi: AfiSafi,
    pub direction: InOut,
    pub before: Option<String>,
}

/// A touched binding and its first name.
pub struct PendingVrfPrefixSetChangeView {
    pub key: BindingKey,
    pub before: Option<Seq<char>>,
}

impl View for PendingVrfPrefixSetChange {
    type V = PendingVrfPrefixSetChangeView;

    open spec fn view(&self) -> PendingVrfPrefixSetChangeView {
        PendingVrfPrefixSetChangeView {
            key: BindingKey {
                vrf: self.vrf@,
                address: self.address,
                afi_safi: self.afi_safi,
                direction: self.direction,
            },
            before: self.before.deep_view(),
        }
    }
}

impl DeepView for PendingVrfPrefixSetChange {
    type V = PendingVrfPrefixSetChangeView;

    open spec fn deep_view(&self) -> PendingVrfPrefixSetChangeView {
        self@
    }
}

/// A binding that a transaction has changed, with its final name.
#[derive(Debug, PartialEq, Eq)]
pub struct VrfPrefixSetChange {
    pub vrf: String,
    pub address: IpAddr,
    pub afi_safi: AfiSafi,
    pub direction: InOut,
    pub name: Option<String>,
}

/// A changed binding and its final name.
pub struct VrfPrefixSetChangeView {
    pub key: BindingKey,
    pub name: Option<Seq<char>>,
}

impl View for VrfPrefixSetChange {
    type V = VrfPrefixSetChangeView;

    open spec fn view(&self) -> VrfPrefixSetChangeView {
        VrfPrefixSetChangeView {
            key: BindingKey {
                vrf: self.vrf@,
                address: self.address,
                afi_safi: self.afi_safi,
                direction: self.direction,
            },
            name: self.name.deep_view(),
        }
    }
}

impl DeepView for VrfPrefixSetChange {
    type V = VrfPrefixSetChangeView;

    open spec fn deep_view(&self) -> VrfPrefixSetChangeView {
        self@
    }
}

/// The BGP instance: the candidate configuration of its VRFs, the bindings
/// that the open transaction has touched, the VRFs that are running, and the
/// messages that wait to be handed to them.
#[derive(Debug)]
pub struct Bgp {
    pub vrfs: SortedMap<String, BgpVrfConfig>,
    pub vrf_prefix_set_pending: Vec<PendingVrfPrefixSetChange>,
    pub vrf_registry: SortedMap<String, VrfHandle>,
    pub outbox: Vec<VrfDelivery>,
}

/// What a BGP instance holds.
pub struct BgpView {
    pub vrfs: Map<Seq<char>, BgpVrfConfigView>,
    pub pending: Seq<PendingVrfPrefixSetChangeView>,
    pub registry: Map<Seq<char>, u64>,
    pub outbox: Seq<VrfDeliveryView>,
}

impl View for Bgp {
    type V = BgpView;

    open spec fn view(&self) -> BgpView {
        BgpView {
            vrfs: self.vrfs@,
            pending: self.vrf_prefix_set_pending.deep_view(),
            registry: self.vrf_registry@,
            outbox: self.outbox.deep_view(),
        }
    }
}

impl BgpView {
    /// Nothing configured and nothing running.
    pub open spec fn empty() -> Self {
        BgpView {
            vrfs: Map::empty(),
            pending: Seq::empty(),
            registry: Map::empty(),
            outbox: Seq::empty(),
        }
    }

    /// The same instance with one VRF's configuration exchanged.
    pub open spec fn with_vrf(self, name: Seq<char>, cfg: BgpVrfConfigView) -> Self {
        BgpView { vrfs: self.vrfs.insert(name, cfg), ..self }
    }

    /// The same instance after messages were queued for a VRF. Nothing is
    /// queued where the VRF is not running.
    pub open spec fn tell(self, vrf: Seq<char>, msgs: Seq<BgpVrfMsgView>) -> Self {
        if self.registry.contains_key(vrf) {
            BgpView {
                outbox: self.outbox + msgs.map_values(
                    |msg: BgpVrfMsgView|
                        VrfDeliveryView { inbox: self.registry[vrf], msg },
                ),
                ..self
            }
        } else {
            self
        }
    }
}

impl Bgp {
    /// An instance with nothing configured and nothing running.
    pub fn new() -> (r: Bgp)
        ensures
            r@ == BgpView::empty(),
    {
        let r = Bgp {
            vrfs: SortedMap::new(),
            vrf_prefix_set_pending: Vec::new(),
            vrf_registry: SortedMap::new(),
            outbox: Vec::new(),
        };
        assert(r.vrf_prefix_set_pending.deep_view() =~= Seq::empty());
        assert(r.outbox.deep_view() =~= Seq::empty());
        r
    }

    /// Queue a message for a VRF, if it is running.
    pub fn send(&mut self, vrf: &String, msg: BgpVrfMsg)
        ensures
            final(self)@ == old(self)@.tell(vrf@, seq![msg@]),
    {
        let ghost before = self@;
        match self.vrf_registry.get(vrf) {
            Some(handle) => {
                let inbox = handle.inbox;
                self.outbox.push(VrfDelivery { inbox, msg });
                assert(self.outbox.deep_view() =~= before.outbox + seq![msg@].map_values(
                    |msg: BgpVrfMsgView|
                        VrfDeliveryView { inbox: before.registry[vrf@], msg },
                ));
            },
            None => {},
        }
    }
}

impl Default for Bgp {
    fn default() -> (r: Bgp)
        ensures
            r@ == BgpView::empty(),
    {
        Bgp::new()
    }
}

/// Telling a VRF two rows of messages is telling it the one and then the other.
pub proof fn tell_in_turn(
    bgp: BgpView,
    vrf: Seq<char>,
    first: Seq<BgpVrfMsgView>,
    second: Seq<BgpVrfMsgView>,
)
    ensures
        bgp.tell(vrf, first).tell(vrf, second) == bgp.tell(vrf, first + second),
{
    let f = |msg: BgpVrfMsgView| VrfDeliveryView { inbox: bgp.registry[vrf], msg };
    if bgp.registry.contains_key(vrf) {
        assert(bgp.outbox + first.map_values(f) + second.map_values(f) =~= bgp.outbox + (first
            + second).map_values(f));
    }
}

} // verus!
