//! The lines that tell an operator what a commit has staged.

use vstd::prelude::*;
use crate::bgp::state::Bgp;
use crate::bgp::types::{BgpVrfConfigView, BgpVrfLabelMode};
use crate::net::{Ipv4Addr, RouteDistinguisher, RouteDistinguisherView};
use crate::order::{in_order, in_order_enumerates, increasing_no_duplicates};

verus! {

/// What a commit has staged for one VRF, in brief.
#[derive(Debug)]
pub struct VrfIntent {
    pub vrf: String,
    pub rd: Option<RouteDistinguisher>,
    pub router_id: Option<Ipv4Addr>,
    pub label_mode: BgpVrfLabelMode,
    /// How many neighbors are configured.
    pub neighbors: usize,
    pub ipv4_unicast: bool,
    pub ipv6_unicast: bool,
    pub evpn_advertise_v4: bool,
    pub evpn_advertise_v6: bool,
}

/// What an intent says.
pub struct VrfIntentView {
    pub vrf: Seq<char>,
    pub rd: Option<RouteDistinguisherView>,
    pub router_id: Option<Ipv4Addr>,
    pub label_mode: BgpVrfLabelMode,
    pub neighbors: nat,
    pub ipv4_unicast: bool,
    pub ipv6_unicast: bool,
    pub evpn_advertise_v4: bool,
    pub evpn_advertise_v6: bool,
}

impl DeepView for VrfIntent {
    type V = VrfIntentView;

    open spec fn deep_view(&self) -> VrfIntentView {
        VrfIntentView {
            vrf: self.vrf@,
            rd: self.rd.deep_view(),
            router_id: self.router_id,
            label_mode: self.label_mode,
            neighbors: self.neighbors as nat,
            ipv4_unicast: self.ipv4_unicast,
            ipv6_unicast: self.ipv6_unicast,
            evpn_advertise_v4: self.evpn_advertise_v4,
            evpn_advertise_v6: self.evpn_advertise_v6,
        }
    }
}

/// The intent of a VRF's configuration.
pub open spec fn intent_of(vrfs: Map<Seq<char>, BgpVrfConfigView>) -> spec_fn(
    Seq<char>,
) -> VrfIntentView {
    |vrf: Seq<char>|
        VrfIntentView {
            vrf,
            rd: vrfs[vrf].rd,
            router_id: vrfs[vrf].router_id,
            label_mode: vrfs[vrf].label_mode,
            neighbors: vrfs[vrf].neighbors.dom().len(),
            ipv4_unicast: vrfs[vrf].ipv4_unicast is Some,
            ipv6_unicast: vrfs[vrf].ipv6_unicast is Some,
            evpn_advertise_v4: vrfs[vrf].evpn_advertise_v4,
            evpn_advertise_v6: vrfs[vrf].evpn_advertise_v6,
        }
}

/// The intents of all VRFs at a commit, one for each in the order of names.
pub fn log_commit_diff(bgp: &Bgp) -> (r: Vec<VrfIntent>)
    ensures
        r.deep_view() == in_order::<String>(bgp@.vrfs.dom()).map_values(intent_of(bgp@.vrfs)),
{
    let n = bgp.vrfs.len();
    let ghost names = in_order::<String>(bgp@.vrfs.dom());
    let mut lines: Vec<VrfIntent> = Vec::new();
    let mut i: usize = 0;
    while i < n
        invariant
            i <= n,
            n == names.len(),
            names == in_order::<String>(bgp.vrfs@.dom()),
            lines.deep_view() =~= names.take(i as int).map_values(intent_of(bgp.vrfs@)),
        decreases n - i,
    {
        let cfg = bgp.vrfs.value_at(i);
        let line = VrfIntent {
            vrf: bgp.vrfs.key_at(i).clone(),
            rd: cfg.rd,
            router_id: cfg.router_id,
            label_mode: cfg.label_mode,
            neighbors: cfg.neighbors.len(),
            ipv4_unicast: cfg.ipv4_unicast.is_some(),
            ipv6_unicast: cfg.ipv6_unicast.is_some(),
            evpn_advertise_v4: cfg.evpn_advertise_v4,
            evpn_advertise_v6: cfg.evpn_advertise_v6,
        };
        let ghost before = lines.deep_view();
        lines.push(line);
        assert(lines.deep_view() =~= before.push(intent_of(bgp.vrfs@)(names[i as int])));
        i += 1;
    }
    assert(names.take(n as int) =~= names);
    lines
}

/// The lines at a commit name each VRF once, in the order of names, and say of
/// it what its configuration holds: the distinguisher, the router id, the label
/// mode, how many neighbors there are, and which families are set up.
pub proof fn intents_are_the_vrfs(vrfs: Map<Seq<char>, BgpVrfConfigView>, i: int)
    requires
        vrfs.dom().finite(),
        0 <= i < in_order::<String>(vrfs.dom()).len(),
    ensures
        ({
            let names = in_order::<String>(vrfs.dom());
            let line = names.map_values(intent_of(vrfs))[i];
            let cfg = vrfs[names[i]];
            &&& names.map_values(intent_of(vrfs)).len() == vrfs.dom().len()
            &&& vrfs.contains_key(names[i])
            &&& line.vrf == names[i]
            &&& line.rd == cfg.rd
            &&& line.router_id == cfg.router_id
            &&& line.label_mode == cfg.label_mode
            &&& line.neighbors == cfg.neighbors.dom().len()
            &&& line.ipv4_unicast == !(cfg.ipv4_unicast is None)
            &&& line.ipv6_unicast == !(cfg.ipv6_unicast is None)
            &&& line.evpn_advertise_v4 == cfg.evpn_advertise_v4
            &&& line.evpn_advertise_v6 == cfg.evpn_advertise_v6
        }),
{
    let names = in_order::<String>(vrfs.dom());
    in_order_enumerates::<String>(vrfs.dom());
    increasing_no_duplicates::<String>(names);
    names.unique_seq_to_set();
    assert(names.to_set().contains(names[i]));
}

} // verus!
