//! Which words name the choices of a VRF's configuration.

use vstd::prelude::*;
use crate::args::ArgView;
use crate::bgp::types::{dataplane_of, encapsulation_of, label_mode_of, segment_mode_of,
    BgpVrfEncapsulation, BgpVrfLabelMode, MupDataplane, MupSegmentMode, MupSrv6Direction};
use crate::bgp::vrf_config::{dataplane_arg, encapsulation_arg, label_mode_arg, route_direction_arg,
    route_direction_of, segment_mode_arg};

verus! {

/// Each label mode has one name, and what is not a name names none.
pub proof fn label_modes(text: Seq<char>)
    ensures
        text == "per-vrf"@ <==> label_mode_of(text) == Some(BgpVrfLabelMode::Vrf),
        text == "per-route"@ <==> label_mode_of(text) == Some(BgpVrfLabelMode::Route),
        text == "per-nexthop"@ <==> label_mode_of(text) == Some(BgpVrfLabelMode::Nexthop),
{
    reveal_strlit("per-vrf");
    reveal_strlit("per-route");
    reveal_strlit("per-nexthop");
    assert("per-vrf"@.len() < "per-route"@.len() < "per-nexthop"@.len());
}

/// Each encapsulation has one name, and what is not a name names none.
pub proof fn encapsulations(text: Seq<char>)
    ensures
        text == "mpls"@ <==> encapsulation_of(text) == Some(BgpVrfEncapsulation::Mpls),
        text == "srv6"@ <==> encapsulation_of(text) == Some(BgpVrfEncapsulation::Srv6),
        text == "vxlan"@ <==> encapsulation_of(text) == Some(BgpVrfEncapsulation::Vxlan),
{
    reveal_strlit("mpls");
    reveal_strlit("srv6");
    reveal_strlit("vxlan");
    assert("mpls"@[0] != "srv6"@[0]);
    assert("srv6"@.len() < "vxlan"@.len());
}

/// Each segment mode has one name, and what is not a name names none.
pub proof fn segment_modes(text: Seq<char>)
    ensures
        text == "direct"@ <==> segment_mode_of(text) == Some(MupSegmentMode::Direct),
        text == "interwork"@ <==> segment_mode_of(text) == Some(MupSegmentMode::Interwork),
{
    reveal_strlit("direct");
    reveal_strlit("interwork");
    assert("direct"@.len() < "interwork"@.len());
}

/// Each forwarding plane has one name, and what is not a name names none.
pub proof fn dataplanes(text: Seq<char>)
    ensures
        text == "end-dt46"@ <==> dataplane_of(text) == Some(MupDataplane::EndDt46),
        text == "gtp"@ <==> dataplane_of(text) == Some(MupDataplane::Gtp),
{
    reveal_strlit("end-dt46");
    reveal_strlit("gtp");
    assert("gtp"@.len() < "end-dt46"@.len());
}

/// The downlink route is `st1` and the uplink route `st2`; there is no other.
pub proof fn route_directions(text: Seq<char>)
    ensures
        text == "st1"@ <==> route_direction_of(text) == Some(MupSrv6Direction::Encapsulation),
        text == "st2"@ <==> route_direction_of(text) == Some(MupSrv6Direction::Decapsulation),
{
    reveal_strlit("st1");
    reveal_strlit("st2");
    assert("st1"@[2] != "st2"@[2]);
}

/// A choice is read from the text of the first argument, and from nothing where
/// there is no argument.
pub proof fn choices_are_read(args: Seq<ArgView>)
    ensures
        args.len() == 0 ==> label_mode_arg(args) is None && encapsulation_arg(args) is None
            && segment_mode_arg(args) is None && dataplane_arg(args) is None
            && route_direction_arg(args) is None,
        args.len() > 0 ==> {
            &&& label_mode_arg(args) == label_mode_of(args[0].text)
            &&& encapsulation_arg(args) == encapsulation_of(args[0].text)
            &&& segment_mode_arg(args) == segment_mode_of(args[0].text)
            &&& dataplane_arg(args) == dataplane_of(args[0].text)
            &&& route_direction_arg(args) == route_direction_of(args[0].text)
        },
{
}

} // verus!
