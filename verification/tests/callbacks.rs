//! The callbacks that stage the configuration of a VRF.

use vrf_policy::args::{Arg, Args, ConfigOp};
use vrf_policy::bgp::intent::log_commit_diff;
use vrf_policy::bgp::networks::{
    config_vrf_afi_ipv4, config_vrf_afi_ipv4_network, config_vrf_afi_ipv4_redistribute,
    config_vrf_afi_ipv4_redistribute_connected, config_vrf_afi_ipv4_redistribute_isis,
    config_vrf_afi_ipv4_redistribute_ospf, config_vrf_afi_ipv4_redistribute_static,
    config_vrf_afi_ipv6, config_vrf_afi_ipv6_network, config_vrf_afi_ipv6_redistribute,
    config_vrf_afi_ipv6_redistribute_connected, config_vrf_afi_ipv6_redistribute_isis,
    config_vrf_afi_ipv6_redistribute_ospf, config_vrf_afi_ipv6_redistribute_static,
    vrf_redist_clear, vrf_redist_set,
};
use vrf_policy::bgp::prefix_set::{
    apply_prefix_set_commit_changes, config_vrf_neighbor_afi_safi_prefix_set_in,
    config_vrf_neighbor_afi_safi_prefix_set_out,
};
use vrf_policy::bgp::staging::vrf_entry;
use vrf_policy::bgp::state::{Bgp, BgpVrfMsg, VrfDelivery, VrfHandle};
use vrf_policy::bgp::types::{
    BgpRedistSource, BgpVrfConfig, BgpVrfEncapsulation, BgpVrfLabelMode, BgpVrfNeighborConfig,
    InOut, MupDataplane, MupSegmentMode, MupSrv6Direction, RedistAfi,
};
use vrf_policy::bgp::vrf_config::{
    config_vrf, config_vrf_encapsulation, config_vrf_evpn_advertise_ipv4,
    config_vrf_evpn_advertise_ipv6, config_vrf_evpn_l3vni, config_vrf_evpn_router_mac,
    config_vrf_inter_as_hybrid, config_vrf_label_mode, config_vrf_mup_dataplane,
    config_vrf_mup_ext_comm, config_vrf_mup_route, config_vrf_mup_route_mup_ext_comm,
    config_vrf_mup_route_network_instance, config_vrf_mup_segment, config_vrf_mup_segment_prefix,
    config_vrf_neighbor, config_vrf_neighbor_afi_safi_enabled,
    config_vrf_neighbor_connect_retry_time, config_vrf_neighbor_description,
    config_vrf_neighbor_hold_time, config_vrf_neighbor_idle_hold_time,
    config_vrf_neighbor_peer_group, config_vrf_neighbor_remote_as, config_vrf_rd,
    config_vrf_router_id, mup_route_direction,
};
use vrf_policy::net::{
    Afi, AfiSafi, IpAddr, IpNet, Ipv4Addr, Ipv4Net, Ipv6Addr, Ipv6Net, RouteDistinguisher, Safi,
};

const PEER: IpAddr = IpAddr::V4(Ipv4Addr { bits: 0xc000_0201 });

const RD: RouteDistinguisher = RouteDistinguisher {
    typ: 0,
    val: [0xfd, 0xe8, 0, 0, 0, 10],
};

/// The arguments of a callback. The peer's address and the distinguisher are
/// read where they stand.
fn args(items: &[&str]) -> Args {
    Args::new(
        items
            .iter()
            .map(|item| Arg {
                text: item.to_string(),
                addr: if *item == "192.0.2.1" {
                    Some(PEER)
                } else {
                    None
                },
                rd: if *item == "65000:10" { Some(RD) } else { None },
            })
            .collect(),
    )
}

fn blue(bgp: &Bgp) -> &BgpVrfConfig {
    bgp.vrfs.get(&"blue".to_string()).unwrap()
}

fn peer(bgp: &Bgp) -> &BgpVrfNeighborConfig {
    blue(bgp).neighbors.get(&PEER).unwrap()
}

fn ipv4() -> AfiSafi {
    AfiSafi::new(Afi::Ip, Safi::Unicast)
}

fn ipv6() -> AfiSafi {
    AfiSafi::new(Afi::Ip6, Safi::Unicast)
}

/// An instance in which the VRF runs, with inbox 7.
fn running() -> Bgp {
    let mut bgp = Bgp::new();
    bgp.vrf_registry
        .insert("blue".to_string(), VrfHandle { inbox: 7 });
    bgp
}

fn told(msg: BgpVrfMsg) -> VrfDelivery {
    VrfDelivery { inbox: 7, msg }
}

fn net4(bits: u32, prefix_len: u8) -> Ipv4Net {
    Ipv4Net {
        addr: Ipv4Addr { bits },
        prefix_len,
    }
}

fn net6(bits: u128, prefix_len: u8) -> Ipv6Net {
    Ipv6Net {
        addr: Ipv6Addr { bits },
        prefix_len,
    }
}

#[test]
fn vrf_is_added_and_removed() {
    let mut bgp = Bgp::new();
    assert_eq!(config_vrf(&mut bgp, args(&[]), ConfigOp::Assign), None);
    assert_eq!(
        config_vrf(&mut bgp, args(&["blue"]), ConfigOp::CommitStart),
        Some(())
    );
    assert!(bgp.vrfs.is_empty());
    assert_eq!(
        config_vrf(&mut bgp, args(&["blue"]), ConfigOp::Assign),
        Some(())
    );
    assert_eq!(bgp.vrfs.len(), 1);
    config_vrf_evpn_l3vni(&mut bgp, args(&["blue", "5000"]), ConfigOp::Assign);
    config_vrf(&mut bgp, args(&["blue"]), ConfigOp::Assign);
    assert_eq!(blue(&bgp).l3vni, Some(5000), "a second add keeps the entry");
    assert_eq!(
        config_vrf(&mut bgp, args(&["blue"]), ConfigOp::Delete),
        Some(())
    );
    assert!(bgp.vrfs.is_empty());
}

#[test]
fn vrf_entry_is_created_unless_deleting() {
    let mut bgp = Bgp::new();
    assert!(vrf_entry(&mut bgp, "blue".to_string(), ConfigOp::Delete).is_none());
    assert!(bgp.vrfs.is_empty());
    assert!(vrf_entry(&mut bgp, "blue".to_string(), ConfigOp::CommitEnd).is_some());
    assert_eq!(bgp.vrfs.len(), 1);
    assert!(vrf_entry(&mut bgp, "blue".to_string(), ConfigOp::Delete).is_some());
}

#[test]
fn vrf_leaves_are_assigned_and_deleted() {
    let mut bgp = Bgp::new();
    let set = ConfigOp::Assign;
    let del = ConfigOp::Delete;

    assert_eq!(
        config_vrf_rd(&mut bgp, args(&["blue", "65000:10"]), set),
        Some(())
    );
    assert_eq!(blue(&bgp).rd, Some(RD));
    assert_eq!(config_vrf_rd(&mut bgp, args(&["blue"]), del), Some(()));
    assert_eq!(blue(&bgp).rd, None);

    assert_eq!(
        config_vrf_router_id(&mut bgp, args(&["blue", "192.0.2.1"]), set),
        Some(())
    );
    assert_eq!(blue(&bgp).router_id, Some(Ipv4Addr { bits: 0xc000_0201 }));
    config_vrf_router_id(&mut bgp, args(&["blue"]), del);
    assert_eq!(blue(&bgp).router_id, None);

    config_vrf_label_mode(&mut bgp, args(&["blue", "per-route"]), set);
    assert_eq!(blue(&bgp).label_mode, BgpVrfLabelMode::Route);
    config_vrf_label_mode(&mut bgp, args(&["blue"]), del);
    assert_eq!(blue(&bgp).label_mode, BgpVrfLabelMode::Vrf);

    config_vrf_encapsulation(&mut bgp, args(&["blue", "vxlan"]), set);
    assert_eq!(blue(&bgp).encapsulation, BgpVrfEncapsulation::Vxlan);
    config_vrf_encapsulation(&mut bgp, args(&["blue"]), del);
    assert_eq!(blue(&bgp).encapsulation, BgpVrfEncapsulation::Mpls);

    config_vrf_inter_as_hybrid(&mut bgp, args(&["blue", "true"]), set);
    assert!(blue(&bgp).inter_as_hybrid);
    config_vrf_inter_as_hybrid(&mut bgp, args(&["blue"]), del);
    assert!(!blue(&bgp).inter_as_hybrid);

    config_vrf_evpn_advertise_ipv4(&mut bgp, args(&["blue", "true"]), set);
    assert!(blue(&bgp).evpn_advertise_v4 && !blue(&bgp).evpn_advertise_v6);
    config_vrf_evpn_advertise_ipv4(&mut bgp, args(&["blue"]), del);
    assert!(!blue(&bgp).evpn_advertise_v4);

    config_vrf_evpn_advertise_ipv6(&mut bgp, args(&["blue", "true"]), set);
    assert!(blue(&bgp).evpn_advertise_v6 && !blue(&bgp).evpn_advertise_v4);
    config_vrf_evpn_advertise_ipv6(&mut bgp, args(&["blue", "false"]), set);
    assert!(!blue(&bgp).evpn_advertise_v6);
    config_vrf_evpn_advertise_ipv6(&mut bgp, args(&["blue"]), del);
    assert!(!blue(&bgp).evpn_advertise_v6);

    config_vrf_evpn_l3vni(&mut bgp, args(&["blue", "4294967295"]), set);
    assert_eq!(blue(&bgp).l3vni, Some(4294967295));
    config_vrf_evpn_l3vni(&mut bgp, args(&["blue"]), del);
    assert_eq!(blue(&bgp).l3vni, None);

    config_vrf_evpn_router_mac(&mut bgp, args(&["blue", "02:00:5e:00:53:Af"]), set);
    assert_eq!(
        blue(&bgp).router_mac,
        Some([0x02, 0x00, 0x5e, 0x00, 0x53, 0xaf])
    );
    config_vrf_evpn_router_mac(&mut bgp, args(&["blue"]), del);
    assert_eq!(blue(&bgp).router_mac, None);
}

#[test]
fn unreadable_values_fail() {
    let mut bgp = Bgp::new();
    let set = ConfigOp::Assign;
    assert_eq!(config_vrf_rd(&mut bgp, args(&["blue", "x"]), set), None);
    assert_eq!(bgp.vrfs.len(), 1, "the entry is there all the same");
    assert_eq!(config_vrf_rd(&mut bgp, args(&["blue"]), set), None);
    assert_eq!(config_vrf_rd(&mut bgp, args(&[]), set), None);
    assert_eq!(
        config_vrf_router_id(&mut bgp, args(&["blue", "x"]), set),
        None
    );
    assert_eq!(
        config_vrf_label_mode(&mut bgp, args(&["blue", "per-moon"]), set),
        None
    );
    assert_eq!(
        config_vrf_encapsulation(&mut bgp, args(&["blue", "gre"]), set),
        None
    );
    assert_eq!(
        config_vrf_inter_as_hybrid(&mut bgp, args(&["blue", "yes"]), set),
        None
    );
    assert_eq!(
        config_vrf_evpn_l3vni(&mut bgp, args(&["blue", "4294967296"]), set),
        None
    );
    assert_eq!(
        config_vrf_evpn_router_mac(&mut bgp, args(&["blue", "02:00:5e:00:53"]), set),
        None
    );
    assert_eq!(
        config_vrf_neighbor(&mut bgp, args(&["blue", "x"]), set),
        None
    );
    assert_eq!(
        config_vrf_neighbor_remote_as(&mut bgp, args(&["blue", "192.0.2.1", "x"]), set),
        None
    );
    assert_eq!(peer(&bgp).remote_as, None, "the neighbor is there");
}

#[test]
fn other_operations_only_create_the_entry() {
    let mut bgp = Bgp::new();
    assert_eq!(
        config_vrf_rd(
            &mut bgp,
            args(&["blue", "65000:10"]),
            ConfigOp::CommitStart
        ),
        Some(())
    );
    assert_eq!(blue(&bgp).rd, None);
    assert_eq!(
        config_vrf_neighbor_remote_as(
            &mut bgp,
            args(&["blue", "192.0.2.1", "1"]),
            ConfigOp::CommitEnd
        ),
        None
    );
    assert!(blue(&bgp).neighbors.is_empty());
}

#[test]
fn mup_route_directions() {
    assert_eq!(
        mup_route_direction("st1"),
        Some(MupSrv6Direction::Encapsulation)
    );
    assert_eq!(
        mup_route_direction("st2"),
        Some(MupSrv6Direction::Decapsulation)
    );
    assert_eq!(mup_route_direction("st3"), None);
}

#[test]
fn mup_routes_are_staged_by_direction() {
    let mut bgp = Bgp::new();
    let set = ConfigOp::Assign;
    let del = ConfigOp::Delete;
    assert_eq!(
        config_vrf_mup_route(&mut bgp, args(&["blue", "st3"]), set),
        None
    );
    assert!(bgp.vrfs.is_empty(), "the key is read before the entry");

    config_vrf_mup_route(&mut bgp, args(&["blue", "st1"]), set);
    config_vrf_mup_route_network_instance(&mut bgp, args(&["blue", "st2", "internet"]), set);
    config_vrf_mup_route_mup_ext_comm(&mut bgp, args(&["blue", "st2", "65000:10"]), set);
    let routes = &blue(&bgp).mobile_uplane.routes;
    assert_eq!(routes.len(), 2);
    let st2 = routes.get(&MupSrv6Direction::Decapsulation).unwrap();
    assert_eq!(st2.network_instance.as_deref(), Some("internet"));
    assert_eq!(st2.mup_ext_comm, Some(RD));

    config_vrf_mup_route_network_instance(&mut bgp, args(&["blue", "st2"]), del);
    let routes = &blue(&bgp).mobile_uplane.routes;
    let st2 = routes.get(&MupSrv6Direction::Decapsulation).unwrap();
    assert_eq!(st2.network_instance, None);
    assert_eq!(st2.mup_ext_comm, Some(RD));

    config_vrf_mup_route_mup_ext_comm(&mut bgp, args(&["blue", "st2"]), del);
    config_vrf_mup_route(&mut bgp, args(&["blue", "st2"]), del);
    let routes = &blue(&bgp).mobile_uplane.routes;
    assert_eq!(routes.len(), 1);
    assert!(routes.contains_key(&MupSrv6Direction::Encapsulation));

    // A delete in a binding that is gone does not bring it back, and neither
    // does a value that does not read.
    config_vrf_mup_route_network_instance(&mut bgp, args(&["blue", "st2"]), del);
    config_vrf_mup_route_mup_ext_comm(&mut bgp, args(&["blue", "st2"]), del);
    assert_eq!(
        config_vrf_mup_route_mup_ext_comm(&mut bgp, args(&["blue", "st2", "x"]), set),
        None
    );
    assert_eq!(blue(&bgp).mobile_uplane.routes.len(), 1);
}

#[test]
fn mup_segment_and_dataplane() {
    let mut bgp = Bgp::new();
    let set = ConfigOp::Assign;
    let del = ConfigOp::Delete;
    config_vrf_mup_segment(&mut bgp, args(&["blue", "direct"]), set);
    assert_eq!(
        blue(&bgp).mobile_uplane.segment,
        Some(MupSegmentMode::Direct)
    );
    config_vrf_mup_segment(&mut bgp, args(&["blue", "interwork"]), del);
    assert_eq!(
        blue(&bgp).mobile_uplane.segment,
        Some(MupSegmentMode::Direct),
        "a delete of the other mode does nothing"
    );
    config_vrf_mup_segment(&mut bgp, args(&["blue", "direct"]), del);
    assert_eq!(blue(&bgp).mobile_uplane.segment, None);
    assert_eq!(
        config_vrf_mup_segment(&mut bgp, args(&["blue", "x"]), set),
        None
    );

    config_vrf_mup_dataplane(&mut bgp, args(&["blue", "gtp"]), set);
    assert_eq!(blue(&bgp).mobile_uplane.dataplane, MupDataplane::Gtp);
    assert_eq!(
        config_vrf_mup_dataplane(&mut bgp, args(&["blue"]), del),
        None,
        "the value is read for a delete too"
    );
    assert_eq!(blue(&bgp).mobile_uplane.dataplane, MupDataplane::Gtp);
    config_vrf_mup_dataplane(&mut bgp, args(&["blue", "gtp"]), del);
    assert_eq!(blue(&bgp).mobile_uplane.dataplane, MupDataplane::EndDt46);

    config_vrf_mup_ext_comm(&mut bgp, args(&["blue", "direct", "65000:10"]), set);
    assert_eq!(blue(&bgp).mobile_uplane.mup_ext_comm, Some(RD));
    config_vrf_mup_ext_comm(&mut bgp, args(&["blue", "direct"]), del);
    assert_eq!(blue(&bgp).mobile_uplane.mup_ext_comm, None);
}

#[test]
fn mup_segment_prefix_is_of_either_family() {
    let mut bgp = Bgp::new();
    let set = ConfigOp::Assign;
    config_vrf_mup_segment_prefix(
        &mut bgp,
        args(&["blue", "interwork", "198.51.100.7/24"]),
        set,
    );
    assert_eq!(
        blue(&bgp).mobile_uplane.interwork_prefix,
        Some(IpNet::V4(net4(0xc633_6407, 24))),
        "the host bits are kept"
    );
    config_vrf_mup_segment_prefix(
        &mut bgp,
        args(&["blue", "interwork", "2001:db8::1/64"]),
        set,
    );
    assert_eq!(
        blue(&bgp).mobile_uplane.interwork_prefix,
        Some(IpNet::V6(net6(
            0x2001_0db8_0000_0000_0000_0000_0000_0001,
            64
        )))
    );
    assert_eq!(
        config_vrf_mup_segment_prefix(
            &mut bgp,
            args(&["blue", "interwork", "198.51.100.0"]),
            set
        ),
        None
    );
    config_vrf_mup_segment_prefix(&mut bgp, args(&["blue", "interwork"]), ConfigOp::Delete);
    assert_eq!(blue(&bgp).mobile_uplane.interwork_prefix, None);
}

#[test]
fn neighbor_leaves_are_assigned_and_deleted() {
    let mut bgp = Bgp::new();
    let set = ConfigOp::Assign;
    let del = ConfigOp::Delete;
    let at = ["blue", "192.0.2.1"];

    assert_eq!(config_vrf_neighbor(&mut bgp, args(&at), set), Some(()));
    assert_eq!(blue(&bgp).neighbors.len(), 1);

    config_vrf_neighbor_remote_as(&mut bgp, args(&["blue", "192.0.2.1", "65001"]), set);
    config_vrf_neighbor_peer_group(&mut bgp, args(&["blue", "192.0.2.1", "CE"]), set);
    config_vrf_neighbor_description(&mut bgp, args(&["blue", "192.0.2.1", "left"]), set);
    config_vrf_neighbor_connect_retry_time(&mut bgp, args(&["blue", "192.0.2.1", "3"]), set);
    config_vrf_neighbor_hold_time(&mut bgp, args(&["blue", "192.0.2.1", "9"]), set);
    config_vrf_neighbor_idle_hold_time(&mut bgp, args(&["blue", "192.0.2.1", "1"]), set);
    config_vrf_neighbor_afi_safi_enabled(
        &mut bgp,
        args(&["blue", "192.0.2.1", "ipv6", "true"]),
        set,
    );
    assert_eq!(peer(&bgp).remote_as, Some(65001));
    assert_eq!(peer(&bgp).peer_group.as_deref(), Some("CE"));
    assert_eq!(peer(&bgp).description.as_deref(), Some("left"));
    assert_eq!(peer(&bgp).timer.connect_retry_time, Some(3));
    assert_eq!(peer(&bgp).timer.hold_time, Some(9));
    assert_eq!(peer(&bgp).timer.idle_hold_time, Some(1));
    assert_eq!(peer(&bgp).mp_explicit.get(&ipv6()), Some(&true));
    assert_eq!(peer(&bgp).mp_explicit.get(&ipv4()), None);

    assert_eq!(
        config_vrf_neighbor_hold_time(&mut bgp, args(&["blue", "192.0.2.1", "65536"]), set),
        None
    );
    assert_eq!(peer(&bgp).timer.hold_time, Some(9));
    config_vrf_neighbor_hold_time(&mut bgp, args(&at), del);
    assert_eq!(peer(&bgp).timer.hold_time, None);
    assert_eq!(peer(&bgp).timer.connect_retry_time, Some(3));
    assert_eq!(peer(&bgp).timer.idle_hold_time, Some(1));

    config_vrf_neighbor_remote_as(&mut bgp, args(&at), del);
    config_vrf_neighbor_peer_group(&mut bgp, args(&at), del);
    config_vrf_neighbor_description(&mut bgp, args(&at), del);
    config_vrf_neighbor_connect_retry_time(&mut bgp, args(&at), del);
    config_vrf_neighbor_idle_hold_time(&mut bgp, args(&at), del);
    config_vrf_neighbor_afi_safi_enabled(&mut bgp, args(&["blue", "192.0.2.1", "ipv6"]), del);
    assert_eq!(*peer(&bgp), BgpVrfNeighborConfig::default());

    config_vrf_neighbor(&mut bgp, args(&at), del);
    assert!(blue(&bgp).neighbors.is_empty());
    assert_eq!(
        config_vrf_neighbor_remote_as(&mut bgp, args(&at), del),
        None
    );
    assert_eq!(
        config_vrf_neighbor_afi_safi_enabled(&mut bgp, args(&["blue", "192.0.2.1", "ipv6"]), del),
        None
    );
    assert!(blue(&bgp).neighbors.is_empty());
}

#[test]
fn networks_are_staged_and_told() {
    let mut bgp = running();
    assert_eq!(
        config_vrf_afi_ipv4_network(
            &mut bgp,
            args(&["blue", "10.10.0.0/16"]),
            ConfigOp::Assign
        ),
        Some(())
    );
    assert_eq!(
        config_vrf_afi_ipv6_network(
            &mut bgp,
            args(&["blue", "2001:db8::/64"]),
            ConfigOp::Assign
        ),
        Some(())
    );
    let p4 = net4(0x0a0a_0000, 16);
    let p6 = net6(0x2001_0db8 << 96, 64);
    assert!(blue(&bgp).ipv4_unicast.as_ref().unwrap().networks.contains(&p4));
    assert!(blue(&bgp).ipv6_unicast.as_ref().unwrap().networks.contains(&p6));
    config_vrf_afi_ipv4_network(&mut bgp, args(&["blue", "10.10.0.0/16"]), ConfigOp::Delete);
    config_vrf_afi_ipv6_network(
        &mut bgp,
        args(&["blue", "2001:db8::/64"]),
        ConfigOp::Delete,
    );
    assert!(blue(&bgp).ipv4_unicast.as_ref().unwrap().networks.is_empty());
    assert!(blue(&bgp).ipv6_unicast.as_ref().unwrap().networks.is_empty());
    assert_eq!(
        bgp.outbox,
        vec![
            told(BgpVrfMsg::OriginateNetwork { prefix: p4 }),
            told(BgpVrfMsg::OriginateNetworkV6 { prefix: p6 }),
            told(BgpVrfMsg::WithdrawNetwork { prefix: p4 }),
            told(BgpVrfMsg::WithdrawNetworkV6 { prefix: p6 }),
        ]
    );
}

#[test]
fn network_edge_cases() {
    let mut bgp = running();
    assert_eq!(
        config_vrf_afi_ipv4_network(
            &mut bgp,
            args(&["blue", "10.10.0.0/33"]),
            ConfigOp::Assign
        ),
        None
    );
    assert_eq!(
        config_vrf_afi_ipv6_network(
            &mut bgp,
            args(&["blue", "10.10.0.0/16"]),
            ConfigOp::Assign
        ),
        None
    );
    assert_eq!(
        config_vrf_afi_ipv4_network(
            &mut bgp,
            args(&["blue", "10.10.0.0/16"]),
            ConfigOp::Delete
        ),
        None
    );
    assert_eq!(
        config_vrf_afi_ipv4_network(
            &mut bgp,
            args(&["blue", "10.10.0.0/16"]),
            ConfigOp::CommitEnd
        ),
        Some(())
    );
    assert!(bgp.vrfs.is_empty() && bgp.outbox.is_empty());

    // A delete in a VRF that is there makes the family, and is passed on.
    config_vrf(&mut bgp, args(&["blue"]), ConfigOp::Assign);
    config_vrf_afi_ipv4_network(&mut bgp, args(&["blue", "10.10.0.0/16"]), ConfigOp::Delete);
    assert!(blue(&bgp).ipv4_unicast.is_some());
    assert_eq!(bgp.outbox.len(), 1);
}

#[test]
fn family_is_added_and_removed() {
    let mut bgp = running();
    assert_eq!(
        config_vrf_afi_ipv4(&mut bgp, args(&["blue"]), ConfigOp::CommitStart),
        Some(())
    );
    assert!(bgp.vrfs.is_empty());
    config_vrf_afi_ipv4(&mut bgp, args(&["blue"]), ConfigOp::Assign);
    config_vrf_afi_ipv6(&mut bgp, args(&["blue"]), ConfigOp::Assign);
    assert!(blue(&bgp).ipv4_unicast.is_some() && blue(&bgp).ipv6_unicast.is_some());

    for prefix in ["10.2.0.0/16", "10.1.0.0/16"] {
        config_vrf_afi_ipv4_network(&mut bgp, args(&["blue", prefix]), ConfigOp::Assign);
    }
    for prefix in ["2001:db8:2::/48", "2001:db8:1::/48"] {
        config_vrf_afi_ipv6_network(&mut bgp, args(&["blue", prefix]), ConfigOp::Assign);
    }
    config_vrf_afi_ipv4(&mut bgp, args(&["blue"]), ConfigOp::Assign);
    assert_eq!(
        blue(&bgp).ipv4_unicast.as_ref().unwrap().networks.len(),
        2,
        "a second add keeps the family"
    );
    bgp.outbox.clear();

    assert_eq!(
        config_vrf_afi_ipv4(&mut bgp, args(&["blue"]), ConfigOp::Delete),
        Some(())
    );
    assert_eq!(
        config_vrf_afi_ipv6(&mut bgp, args(&["blue"]), ConfigOp::Delete),
        Some(())
    );
    assert!(blue(&bgp).ipv4_unicast.is_none() && blue(&bgp).ipv6_unicast.is_none());
    assert_eq!(
        bgp.outbox,
        vec![
            told(BgpVrfMsg::WithdrawNetwork {
                prefix: net4(0x0a01_0000, 16)
            }),
            told(BgpVrfMsg::WithdrawNetwork {
                prefix: net4(0x0a02_0000, 16)
            }),
            told(BgpVrfMsg::WithdrawNetworkV6 {
                prefix: net6(0x2001_0db8_0001 << 80, 48)
            }),
            told(BgpVrfMsg::WithdrawNetworkV6 {
                prefix: net6(0x2001_0db8_0002 << 80, 48)
            }),
        ]
    );
}

#[test]
fn redistribution_is_staged_and_told() {
    let mut bgp = running();
    let set = ConfigOp::Assign;
    let del = ConfigOp::Delete;
    let at = ["blue"];
    config_vrf_afi_ipv4_redistribute_isis(&mut bgp, args(&at), set);
    config_vrf_afi_ipv4_redistribute_ospf(&mut bgp, args(&at), set);
    config_vrf_afi_ipv4_redistribute_static(&mut bgp, args(&at), set);
    config_vrf_afi_ipv4_redistribute_connected(&mut bgp, args(&at), set);
    config_vrf_afi_ipv4_redistribute_static(&mut bgp, args(&at), del);
    config_vrf_afi_ipv6_redistribute_connected(&mut bgp, args(&at), set);
    config_vrf_afi_ipv6_redistribute_static(&mut bgp, args(&at), set);
    config_vrf_afi_ipv6_redistribute_ospf(&mut bgp, args(&at), set);
    config_vrf_afi_ipv6_redistribute_isis(&mut bgp, args(&at), set);
    assert_eq!(bgp.outbox.len(), 9);
    assert_eq!(
        bgp.outbox[4],
        told(BgpVrfMsg::RedistDisable {
            afi: RedistAfi::Ipv4,
            source: BgpRedistSource::Static
        })
    );
    assert_eq!(
        bgp.outbox[8],
        told(BgpVrfMsg::RedistEnable {
            afi: RedistAfi::Ipv6,
            source: BgpRedistSource::Isis
        })
    );
    assert_eq!(
        blue(&bgp).ipv4_unicast.as_ref().unwrap().redistribute.members(),
        vec![
            BgpRedistSource::Connected,
            BgpRedistSource::Ospf,
            BgpRedistSource::Isis
        ]
    );
    bgp.outbox.clear();

    config_vrf_afi_ipv4_redistribute(&mut bgp, args(&at), set);
    assert!(bgp.outbox.is_empty(), "only a delete has an effect");
    config_vrf_afi_ipv4_redistribute(&mut bgp, args(&at), del);
    assert_eq!(
        bgp.outbox,
        vec![
            told(BgpVrfMsg::RedistDisable {
                afi: RedistAfi::Ipv4,
                source: BgpRedistSource::Connected
            }),
            told(BgpVrfMsg::RedistDisable {
                afi: RedistAfi::Ipv4,
                source: BgpRedistSource::Ospf
            }),
            told(BgpVrfMsg::RedistDisable {
                afi: RedistAfi::Ipv4,
                source: BgpRedistSource::Isis
            }),
        ]
    );
    assert!(blue(&bgp).ipv4_unicast.as_ref().unwrap().redistribute.is_empty());
    bgp.outbox.clear();
    config_vrf_afi_ipv6_redistribute(&mut bgp, args(&at), del);
    assert_eq!(bgp.outbox.len(), 4);
    assert!(blue(&bgp).ipv6_unicast.as_ref().unwrap().redistribute.is_empty());
}

#[test]
fn redistribution_of_a_missing_vrf() {
    let mut bgp = running();
    assert_eq!(
        vrf_redist_set(
            &mut bgp,
            "blue".to_string(),
            RedistAfi::Ipv4,
            BgpRedistSource::Ospf,
            ConfigOp::Delete
        ),
        Some(())
    );
    assert_eq!(
        vrf_redist_set(
            &mut bgp,
            "blue".to_string(),
            RedistAfi::Ipv4,
            BgpRedistSource::Ospf,
            ConfigOp::CommitEnd
        ),
        Some(())
    );
    vrf_redist_clear(&mut bgp, "blue".to_string(), RedistAfi::Ipv6);
    assert!(bgp.vrfs.is_empty() && bgp.outbox.is_empty());

    config_vrf(&mut bgp, args(&["blue"]), ConfigOp::Assign);
    vrf_redist_clear(&mut bgp, "blue".to_string(), RedistAfi::Ipv6);
    assert!(blue(&bgp).ipv6_unicast.is_none(), "no family is made");
}

#[test]
fn prefix_set_bindings_are_published_at_commit() {
    let mut bgp = running();
    bgp.vrf_registry
        .insert("red".to_string(), VrfHandle { inbox: 8 });
    let set = ConfigOp::Assign;
    assert_eq!(
        config_vrf_neighbor_afi_safi_prefix_set_in(
            &mut bgp,
            args(&["blue", "192.0.2.1", "ipv4", "PEER-IN-V4"]),
            set
        ),
        Some(())
    );
    assert_eq!(
        config_vrf_neighbor_afi_safi_prefix_set_out(
            &mut bgp,
            args(&["blue", "192.0.2.1", "ipv6", "PEER-OUT-V6"]),
            set
        ),
        Some(())
    );
    config_vrf_neighbor_afi_safi_prefix_set_in(
        &mut bgp,
        args(&["idle", "192.0.2.1", "ipv4", "PEER-IN-V4"]),
        set,
    );
    assert!(bgp.outbox.is_empty());
    assert_eq!(bgp.vrf_prefix_set_pending.len(), 3);
    apply_prefix_set_commit_changes(&mut bgp, 5);
    assert_eq!(
        bgp.outbox,
        vec![
            told(BgpVrfMsg::PrefixSetConfig {
                address: PEER,
                afi_safi: ipv4(),
                direction: InOut::Input,
                name: Some("PEER-IN-V4".to_string()),
                generation: 5
            }),
            told(BgpVrfMsg::PrefixSetConfig {
                address: PEER,
                afi_safi: ipv6(),
                direction: InOut::Output,
                name: Some("PEER-OUT-V6".to_string()),
                generation: 5
            }),
            told(BgpVrfMsg::PrefixSetCommitEnd { generation: 5 }),
            VrfDelivery {
                inbox: 8,
                msg: BgpVrfMsg::PrefixSetCommitEnd { generation: 5 }
            },
        ]
    );
    assert!(bgp.vrf_prefix_set_pending.is_empty());
}

#[test]
fn prefix_set_binding_edge_cases() {
    let mut bgp = running();
    assert_eq!(
        config_vrf_neighbor_afi_safi_prefix_set_in(
            &mut bgp,
            args(&["blue", "192.0.2.1", "vpnv4", "X"]),
            ConfigOp::Assign
        ),
        None
    );
    assert_eq!(
        config_vrf_neighbor_afi_safi_prefix_set_in(
            &mut bgp,
            args(&["blue", "192.0.2.1", "ipv4"]),
            ConfigOp::Assign
        ),
        None
    );
    assert_eq!(
        config_vrf_neighbor_afi_safi_prefix_set_in(
            &mut bgp,
            args(&["blue", "192.0.2.1", "ipv4"]),
            ConfigOp::CommitEnd
        ),
        Some(())
    );
    assert_eq!(
        config_vrf_neighbor_afi_safi_prefix_set_in(
            &mut bgp,
            args(&["blue", "192.0.2.1", "ipv4"]),
            ConfigOp::Delete
        ),
        None
    );
    assert!(bgp.vrfs.is_empty() && bgp.vrf_prefix_set_pending.is_empty());

    config_vrf(&mut bgp, args(&["blue"]), ConfigOp::Assign);
    assert_eq!(
        config_vrf_neighbor_afi_safi_prefix_set_in(
            &mut bgp,
            args(&["blue", "192.0.2.1", "ipv4"]),
            ConfigOp::Delete
        ),
        Some(())
    );
    assert!(blue(&bgp).neighbors.is_empty());
}

#[test]
fn intents_are_listed_by_name() {
    let mut bgp = Bgp::new();
    assert!(log_commit_diff(&bgp).is_empty());
    config_vrf(&mut bgp, args(&["red"]), ConfigOp::Assign);
    config_vrf_neighbor(&mut bgp, args(&["blue", "192.0.2.1"]), ConfigOp::Assign);
    config_vrf_rd(&mut bgp, args(&["blue", "65000:10"]), ConfigOp::Assign);
    config_vrf_afi_ipv6(&mut bgp, args(&["blue"]), ConfigOp::Assign);
    config_vrf_evpn_advertise_ipv4(&mut bgp, args(&["blue", "true"]), ConfigOp::Assign);
    let lines = log_commit_diff(&bgp);
    assert_eq!(lines.len(), 2);
    assert_eq!(lines[0].vrf, "blue");
    assert_eq!(lines[0].rd, Some(RD));
    assert_eq!(lines[0].router_id, None);
    assert_eq!(lines[0].label_mode, BgpVrfLabelMode::Vrf);
    assert_eq!(lines[0].neighbors, 1);
    assert!(!lines[0].ipv4_unicast && lines[0].ipv6_unicast);
    assert!(lines[0].evpn_advertise_v4 && !lines[0].evpn_advertise_v6);
    assert_eq!(lines[1].vrf, "red");
    assert_eq!(lines[1].neighbors, 0);
}
