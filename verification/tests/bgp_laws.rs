//! What holds of the VRF configuration as a whole, on chosen values.

use vrf_policy::args::{Arg, Args, ConfigOp};
use vrf_policy::bgp::networks::{
    config_vrf_afi_ipv4, config_vrf_afi_ipv4_network, config_vrf_afi_ipv4_redistribute,
    config_vrf_afi_ipv4_redistribute_ospf, config_vrf_afi_ipv6, config_vrf_afi_ipv6_network,
};
use vrf_policy::bgp::prefix_set::{
    apply_prefix_set_commit_changes, config_vrf_neighbor_afi_safi_prefix_set_in,
    config_vrf_neighbor_afi_safi_prefix_set_out,
};
use vrf_policy::bgp::state::{Bgp, BgpVrfMsg, VrfHandle};
use vrf_policy::bgp::structure::{runtime_structure_eq, GroupAfiSafi, NeighborGroup};
use vrf_policy::bgp::types::{BgpVrfConfig, BgpVrfNeighborConfig, InOut, MupSegmentMode};
use vrf_policy::bgp::vrf_config::{
    config_vrf, config_vrf_evpn_l3vni, config_vrf_mup_dataplane, config_vrf_mup_route,
    config_vrf_mup_route_network_instance, config_vrf_mup_segment, config_vrf_neighbor,
    config_vrf_neighbor_afi_safi_enabled, config_vrf_neighbor_connect_retry_time,
    config_vrf_neighbor_description, config_vrf_neighbor_hold_time,
    config_vrf_neighbor_peer_group, config_vrf_neighbor_remote_as,
};
use vrf_policy::net::{Afi, AfiSafi, IpAddr, Ipv4Addr, Ipv6Addr, Safi};
use vrf_policy::sorted_map::SortedMap;
use vrf_policy::value::Value;

const PEER: IpAddr = IpAddr::V4(Ipv4Addr { bits: 0xc000_0201 });

const OTHER: IpAddr = IpAddr::V6(Ipv6Addr { bits: 1 });

fn args(items: &[&str]) -> Args {
    Args::new(
        items
            .iter()
            .map(|item| Arg {
                text: item.to_string(),
                addr: match *item {
                    "192.0.2.1" => Some(PEER),
                    "::1" => Some(OTHER),
                    _ => None,
                },
                rd: None,
            })
            .collect(),
    )
}

fn running() -> Bgp {
    let mut bgp = Bgp::new();
    bgp.vrf_registry
        .insert("blue".to_string(), VrfHandle { inbox: 7 });
    bgp
}

fn blue(bgp: &Bgp) -> &BgpVrfConfig {
    bgp.vrfs.get(&"blue".to_string()).unwrap()
}

fn no_groups() -> SortedMap<String, NeighborGroup> {
    SortedMap::new()
}

fn ipv4() -> AfiSafi {
    AfiSafi::new(Afi::Ip, Safi::Unicast)
}

fn ipv6() -> AfiSafi {
    AfiSafi::new(Afi::Ip6, Safi::Unicast)
}

/// The names that were published, in order.
fn published(bgp: &Bgp) -> Vec<(InOut, Option<String>, u64)> {
    bgp.outbox
        .iter()
        .filter_map(|d| match &d.msg {
            BgpVrfMsg::PrefixSetConfig {
                direction,
                name,
                generation,
                ..
            } => Some((*direction, name.clone(), *generation)),
            _ => None,
        })
        .collect()
}

#[test]
fn deleting_a_vrf_is_final() {
    let mut bgp = running();
    let set = ConfigOp::Assign;
    let del = ConfigOp::Delete;
    config_vrf_neighbor_remote_as(&mut bgp, args(&["blue", "192.0.2.1", "1"]), set);
    config_vrf_afi_ipv4(&mut bgp, args(&["blue"]), set);
    config_vrf(&mut bgp, args(&["blue"]), del);
    assert_eq!(config_vrf_evpn_l3vni(&mut bgp, args(&["blue"]), del), None);
    assert_eq!(
        config_vrf_neighbor(&mut bgp, args(&["blue", "192.0.2.1"]), del),
        None
    );
    assert_eq!(
        config_vrf_neighbor_remote_as(&mut bgp, args(&["blue", "192.0.2.1"]), del),
        None
    );
    assert_eq!(
        config_vrf_neighbor_afi_safi_prefix_set_in(
            &mut bgp,
            args(&["blue", "192.0.2.1", "ipv4"]),
            del
        ),
        None
    );
    config_vrf_afi_ipv4(&mut bgp, args(&["blue"]), del);
    config_vrf_afi_ipv6(&mut bgp, args(&["blue"]), del);
    config_vrf_afi_ipv4_network(&mut bgp, args(&["blue", "10.0.0.0/8"]), del);
    config_vrf_afi_ipv6_network(&mut bgp, args(&["blue", "2001:db8::/32"]), del);
    config_vrf_afi_ipv4_redistribute(&mut bgp, args(&["blue"]), del);
    config_vrf_afi_ipv4_redistribute_ospf(&mut bgp, args(&["blue"]), del);
    assert!(bgp.vrfs.is_empty());
    assert!(bgp.outbox.is_empty());
}

#[test]
fn deleting_a_neighbor_is_final() {
    let mut bgp = running();
    let set = ConfigOp::Assign;
    let del = ConfigOp::Delete;
    config_vrf_neighbor_remote_as(&mut bgp, args(&["blue", "192.0.2.1", "1"]), set);
    config_vrf_neighbor_description(&mut bgp, args(&["blue", "::1", "stays"]), set);
    config_vrf_neighbor(&mut bgp, args(&["blue", "192.0.2.1"]), del);
    assert_eq!(
        config_vrf_neighbor_hold_time(&mut bgp, args(&["blue", "192.0.2.1"]), del),
        None
    );
    config_vrf_neighbor_afi_safi_prefix_set_out(
        &mut bgp,
        args(&["blue", "192.0.2.1", "ipv4"]),
        del,
    );
    assert_eq!(blue(&bgp).neighbors.len(), 1);
    assert_eq!(
        blue(&bgp).neighbors.get(&OTHER).unwrap().description.as_deref(),
        Some("stays")
    );
    assert!(bgp.vrf_prefix_set_pending.is_empty());
}

#[test]
fn a_leaf_may_come_before_its_entry() {
    let set = ConfigOp::Assign;
    let mut first = Bgp::new();
    config_vrf(&mut first, args(&["blue"]), set);
    config_vrf_neighbor(&mut first, args(&["blue", "192.0.2.1"]), set);
    config_vrf_evpn_l3vni(&mut first, args(&["blue", "7"]), set);
    config_vrf_neighbor_remote_as(&mut first, args(&["blue", "192.0.2.1", "1"]), set);
    let mut last = Bgp::new();
    config_vrf_neighbor_remote_as(&mut last, args(&["blue", "192.0.2.1", "1"]), set);
    config_vrf_evpn_l3vni(&mut last, args(&["blue", "7"]), set);
    config_vrf_neighbor(&mut last, args(&["blue", "192.0.2.1"]), set);
    config_vrf(&mut last, args(&["blue"]), set);
    assert_eq!(blue(&first).l3vni, blue(&last).l3vni);
    assert!(blue(&first).neighbors.same(&blue(&last).neighbors));
}

#[test]
fn a_delete_takes_back_an_assignment() {
    let set = ConfigOp::Assign;
    let mut bgp = Bgp::new();
    config_vrf_neighbor(&mut bgp, args(&["blue", "192.0.2.1"]), set);
    config_vrf_neighbor_hold_time(&mut bgp, args(&["blue", "192.0.2.1", "9"]), set);
    config_vrf_neighbor_hold_time(&mut bgp, args(&["blue", "192.0.2.1", "8"]), set);
    let nbr = blue(&bgp).neighbors.get(&PEER).unwrap();
    assert_eq!(nbr.timer.hold_time, Some(8));
    config_vrf_neighbor_connect_retry_time(&mut bgp, args(&["blue", "192.0.2.1", "3"]), set);
    config_vrf_neighbor_hold_time(&mut bgp, args(&["blue", "192.0.2.1"]), ConfigOp::Delete);
    let nbr = blue(&bgp).neighbors.get(&PEER).unwrap();
    assert_eq!(nbr.timer.hold_time, None);
    assert_eq!(nbr.timer.connect_retry_time, Some(3));
}

#[test]
fn an_unreadable_value_leaves_the_leaf_alone() {
    let set = ConfigOp::Assign;
    let mut bgp = Bgp::new();
    config_vrf_evpn_l3vni(&mut bgp, args(&["blue", "7"]), set);
    assert_eq!(
        config_vrf_evpn_l3vni(&mut bgp, args(&["blue", "seven"]), set),
        None
    );
    assert_eq!(blue(&bgp).l3vni, Some(7));
    config_vrf_neighbor_remote_as(&mut bgp, args(&["blue", "192.0.2.1", "1"]), set);
    assert_eq!(
        config_vrf_neighbor_remote_as(&mut bgp, args(&["blue", "192.0.2.1", "one"]), set),
        None
    );
    assert_eq!(
        blue(&bgp).neighbors.get(&PEER).unwrap().remote_as,
        Some(1)
    );
}

#[test]
fn a_repeated_binding_is_void() {
    let mut bgp = running();
    let at = ["blue", "192.0.2.1", "ipv4", "SET"];
    config_vrf_neighbor_afi_safi_prefix_set_in(&mut bgp, args(&at), ConfigOp::Assign);
    apply_prefix_set_commit_changes(&mut bgp, 1);
    bgp.outbox.clear();
    config_vrf_neighbor_afi_safi_prefix_set_in(&mut bgp, args(&at), ConfigOp::Assign);
    assert!(bgp.vrf_prefix_set_pending.is_empty());
    apply_prefix_set_commit_changes(&mut bgp, 2);
    assert!(published(&bgp).is_empty());
    assert_eq!(bgp.outbox.len(), 1, "the commit is closed all the same");
}

#[test]
fn a_transaction_publishes_its_difference() {
    let mut bgp = running();
    let set = ConfigOp::Assign;
    let del = ConfigOp::Delete;
    let input = ["blue", "192.0.2.1", "ipv4"];
    let old = ["blue", "192.0.2.1", "ipv4", "OLD"];
    let new = ["blue", "192.0.2.1", "ipv4", "NEW"];
    config_vrf_neighbor_afi_safi_prefix_set_in(&mut bgp, args(&old), set);
    config_vrf_neighbor_afi_safi_prefix_set_out(&mut bgp, args(&old), set);
    apply_prefix_set_commit_changes(&mut bgp, 1);
    assert_eq!(
        published(&bgp),
        vec![
            (InOut::Input, Some("OLD".to_string()), 1),
            (InOut::Output, Some("OLD".to_string()), 1)
        ]
    );
    bgp.outbox.clear();

    // One binding is replaced, and the other one taken away and restored. What
    // else is staged in between does not matter.
    config_vrf_neighbor_afi_safi_prefix_set_in(&mut bgp, args(&input), del);
    config_vrf_neighbor_afi_safi_prefix_set_out(&mut bgp, args(&input), del);
    config_vrf_evpn_l3vni(&mut bgp, args(&["blue", "7"]), set);
    config_vrf_neighbor_description(&mut bgp, args(&["blue", "192.0.2.1", "x"]), set);
    config_vrf_afi_ipv4(&mut bgp, args(&["blue"]), set);
    config_vrf_neighbor_afi_safi_prefix_set_in(&mut bgp, args(&new), set);
    config_vrf_neighbor_afi_safi_prefix_set_out(&mut bgp, args(&old), set);
    assert_eq!(bgp.vrf_prefix_set_pending.len(), 2);
    assert_eq!(
        bgp.vrf_prefix_set_pending[0].before.as_deref(),
        Some("OLD")
    );
    apply_prefix_set_commit_changes(&mut bgp, 2);
    assert_eq!(
        published(&bgp),
        vec![(InOut::Input, Some("NEW".to_string()), 2)]
    );
    bgp.outbox.clear();

    config_vrf_neighbor_afi_safi_prefix_set_in(&mut bgp, args(&input), del);
    apply_prefix_set_commit_changes(&mut bgp, 3);
    assert_eq!(published(&bgp), vec![(InOut::Input, None, 3)]);
    apply_prefix_set_commit_changes(&mut bgp, 4);
    assert_eq!(published(&bgp).len(), 1, "nothing is published twice");
}

#[test]
fn a_commit_closes_every_vrf() {
    let mut bgp = running();
    bgp.vrf_registry
        .insert("amber".to_string(), VrfHandle { inbox: 9 });
    apply_prefix_set_commit_changes(&mut bgp, 3);
    let inboxes: Vec<u64> = bgp.outbox.iter().map(|d| d.inbox).collect();
    assert_eq!(inboxes, vec![9, 7], "in the order of names");
    assert!(bgp
        .outbox
        .iter()
        .all(|d| d.msg == BgpVrfMsg::PrefixSetCommitEnd { generation: 3 }));
}

#[test]
fn an_idle_vrf_is_told_nothing() {
    let mut bgp = Bgp::new();
    config_vrf_afi_ipv4_network(&mut bgp, args(&["blue", "10.0.0.0/8"]), ConfigOp::Assign);
    config_vrf_afi_ipv4_redistribute_ospf(&mut bgp, args(&["blue"]), ConfigOp::Assign);
    config_vrf_afi_ipv4(&mut bgp, args(&["blue"]), ConfigOp::Delete);
    assert!(bgp.outbox.is_empty());
}

#[test]
fn mup_directions_and_segments_stand_alone() {
    let mut bgp = Bgp::new();
    let set = ConfigOp::Assign;
    config_vrf_mup_route_network_instance(&mut bgp, args(&["blue", "st1", "a"]), set);
    config_vrf_mup_route_network_instance(&mut bgp, args(&["blue", "st2", "b"]), set);
    config_vrf_mup_route(&mut bgp, args(&["blue", "st1"]), ConfigOp::Delete);
    assert_eq!(blue(&bgp).mobile_uplane.routes.len(), 1);
    config_vrf_mup_segment(&mut bgp, args(&["blue", "interwork"]), set);
    config_vrf_mup_segment(&mut bgp, args(&["blue", "direct"]), ConfigOp::Delete);
    assert_eq!(
        blue(&bgp).mobile_uplane.segment,
        Some(MupSegmentMode::Interwork)
    );
}

#[test]
fn structure_ignores_what_a_running_vrf_is_told() {
    let set = ConfigOp::Assign;
    let mut bgp = Bgp::new();
    config_vrf_neighbor_remote_as(&mut bgp, args(&["blue", "192.0.2.1", "1"]), set);
    let before = blue(&bgp).clone();
    config_vrf_neighbor_afi_safi_prefix_set_in(
        &mut bgp,
        args(&["blue", "192.0.2.1", "ipv4", "SET"]),
        set,
    );
    config_vrf_afi_ipv4_network(&mut bgp, args(&["blue", "10.0.0.0/8"]), set);
    config_vrf_afi_ipv4_redistribute_ospf(&mut bgp, args(&["blue"]), set);
    config_vrf_mup_route_network_instance(&mut bgp, args(&["blue", "st1", "a"]), set);
    config_vrf_mup_segment(&mut bgp, args(&["blue", "direct"]), set);
    let groups = no_groups();
    assert!(runtime_structure_eq(&before, &groups, blue(&bgp), &groups));
    config_vrf_mup_dataplane(&mut bgp, args(&["blue", "gtp"]), set);
    assert!(!runtime_structure_eq(&before, &groups, blue(&bgp), &groups));
}

#[test]
fn structure_goes_by_what_is_negotiated() {
    let groups = no_groups();
    let mut plain = BgpVrfConfig::default();
    plain.neighbors.insert(PEER, BgpVrfNeighborConfig::default());
    let mut spelled = plain.clone();
    spelled
        .neighbors
        .get_mut(&PEER)
        .unwrap()
        .mp_explicit
        .insert(ipv4(), true);
    assert!(runtime_structure_eq(&plain, &groups, &spelled, &groups));
    spelled
        .neighbors
        .get_mut(&PEER)
        .unwrap()
        .mp_explicit
        .insert(ipv6(), false);
    assert!(runtime_structure_eq(&plain, &groups, &spelled, &groups));
    spelled
        .neighbors
        .get_mut(&PEER)
        .unwrap()
        .mp_explicit
        .insert(ipv6(), true);
    assert!(!runtime_structure_eq(&plain, &groups, &spelled, &groups));

    // An IPv6 neighbor has the IPv6 family of itself.
    let mut six = BgpVrfConfig::default();
    six.neighbors.insert(OTHER, BgpVrfNeighborConfig::default());
    let mut spelled = six.clone();
    spelled
        .neighbors
        .get_mut(&OTHER)
        .unwrap()
        .mp_explicit
        .insert(ipv6(), true);
    assert!(runtime_structure_eq(&six, &groups, &spelled, &groups));
    assert!(!runtime_structure_eq(&plain, &groups, &six, &groups));
}

#[test]
fn structure_resolves_peer_groups() {
    let mut with_group = no_groups();
    let mut families = SortedMap::new();
    families.insert(ipv6(), GroupAfiSafi { enabled: true });
    families.insert(ipv4(), GroupAfiSafi { enabled: false });
    with_group.insert(
        "CE".to_string(),
        NeighborGroup {
            remote_as: Some(65001),
            afi_safi: families,
        },
    );
    let set = ConfigOp::Assign;
    let mut bgp = Bgp::new();
    config_vrf_neighbor_peer_group(&mut bgp, args(&["blue", "192.0.2.1", "CE"]), set);
    let member = blue(&bgp).clone();
    assert!(!runtime_structure_eq(
        &member,
        &no_groups(),
        &member,
        &with_group
    ));

    // What the group says may be said by the neighbor itself.
    config_vrf_neighbor_remote_as(&mut bgp, args(&["blue", "192.0.2.1", "65001"]), set);
    config_vrf_neighbor_afi_safi_enabled(
        &mut bgp,
        args(&["blue", "192.0.2.1", "ipv6", "true"]),
        set,
    );
    config_vrf_neighbor_afi_safi_enabled(
        &mut bgp,
        args(&["blue", "192.0.2.1", "ipv4", "false"]),
        set,
    );
    assert!(runtime_structure_eq(
        blue(&bgp),
        &no_groups(),
        &member,
        &with_group
    ));

    // The neighbor's own statement outweighs the group's.
    config_vrf_neighbor_afi_safi_enabled(
        &mut bgp,
        args(&["blue", "192.0.2.1", "ipv4", "true"]),
        set,
    );
    assert!(!runtime_structure_eq(
        blue(&bgp),
        &with_group,
        &member,
        &with_group
    ));
}
