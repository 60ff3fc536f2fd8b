//! The candidate configuration of a VRF.

use vrf_policy::args::{Arg, Args, ConfigOp};
use vrf_policy::bgp::prefix_set::{
    record_pending_prefix_set_change, take_prefix_set_commit_changes, update_neighbor_prefix_set,
};
use vrf_policy::bgp::staging::neighbor_entry;
use vrf_policy::bgp::state::PendingVrfPrefixSetChange;
use vrf_policy::bgp::structure::{runtime_structure_eq, NeighborGroup};
use vrf_policy::bgp::types::{
    BgpVrfAfConfig, BgpVrfConfig, BgpVrfEncapsulation, BgpVrfLabelMode, BgpVrfNeighborConfig,
    BgpVrfPrefixSetConfig, InOut, MupRouteBinding, MupSrv6Direction,
};
use vrf_policy::net::{
    Afi, AfiSafi, IpAddr, Ipv4Addr, Ipv4Net, Ipv6Net, RouteDistinguisher, Safi,
};
use vrf_policy::sorted_map::SortedMap;

fn v4(a: u8, b: u8, c: u8, d: u8) -> IpAddr {
    IpAddr::V4(Ipv4Addr {
        bits: u32::from_be_bytes([a, b, c, d]),
    })
}

fn text(value: &str) -> Arg {
    Arg {
        text: value.to_string(),
        addr: None,
        rd: None,
    }
}

fn v4net(value: &str) -> Ipv4Net {
    Args::new(vec![text(value)]).v4net().unwrap()
}

fn v6net(value: &str) -> Ipv6Net {
    Args::new(vec![text(value)]).v6net().unwrap()
}

/// A distinguisher of a two-octet number and a four-octet number.
fn rd(high: u16, low: u32) -> RouteDistinguisher {
    let h = high.to_be_bytes();
    let l = low.to_be_bytes();
    RouteDistinguisher {
        typ: 0,
        val: [h[0], h[1], l[0], l[1], l[2], l[3]],
    }
}

fn neighbor_or_default(cfg: &mut BgpVrfConfig, addr: IpAddr) -> &mut BgpVrfNeighborConfig {
    cfg.neighbors
        .get_or_insert(addr, BgpVrfNeighborConfig::default())
}

fn prefix_set_or_default(
    nbr: &mut BgpVrfNeighborConfig,
    afi_safi: AfiSafi,
) -> &mut BgpVrfPrefixSetConfig {
    nbr.prefix_set
        .get_or_insert(afi_safi, BgpVrfPrefixSetConfig::default())
}

fn stage_prefix_set(
    vrfs: &mut SortedMap<String, BgpVrfConfig>,
    pending: &mut Vec<PendingVrfPrefixSetChange>,
    address: IpAddr,
    name: Option<&str>,
    op: ConfigOp,
) {
    let cfg = vrfs.get_mut(&"blue".to_string()).unwrap();
    if let Some(before) = update_neighbor_prefix_set(
        cfg,
        address,
        AfiSafi::new(Afi::Ip, Safi::Unicast),
        InOut::Output,
        name.map(str::to_string),
        op,
    ) {
        record_pending_prefix_set_change(
            pending,
            PendingVrfPrefixSetChange {
                vrf: "blue".to_string(),
                address,
                afi_safi: AfiSafi::new(Afi::Ip, Safi::Unicast),
                direction: InOut::Output,
                before,
            },
        );
    }
}

#[test]
fn label_mode_parse_accepts_yang_enums() {
    assert_eq!(
        BgpVrfLabelMode::parse("per-vrf"),
        Some(BgpVrfLabelMode::Vrf)
    );
    assert_eq!(
        BgpVrfLabelMode::parse("per-route"),
        Some(BgpVrfLabelMode::Route)
    );
    assert_eq!(
        BgpVrfLabelMode::parse("per-nexthop"),
        Some(BgpVrfLabelMode::Nexthop)
    );
    assert_eq!(BgpVrfLabelMode::parse("bogus"), None);
}

#[test]
fn encapsulation_parse_accepts_yang_enums() {
    assert_eq!(
        BgpVrfEncapsulation::parse("mpls"),
        Some(BgpVrfEncapsulation::Mpls)
    );
    assert_eq!(
        BgpVrfEncapsulation::parse("srv6"),
        Some(BgpVrfEncapsulation::Srv6)
    );
    assert_eq!(BgpVrfEncapsulation::parse("bogus"), None);
}

#[test]
fn vrf_config_default_encapsulation_is_mpls() {
    assert_eq!(
        BgpVrfConfig::default().encapsulation,
        BgpVrfEncapsulation::Mpls
    );
}

#[test]
fn barrier_rollback_makes_identical_prefix_set_retry_publish_once() {
    let address = v4(192, 0, 2, 1);
    let mut vrfs = SortedMap::new();
    vrfs.insert("blue".to_string(), BgpVrfConfig::default());
    let mut pending = Vec::new();

    // The name that is committed before the rejected transaction.
    stage_prefix_set(
        &mut vrfs,
        &mut pending,
        address,
        Some("OLD"),
        ConfigOp::Assign,
    );
    pending.clear();

    // OLD is replaced by DENY, and the replacement is taken back step by step.
    stage_prefix_set(&mut vrfs, &mut pending, address, None, ConfigOp::Delete);
    stage_prefix_set(
        &mut vrfs,
        &mut pending,
        address,
        Some("DENY"),
        ConfigOp::Assign,
    );
    stage_prefix_set(&mut vrfs, &mut pending, address, None, ConfigOp::Delete);
    stage_prefix_set(
        &mut vrfs,
        &mut pending,
        address,
        Some("OLD"),
        ConfigOp::Assign,
    );

    assert!(take_prefix_set_commit_changes(&vrfs, &mut pending).is_empty());
    assert_eq!(
        vrfs.get(&"blue".to_string())
            .unwrap()
            .neighbors
            .get(&address)
            .unwrap()
            .prefix_set
            .get(&AfiSafi::new(Afi::Ip, Safi::Unicast))
            .unwrap()
            .output
            .as_deref(),
        Some("OLD")
    );

    // The same candidate again is published.
    stage_prefix_set(&mut vrfs, &mut pending, address, None, ConfigOp::Delete);
    stage_prefix_set(
        &mut vrfs,
        &mut pending,
        address,
        Some("DENY"),
        ConfigOp::Assign,
    );
    let published = take_prefix_set_commit_changes(&vrfs, &mut pending);
    assert_eq!(published.len(), 1);
    assert_eq!(published[0].name.as_deref(), Some("DENY"));
    assert!(take_prefix_set_commit_changes(&vrfs, &mut pending).is_empty());
}

#[test]
fn mobile_uplane_default_is_empty() {
    let mup = BgpVrfConfig::default().mobile_uplane;
    assert!(mup.routes.is_empty());
}

#[test]
fn mobile_uplane_binds_both_directions() {
    let mut cfg = BgpVrfConfig::default();
    cfg.mobile_uplane.routes.insert(
        MupSrv6Direction::Decapsulation,
        MupRouteBinding {
            network_instance: Some("internet".to_string()),
            mup_ext_comm: Some(rd(1, 2)),
        },
    );
    cfg.mobile_uplane.routes.insert(
        MupSrv6Direction::Encapsulation,
        MupRouteBinding {
            network_instance: Some("internet".to_string()),
            mup_ext_comm: None,
        },
    );
    assert_eq!(cfg.mobile_uplane.routes.len(), 2);
    let st2 = cfg
        .mobile_uplane
        .routes
        .get(&MupSrv6Direction::Decapsulation)
        .unwrap();
    assert_eq!(st2.network_instance.as_deref(), Some("internet"));
    assert_eq!(st2.mup_ext_comm, Some(rd(1, 2)));

    cfg.mobile_uplane
        .routes
        .remove(&MupSrv6Direction::Decapsulation);
    assert!(
        cfg.mobile_uplane
            .routes
            .contains_key(&MupSrv6Direction::Encapsulation),
        "removing st2 leaves the st1 binding intact"
    );
}

#[test]
fn neighbor_default_is_empty() {
    let nbr = BgpVrfNeighborConfig::default();
    assert!(nbr.remote_as.is_none());
    assert!(nbr.peer_group.is_none());
    assert!(nbr.description.is_none());
    assert!(nbr.mp_explicit.is_empty());
    assert!(nbr.timer.connect_retry_time.is_none());
    assert!(nbr.timer.hold_time.is_none());
    assert!(nbr.timer.idle_hold_time.is_none());
    assert!(nbr.prefix_set.is_empty());
}

#[test]
fn neighbor_timers_stage_and_clear_independently() {
    let address = v4(192, 0, 2, 1);
    let mut cfg = BgpVrfConfig::default();

    let nbr = neighbor_entry(&mut cfg, address, ConfigOp::Assign).unwrap();
    nbr.timer.connect_retry_time = Some(3);
    nbr.timer.hold_time = Some(9);
    nbr.timer.idle_hold_time = Some(1);

    let nbr = cfg.neighbors.get(&address).unwrap();
    assert_eq!(nbr.timer.connect_retry_time, Some(3));
    assert_eq!(nbr.timer.hold_time, Some(9));
    assert_eq!(nbr.timer.idle_hold_time, Some(1));

    cfg.neighbors.get_mut(&address).unwrap().timer.hold_time = None;
    let nbr = cfg.neighbors.get(&address).unwrap();
    assert!(nbr.timer.hold_time.is_none());
    assert_eq!(nbr.timer.connect_retry_time, Some(3));
    assert_eq!(nbr.timer.idle_hold_time, Some(1));
}

#[test]
fn neighbor_timers_leave_the_inert_leaves_unset() {
    let address = v4(192, 0, 2, 1);
    let mut cfg = BgpVrfConfig::default();
    let nbr = neighbor_entry(&mut cfg, address, ConfigOp::Assign).unwrap();
    nbr.timer.connect_retry_time = Some(3);

    assert!(nbr.timer.min_adv_interval.is_none());
    assert!(nbr.timer.orig_interval.is_none());
    assert!(nbr.timer.delay_open_time.is_none());
}

#[test]
fn neighbor_prefix_sets_are_scoped_by_family_and_direction() {
    let mut nbr = BgpVrfNeighborConfig::default();
    let ipv4 = AfiSafi::new(Afi::Ip, Safi::Unicast);
    let ipv6 = AfiSafi::new(Afi::Ip6, Safi::Unicast);

    prefix_set_or_default(&mut nbr, ipv4).input = Some("PEER-IN-V4".to_string());
    prefix_set_or_default(&mut nbr, ipv4).output = Some("PEER-OUT-V4".to_string());
    prefix_set_or_default(&mut nbr, ipv6).input = Some("PEER-IN-V6".to_string());

    let v4 = nbr.prefix_set.get(&ipv4).unwrap();
    assert_eq!(v4.input.as_deref(), Some("PEER-IN-V4"));
    assert_eq!(v4.output.as_deref(), Some("PEER-OUT-V4"));
    let v6 = nbr.prefix_set.get(&ipv6).unwrap();
    assert_eq!(v6.input.as_deref(), Some("PEER-IN-V6"));
    assert!(v6.output.is_none());

    nbr.prefix_set.get_mut(&ipv4).unwrap().input = None;
    assert!(nbr.prefix_set.get(&ipv4).unwrap().input.is_none());
    assert_eq!(
        nbr.prefix_set.get(&ipv4).unwrap().output.as_deref(),
        Some("PEER-OUT-V4")
    );
    assert_eq!(
        nbr.prefix_set.get(&ipv6).unwrap().input.as_deref(),
        Some("PEER-IN-V6")
    );
}

#[test]
fn prefix_set_replacement_is_coalesced_to_final_name_at_commit() {
    let vrf = "blue".to_string();
    let address = v4(192, 0, 2, 1);
    let afi_safi = AfiSafi::new(Afi::Ip, Safi::Unicast);
    let mut vrfs = SortedMap::new();
    let mut cfg = BgpVrfConfig::default();
    prefix_set_or_default(neighbor_or_default(&mut cfg, address), afi_safi).input =
        Some("NEW".to_string());
    vrfs.insert(vrf.clone(), cfg);

    // A replacement deletes OLD and assigns NEW. Only the name from before the
    // first callback is kept.
    let mut pending = Vec::new();
    record_pending_prefix_set_change(
        &mut pending,
        PendingVrfPrefixSetChange {
            vrf: vrf.clone(),
            address,
            afi_safi,
            direction: InOut::Input,
            before: Some("OLD".to_string()),
        },
    );
    record_pending_prefix_set_change(
        &mut pending,
        PendingVrfPrefixSetChange {
            vrf: vrf.clone(),
            address,
            afi_safi,
            direction: InOut::Input,
            before: None,
        },
    );
    assert_eq!(pending.len(), 1);
    assert_eq!(pending[0].before.as_deref(), Some("OLD"));
    let changes = take_prefix_set_commit_changes(&vrfs, &mut pending);

    assert!(pending.is_empty());
    assert_eq!(changes.len(), 1);
    assert_eq!(changes[0].vrf, vrf);
    assert_eq!(changes[0].name.as_deref(), Some("NEW"));
}

#[test]
fn prefix_set_delete_then_restore_is_not_published() {
    let vrf = "blue".to_string();
    let address = v4(192, 0, 2, 1);
    let afi_safi = AfiSafi::new(Afi::Ip, Safi::Unicast);
    let mut vrfs = SortedMap::new();
    let mut cfg = BgpVrfConfig::default();
    prefix_set_or_default(neighbor_or_default(&mut cfg, address), afi_safi).input =
        Some("SAME".to_string());
    vrfs.insert(vrf.clone(), cfg);

    let mut pending = vec![PendingVrfPrefixSetChange {
        vrf,
        address,
        afi_safi,
        direction: InOut::Input,
        before: Some("SAME".to_string()),
    }];

    assert!(take_prefix_set_commit_changes(&vrfs, &mut pending).is_empty());
    assert!(pending.is_empty());
}

#[test]
fn prefix_set_child_delete_does_not_recreate_removed_neighbor() {
    let address = v4(192, 0, 2, 1);
    let afi_safi = AfiSafi::new(Afi::Ip, Safi::Unicast);
    let mut cfg = BgpVrfConfig::default();

    assert!(update_neighbor_prefix_set(
        &mut cfg,
        address,
        afi_safi,
        InOut::Input,
        None,
        ConfigOp::Delete,
    )
    .is_none());
    assert!(cfg.neighbors.is_empty());
}

#[test]
fn whole_neighbor_delete_child_callbacks_leave_no_ghost_or_dirty_diff() {
    let address = v4(192, 0, 2, 1);
    let afi_safi = AfiSafi::new(Afi::Ip, Safi::Unicast);
    let mut cfg = BgpVrfConfig::default();
    let neighbor = neighbor_or_default(&mut cfg, address);
    neighbor.remote_as = Some(65001);
    neighbor.peer_group = Some("CE".to_string());
    neighbor.description = Some("deleted peer".to_string());
    neighbor.mp_explicit.insert(afi_safi, true);
    prefix_set_or_default(neighbor, afi_safi).input = Some("CE-IN".to_string());

    // The neighbor goes first. The deletes of its leaves follow, and none of
    // them brings it back.
    cfg.neighbors.remove(&address);
    assert!(neighbor_entry(&mut cfg, address, ConfigOp::Delete).is_none());
    assert!(neighbor_entry(&mut cfg, address, ConfigOp::Delete).is_none());
    assert!(neighbor_entry(&mut cfg, address, ConfigOp::Delete).is_none());
    assert!(neighbor_entry(&mut cfg, address, ConfigOp::Delete).is_none());
    assert!(update_neighbor_prefix_set(
        &mut cfg,
        address,
        afi_safi,
        InOut::Input,
        None,
        ConfigOp::Delete,
    )
    .is_none());
    assert!(cfg.neighbors.is_empty());

    let clean = BgpVrfConfig::default();
    let groups: SortedMap<String, NeighborGroup> = SortedMap::new();
    assert!(runtime_structure_eq(&clean, &groups, &cfg, &groups));
    assert!(runtime_structure_eq(&cfg, &groups, &cfg.clone(), &groups));
}

#[test]
fn neighbor_child_set_can_still_create_before_list_key_callback() {
    let address = v4(192, 0, 2, 1);
    let mut cfg = BgpVrfConfig::default();

    neighbor_entry(&mut cfg, address, ConfigOp::Assign)
        .unwrap()
        .remote_as = Some(65001);

    assert_eq!(
        cfg.neighbors.get(&address).unwrap().remote_as,
        Some(65001)
    );
}

#[test]
fn vrf_config_default_has_label_mode_per_vrf() {
    let cfg = BgpVrfConfig::default();
    assert_eq!(cfg.label_mode, BgpVrfLabelMode::Vrf);
    assert!(cfg.rd.is_none());
    assert!(cfg.router_id.is_none());
    assert!(cfg.neighbors.is_empty());
    assert!(cfg.ipv4_unicast.is_none());
    assert!(cfg.ipv6_unicast.is_none());
}

#[test]
fn rd_round_trips_through_from_str() {
    let mut args = Args::new(vec![Arg {
        text: "65000:10".to_string(),
        addr: None,
        rd: Some(rd(65000, 10)),
    }]);
    let rd = args.rd().expect("RD parses");
    let mut cfg = BgpVrfConfig {
        rd: Some(rd),
        ..Default::default()
    };
    assert_eq!(cfg.rd, Some(rd));
    cfg.rd = None;
    assert!(cfg.rd.is_none());
}

#[test]
fn neighbor_remote_as_set_and_clear() {
    let mut cfg = BgpVrfConfig::default();
    let addr = v4(192, 0, 2, 1);
    let nbr = neighbor_or_default(&mut cfg, addr);
    nbr.remote_as = Some(65001);
    assert_eq!(
        cfg.neighbors.get(&addr).and_then(|n| n.remote_as),
        Some(65001)
    );

    let nbr = cfg.neighbors.get_mut(&addr).unwrap();
    nbr.remote_as = None;
    assert!(cfg.neighbors.get(&addr).unwrap().remote_as.is_none());
}

#[test]
fn afi_v4_network_insert_and_remove() {
    let mut cfg = BgpVrfConfig::default();
    let prefix = v4net("10.10.0.0/16");
    cfg.ipv4_unicast
        .get_or_insert_with(BgpVrfAfConfig::default)
        .networks
        .insert(prefix);
    assert!(cfg
        .ipv4_unicast
        .as_ref()
        .unwrap()
        .networks
        .contains(&prefix));
    cfg.ipv4_unicast.as_mut().unwrap().networks.remove(&prefix);
    assert!(cfg.ipv4_unicast.as_ref().unwrap().networks.is_empty());
}

#[test]
fn afi_v6_network_insert_and_remove() {
    let mut cfg = BgpVrfConfig::default();
    let prefix = v6net("2001:db8::/64");
    cfg.ipv6_unicast
        .get_or_insert_with(BgpVrfAfConfig::default)
        .networks
        .insert(prefix);
    assert!(cfg
        .ipv6_unicast
        .as_ref()
        .unwrap()
        .networks
        .contains(&prefix));
    cfg.ipv6_unicast.as_mut().unwrap().networks.remove(&prefix);
    assert!(cfg.ipv6_unicast.as_ref().unwrap().networks.is_empty());
}
