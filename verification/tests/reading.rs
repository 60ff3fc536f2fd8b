//! Reading arguments, and the ordered collections.

use vrf_policy::args::{Arg, Args};
use vrf_policy::net::{Afi, AfiSafi, IpAddr, IpNet, Ipv4Addr, Ipv4Net, Ipv6Addr, Ipv6Net, Safi};
use vrf_policy::sorted_map::{SortedMap, SortedSet};
use vrf_policy::value::Value;

fn args(items: &[&str]) -> Args {
    Args::new(
        items
            .iter()
            .map(|item| Arg {
                text: item.to_string(),
                addr: None,
                rd: None,
            })
            .collect(),
    )
}

#[test]
fn arguments_are_read_in_turn() {
    let mut list = args(&["a", "7", "true"]);
    assert_eq!(list.string(), Some("a".to_string()));
    assert_eq!(list.u32(), Some(7));
    assert_eq!(list.boolean(), Some(true));
    assert_eq!(list.string(), None);
    assert_eq!(list.u16(), None);
    let mut list = args(&["x", "false"]);
    assert_eq!(list.u32(), None, "a failed reading takes its argument along");
    assert_eq!(list.boolean(), Some(false));
}

#[test]
fn numbers_have_their_bounds() {
    assert_eq!(args(&["65535"]).u16(), Some(65535));
    assert_eq!(args(&["65536"]).u16(), None);
    assert_eq!(args(&["+1"]).u32(), Some(1));
    assert_eq!(args(&["-1"]).u32(), None);
    assert_eq!(args(&[""]).u32(), None);
    assert_eq!(args(&["+"]).u32(), None);
    assert_eq!(args(&["0004294967295"]).u32(), Some(4294967295));
    assert_eq!(args(&["99999999999999999999"]).u32(), None);
}

#[test]
fn families_are_named() {
    assert_eq!(
        args(&["ipv4"]).afi_safi(),
        Some(AfiSafi::new(Afi::Ip, Safi::Unicast))
    );
    assert_eq!(
        args(&["ipv6"]).afi_safi(),
        Some(AfiSafi::new(Afi::Ip6, Safi::Unicast))
    );
    assert_eq!(args(&["ipx"]).afi_safi(), None);
}

#[test]
fn ipv4_prefixes() {
    assert_eq!(
        args(&["10.20.30.40/8"]).v4net(),
        Some(Ipv4Net {
            addr: Ipv4Addr { bits: 0x0a14_1e28 },
            prefix_len: 8
        })
    );
    for text in [
        "10.0.0.0",
        "10.0.0.0/33",
        "10.0.0.0/008",
        "10.0.0/8",
        "10.0.0.256/8",
        "10.0.0.0000/8",
        "10.0.0.0/8 ",
        "2001:db8::/32",
    ] {
        assert_eq!(args(&[text]).v4net(), None, "{text}");
    }
    assert_eq!(
        args(&["010.000.0.1/08"]).v4net(),
        Some(Ipv4Net {
            addr: Ipv4Addr { bits: 0x0a00_0001 },
            prefix_len: 8
        })
    );
}

#[test]
fn ipv6_prefixes() {
    assert_eq!(
        args(&["2001:db8::/32"]).v6net(),
        Some(Ipv6Net {
            addr: Ipv6Addr {
                bits: 0x2001_0db8 << 96
            },
            prefix_len: 32
        })
    );
    assert_eq!(args(&["2001:db8::/129"]).v6net(), None);
    assert_eq!(args(&["10.0.0.0/8"]).v6net(), None);
}

#[test]
fn prefixes_of_either_family() {
    assert_eq!(
        args(&["10.0.0.0/8"]).net(),
        Some(IpNet::V4(Ipv4Net {
            addr: Ipv4Addr { bits: 0x0a00_0000 },
            prefix_len: 8
        }))
    );
    assert_eq!(
        args(&["::/0"]).net(),
        Some(IpNet::V6(Ipv6Net {
            addr: Ipv6Addr { bits: 0 },
            prefix_len: 0
        }))
    );
    assert_eq!(args(&["default"]).net(), None);
}

#[test]
fn mac_addresses() {
    assert_eq!(
        args(&["02:00:5e:00:53:AF"]).mac(),
        Some([2, 0, 0x5e, 0, 0x53, 0xaf])
    );
    assert_eq!(args(&["02:00:5e:00:53"]).mac(), None);
    assert_eq!(args(&["02:00:5e:00:53:AF:01"]).mac(), None);
    assert_eq!(args(&["02:00:5e:00:53:GG"]).mac(), None);
}

#[test]
fn maps_are_walked_in_order() {
    let mut map: SortedMap<IpAddr, u32> = SortedMap::new();
    let v6 = IpAddr::V6(Ipv6Addr { bits: 0 });
    let low = IpAddr::V4(Ipv4Addr { bits: 1 });
    let high = IpAddr::V4(Ipv4Addr { bits: 2 });
    map.insert(v6, 3);
    map.insert(high, 2);
    map.insert(low, 1);
    map.insert(high, 4);
    assert_eq!(map.len(), 3);
    assert_eq!(*map.key_at(0), low);
    assert_eq!(*map.value_at(1), 4);
    assert_eq!(map.key_set().members(), vec![low, high, v6]);
    assert_eq!(map.pop_first(), Some((low, 1)));
    assert_eq!(map.remove(&low), None);
    assert_eq!(map.remove(&v6), Some(3));
    *map.get_or_insert(high, 9) += 1;
    *map.get_mut(&high).unwrap() += 1;
    assert_eq!(map.get(&high), Some(&6));
    assert!(map.same(&map.duplicate()));
    assert_eq!(map.pop_first(), Some((high, 6)));
    assert_eq!(map.pop_first(), None);
    assert!(map.is_empty());
}

#[test]
fn names_are_ordered_by_code_points() {
    let mut set: SortedSet<String> = SortedSet::new();
    for name in ["b", "ab", "", "a", "é", "B"] {
        set.insert(name.to_string());
        set.insert(name.to_string());
    }
    assert_eq!(set.members(), vec!["", "B", "a", "ab", "b", "é"]);
    set.remove(&"a".to_string());
    assert!(!set.contains(&"a".to_string()));
    assert_eq!(set.len(), 5);
}
