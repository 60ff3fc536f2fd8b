//! How the keys of maps and sets are ordered, type by type.

use vstd::prelude::*;
use crate::bgp::types::{source_rank, BgpRedistSource, MupSrv6Direction};
use crate::net::{AfiSafi, IpAddr, IpNet, Ipv4Net, Ipv6Net};
use crate::order::{in_order, in_order_enumerates, increasing_no_duplicates, key_less, lex_less,
    lex_less_one, lex_less_pair, lex_less_triple, SortKey};
use crate::text::code_points;

verus! {

/// A set in order holds each member once, and of any two places the earlier one
/// has the lesser key.
pub proof fn order_ascends<K: SortKey>(keys: Set<K::V>, i: int, j: int)
    requires
        keys.finite(),
        0 <= i < j < in_order::<K>(keys).len(),
    ensures
        key_less::<K>(in_order::<K>(keys)[i], in_order::<K>(keys)[j]),
        in_order::<K>(keys)[i] != in_order::<K>(keys)[j],
        forall|key: K::V| #[trigger] keys.contains(key) == in_order::<K>(keys).contains(key),
{
    let row = in_order::<K>(keys);
    in_order_enumerates::<K>(keys);
    increasing_no_duplicates::<K>(row);
    assert forall|key: K::V| #[trigger] keys.contains(key) == row.contains(key) by {
        assert(row.to_set().contains(key) == row.contains(key));
    }
}

proof fn names_from(a: Seq<char>, b: Seq<char>, n: int)
    requires
        0 <= n <= a.len(),
        n <= b.len(),
        forall|i: int| 0 <= i < n ==> a[i] == b[i],
    ensures
        lex_less(code_points(a), code_points(b)) == lex_less(
            code_points(a).skip(n),
            code_points(b).skip(n),
        ),
    decreases n,
{
    let x = code_points(a);
    let y = code_points(b);
    if n == 0 {
        assert(x.skip(0) =~= x);
        assert(y.skip(0) =~= y);
    } else {
        names_from(a, b, n - 1);
        assert(x.skip(n - 1).drop_first() =~= x.skip(n));
        assert(y.skip(n - 1).drop_first() =~= y.skip(n));
        assert(a[n - 1] == b[n - 1]);
    }
}

/// Names are ordered by the first character in which they differ; where there is
/// none, the shorter one comes first.
pub proof fn names_by_first_difference(a: Seq<char>, b: Seq<char>, n: int)
    requires
        0 <= n <= a.len(),
        n <= b.len(),
        forall|i: int| 0 <= i < n ==> a[i] == b[i],
    ensures
        n < a.len() && n < b.len() && a[n] != b[n] ==> key_less::<String>(a, b) == (a[n] < b[n]),
        n == a.len() ==> key_less::<String>(a, b) == (a.len() < b.len()),
        n == b.len() ==> !key_less::<String>(a, b),
{
    names_from(a, b, n);
}

/// IPv4 addresses come before IPv6 addresses, and those of one family go by the
/// number that they spell.
pub proof fn addresses_by_number(a: IpAddr, b: IpAddr)
    ensures
        a is V4 && b is V6 ==> key_less::<IpAddr>(a, b) && !key_less::<IpAddr>(b, a),
        a is V4 && b is V4 ==> key_less::<IpAddr>(a, b) == (a->V4_0.bits < b->V4_0.bits),
        a is V6 && b is V6 ==> key_less::<IpAddr>(a, b) == (a->V6_0.bits < b->V6_0.bits),
{
    let x = IpAddr::rank(a);
    let y = IpAddr::rank(b);
    lex_less_pair(x[0], x[1], y[0], y[1]);
    lex_less_pair(y[0], y[1], x[0], x[1]);
    assert(x =~= seq![x[0], x[1]]);
    assert(y =~= seq![y[0], y[1]]);
}

/// IPv4 prefixes go by address, and those of one address by length.
pub proof fn ipv4_nets_by_number(a: Ipv4Net, b: Ipv4Net)
    ensures
        a.addr != b.addr ==> key_less::<Ipv4Net>(a, b) == (a.addr.bits < b.addr.bits),
        a.addr == b.addr ==> key_less::<Ipv4Net>(a, b) == (a.prefix_len < b.prefix_len),
{
    let x = Ipv4Net::rank(a);
    let y = Ipv4Net::rank(b);
    lex_less_pair(x[0], x[1], y[0], y[1]);
    assert(x =~= seq![x[0], x[1]]);
    assert(y =~= seq![y[0], y[1]]);
}

/// IPv6 prefixes go by address, and those of one address by length.
pub proof fn ipv6_nets_by_number(a: Ipv6Net, b: Ipv6Net)
    ensures
        a.addr != b.addr ==> key_less::<Ipv6Net>(a, b) == (a.addr.bits < b.addr.bits),
        a.addr == b.addr ==> key_less::<Ipv6Net>(a, b) == (a.prefix_len < b.prefix_len),
{
    let x = Ipv6Net::rank(a);
    let y = Ipv6Net::rank(b);
    lex_less_pair(x[0], x[1], y[0], y[1]);
    assert(x =~= seq![x[0], x[1]]);
    assert(y =~= seq![y[0], y[1]]);
}

/// IPv4 prefixes come before IPv6 prefixes, and those of one family are ordered
/// as among themselves.
pub proof fn nets_by_family(a: IpNet, b: IpNet)
    ensures
        a is V4 && b is V6 ==> key_less::<IpNet>(a, b) && !key_less::<IpNet>(b, a),
        a is V4 && b is V4 ==> key_less::<IpNet>(a, b) == key_less::<Ipv4Net>(a->V4_0, b->V4_0),
        a is V6 && b is V6 ==> key_less::<IpNet>(a, b) == key_less::<Ipv6Net>(a->V6_0, b->V6_0),
{
    let x = IpNet::rank(a);
    let y = IpNet::rank(b);
    lex_less_triple(x[0], x[1], x[2], y[0], y[1], y[2]);
    lex_less_triple(y[0], y[1], y[2], x[0], x[1], x[2]);
    lex_less_pair(x[1], x[2], y[1], y[2]);
    assert(x =~= seq![x[0], x[1], x[2]]);
    assert(y =~= seq![y[0], y[1], y[2]]);
}

/// IPv4 comes before IPv6 and that before every other family, which go by their
/// numbers; of one family unicast comes first, and then the others by number.
pub proof fn families_by_number(a: AfiSafi, b: AfiSafi)
    ensures
        a.afi is Ip && b.afi !is Ip ==> key_less::<AfiSafi>(a, b) && !key_less::<AfiSafi>(b, a),
        a.afi is Ip6 && b.afi is Other ==> key_less::<AfiSafi>(a, b) && !key_less::<AfiSafi>(b, a),
        a.afi is Other && b.afi is Other && a.afi != b.afi ==> key_less::<AfiSafi>(a, b) == (
        a.afi->Other_0 < b.afi->Other_0),
        a.afi == b.afi && a.safi is Unicast && b.safi is Other ==> key_less::<AfiSafi>(a, b)
            && !key_less::<AfiSafi>(b, a),
        a.afi == b.afi && a.safi is Other && b.safi is Other ==> key_less::<AfiSafi>(a, b) == (
        a.safi->Other_0 < b.safi->Other_0),
{
    let x = AfiSafi::rank(a);
    let y = AfiSafi::rank(b);
    lex_less_pair(x[0], x[1], y[0], y[1]);
    lex_less_pair(y[0], y[1], x[0], x[1]);
    assert(x =~= seq![x[0], x[1]]);
    assert(y =~= seq![y[0], y[1]]);
}

/// The uplink route of a mobile user plane comes before the downlink route.
pub proof fn directions_in_order(a: MupSrv6Direction, b: MupSrv6Direction)
    ensures
        key_less::<MupSrv6Direction>(a, b) == (a is Decapsulation && b is Encapsulation),
{
    lex_less_one(0, 0);
    lex_less_one(0, 1);
    lex_less_one(1, 0);
    lex_less_one(1, 1);
}

/// Connected routes come before static ones, those before OSPF, and those before
/// IS-IS.
pub proof fn sources_in_order(a: BgpRedistSource, b: BgpRedistSource)
    ensures
        key_less::<BgpRedistSource>(a, b) == match b {
            BgpRedistSource::Connected => false,
            BgpRedistSource::Static => a is Connected,
            BgpRedistSource::Ospf => a is Connected || a is Static,
            BgpRedistSource::Isis => !(a is Isis),
        },
{
    lex_less_one(source_rank(a), source_rank(b));
}

} // verus!
