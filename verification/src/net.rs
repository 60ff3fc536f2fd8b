//! Addresses, prefixes, address families and route distinguishers.

use vstd::prelude::*;
use crate::order::{lex_less_pair, lex_less_triple, SortKey};
use crate::text::{decimal_value, is_decimal, place_of};
use crate::value::Value;

verus! {

/// An IPv4 address, as the number that its four octets spell.
#[derive(Debug, Clone, Copy, PartialEq, Eq, Structural)]
pub struct Ipv4Addr {
    pub bits: u32,
}

/// An IPv6 address, as the number that its sixteen octets spell.
#[derive(Debug, Clone, Copy, PartialEq, Eq, Structural)]
pub struct Ipv6Addr {
    pub bits: u128,
}

/// An address of either family.
#[derive(Debug, Clone, Copy, PartialEq, Eq, Structural)]
pub enum IpAddr {
    V4(Ipv4Addr),
    V6(Ipv6Addr),
}

/// An IPv4 address with a prefix length. The address keeps its host bits.
#[derive(Debug, Clone, Copy, PartialEq, Eq, Structural)]
pub struct Ipv4Net {
    pub addr: Ipv4Addr,
    pub prefix_len: u8,
}

/// An IPv6 address with a prefix length. The address keeps its host bits.
#[derive(Debug, Clone, Copy, PartialEq, Eq, Structural)]
pub struct Ipv6Net {
    pub addr: Ipv6Addr,
    pub prefix_len: u8,
}

/// A prefix of either family.
#[derive(Debug, Clone, Copy, PartialEq, Eq, Structural)]
pub enum IpNet {
    V4(Ipv4Net),
    V6(Ipv6Net),
}

/// An address family. `Other` carries the assigned number of a family that
/// has no name here.
#[derive(Debug, Clone, Copy, PartialEq, Eq, Structural)]
pub enum Afi {
    Ip,
    Ip6,
    Other(u16),
}

/// A subsequent address family. `Other` carries the assigned number of a
/// family that has no name here.
#[derive(Debug, Clone, Copy, PartialEq, Eq, Structural)]
pub enum Safi {
    Unicast,
    Other(u8),
}

/// An address family together with its subsequent family.
#[derive(Debug, Clone, Copy, PartialEq, Eq, Structural)]
pub struct AfiSafi {
    pub afi: Afi,
    pub safi: Safi,
}

/// A route distinguisher: a type and six octets of value.
#[derive(Debug, Clone, Copy, PartialEq, Eq)]
pub struct RouteDistinguisher {
    pub typ: u16,
    pub val: [u8; 6],
}

/// What a route distinguisher holds.
pub struct RouteDistinguisherView {
    pub typ: u16,
    pub val: Seq<u8>,
}

impl AfiSafi {
    /// The pair of a family and a subsequent family.
    pub fn new(afi: Afi, safi: Safi) -> (r: AfiSafi)
        ensures
            r == (AfiSafi { afi, safi }),
    {
        AfiSafi { afi, safi }
    }
}

impl IpAddr {
    /// Whether this is an IPv6 address.
    pub fn is_ipv6(&self) -> (r: bool)
        ensures
            r == (*self is V6),
    {
        match self {
            IpAddr::V6(_) => true,
            IpAddr::V4(_) => false,
        }
    }
}

impl DeepView for IpAddr {
    type V = IpAddr;

    open spec fn deep_view(&self) -> IpAddr {
        *self
    }
}

impl DeepView for Ipv4Addr {
    type V = Ipv4Addr;

    open spec fn deep_view(&self) -> Ipv4Addr {
        *self
    }
}

impl DeepView for Ipv4Net {
    type V = Ipv4Net;

    open spec fn deep_view(&self) -> Ipv4Net {
        *self
    }
}

impl DeepView for Ipv6Net {
    type V = Ipv6Net;

    open spec fn deep_view(&self) -> Ipv6Net {
        *self
    }
}

impl DeepView for IpNet {
    type V = IpNet;

    open spec fn deep_view(&self) -> IpNet {
        *self
    }
}

impl DeepView for AfiSafi {
    type V = AfiSafi;

    open spec fn deep_view(&self) -> AfiSafi {
        *self
    }
}

impl View for RouteDistinguisher {
    type V = RouteDistinguisherView;

    open spec fn view(&self) -> RouteDistinguisherView {
        RouteDistinguisherView { typ: self.typ, val: self.val.deep_view() }
    }
}

impl DeepView for RouteDistinguisher {
    type V = RouteDistinguisherView;

    open spec fn deep_view(&self) -> RouteDistinguisherView {
        self@
    }
}

impl Value for IpAddr {
    fn duplicate(&self) -> (r: Self) {
        *self
    }

    fn same(&self, other: &Self) -> (r: bool) {
        *self == *other
    }
}

impl Value for Ipv4Addr {
    fn duplicate(&self) -> (r: Self) {
        *self
    }

    fn same(&self, other: &Self) -> (r: bool) {
        *self == *other
    }
}

impl Value for Ipv4Net {
    fn duplicate(&self) -> (r: Self) {
        *self
    }

    fn same(&self, other: &Self) -> (r: bool) {
        *self == *other
    }
}

impl Value for Ipv6Net {
    fn duplicate(&self) -> (r: Self) {
        *self
    }

    fn same(&self, other: &Self) -> (r: bool) {
        *self == *other
    }
}

impl Value for IpNet {
    fn duplicate(&self) -> (r: Self) {
        *self
    }

    fn same(&self, other: &Self) -> (r: bool) {
        *self == *other
    }
}

impl Value for AfiSafi {
    fn duplicate(&self) -> (r: Self) {
        *self
    }

    fn same(&self, other: &Self) -> (r: bool) {
        *self == *other
    }
}

impl Value for RouteDistinguisher {
    fn duplicate(&self) -> (r: Self) {
        *self
    }

    fn same(&self, other: &Self) -> (r: bool) {
        self.typ == other.typ && self.val.same(&other.val)
    }
}

/// IPv4 addresses come before IPv6 addresses.
impl SortKey for IpAddr {
    open spec fn rank(key: IpAddr) -> Seq<int> {
        match key {
            IpAddr::V4(a) => seq![0, a.bits as int],
            IpAddr::V6(a) => seq![1, a.bits as int],
        }
    }

    proof fn rank_injective(a: IpAddr, b: IpAddr) {
        assert(Self::rank(a)[0] == Self::rank(b)[0]);
        assert(Self::rank(a)[1] == Self::rank(b)[1]);
    }

    fn precedes(&self, other: &Self) -> (r: bool) {
        proof {
            let a = Self::rank(*self);
            let b = Self::rank(*other);
            lex_less_pair(a[0], a[1], b[0], b[1]);
            assert(a =~= seq![a[0], a[1]]);
            assert(b =~= seq![b[0], b[1]]);
        }
        match (self, other) {
            (IpAddr::V4(a), IpAddr::V4(b)) => a.bits < b.bits,
            (IpAddr::V6(a), IpAddr::V6(b)) => a.bits < b.bits,
            (IpAddr::V4(_), IpAddr::V6(_)) => true,
            (IpAddr::V6(_), IpAddr::V4(_)) => false,
        }
    }
}

/// Prefixes are ordered by address, then by length.
impl SortKey for Ipv4Net {
    open spec fn rank(key: Ipv4Net) -> Seq<int> {
        seq![key.addr.bits as int, key.prefix_len as int]
    }

    proof fn rank_injective(a: Ipv4Net, b: Ipv4Net) {
        assert(Self::rank(a)[0] == Self::rank(b)[0]);
        assert(Self::rank(a)[1] == Self::rank(b)[1]);
    }

    fn precedes(&self, other: &Self) -> (r: bool) {
        proof {
            let a = Self::rank(*self);
            let b = Self::rank(*other);
            lex_less_pair(a[0], a[1], b[0], b[1]);
            assert(a =~= seq![a[0], a[1]]);
            assert(b =~= seq![b[0], b[1]]);
        }
        self.addr.bits < other.addr.bits || (self.addr.bits == other.addr.bits && self.prefix_len
            < other.prefix_len)
    }
}

/// Prefixes are ordered by address, then by length.
impl SortKey for Ipv6Net {
    open spec fn rank(key: Ipv6Net) -> Seq<int> {
        seq![key.addr.bits as int, key.prefix_len as int]
    }

    proof fn rank_injective(a: Ipv6Net, b: Ipv6Net) {
        assert(Self::rank(a)[0] == Self::rank(b)[0]);
        assert(Self::rank(a)[1] == Self::rank(b)[1]);
    }

    fn precedes(&self, other: &Self) -> (r: bool) {
        proof {
            let a = Self::rank(*self);
            let b = Self::rank(*other);
            lex_less_pair(a[0], a[1], b[0], b[1]);
            assert(a =~= seq![a[0], a[1]]);
            assert(b =~= seq![b[0], b[1]]);
        }
        self.addr.bits < other.addr.bits || (self.addr.bits == other.addr.bits && self.prefix_len
            < other.prefix_len)
    }
}

/// IPv4 prefixes come before IPv6 prefixes.
impl SortKey for IpNet {
    open spec fn rank(key: IpNet) -> Seq<int> {
        match key {
            IpNet::V4(n) => seq![0, n.addr.bits as int, n.prefix_len as int],
            IpNet::V6(n) => seq![1, n.addr.bits as int, n.prefix_len as int],
        }
    }

    proof fn rank_injective(a: IpNet, b: IpNet) {
        assert(Self::rank(a)[0] == Self::rank(b)[0]);
        assert(Self::rank(a)[1] == Self::rank(b)[1]);
        assert(Self::rank(a)[2] == Self::rank(b)[2]);
    }

    fn precedes(&self, other: &Self) -> (r: bool) {
        proof {
            let a = Self::rank(*self);
            let b = Self::rank(*other);
            lex_less_triple(a[0], a[1], a[2], b[0], b[1], b[2]);
            lex_less_pair(a[1], a[2], b[1], b[2]);
            assert(a =~= seq![a[0], a[1], a[2]]);
            assert(b =~= seq![b[0], b[1], b[2]]);
        }
        match (self, other) {
            (IpNet::V4(a), IpNet::V4(b)) => a.precedes(b),
            (IpNet::V6(a), IpNet::V6(b)) => a.precedes(b),
            (IpNet::V4(_), IpNet::V6(_)) => true,
            (IpNet::V6(_), IpNet::V4(_)) => false,
        }
    }
}

/// The assigned numbers of a family, with a mark for the named ones.
pub open spec fn family_rank(family: AfiSafi) -> (int, int) {
    (
        match family.afi {
            Afi::Ip => 0,
            Afi::Ip6 => 1,
            Afi::Other(n) => 2 + n,
        },
        match family.safi {
            Safi::Unicast => 0,
            Safi::Other(n) => 1 + n,
        },
    )
}

/// Families are ordered by address family, then by subsequent family.
impl SortKey for AfiSafi {
    open spec fn rank(key: AfiSafi) -> Seq<int> {
        seq![family_rank(key).0, family_rank(key).1]
    }

    proof fn rank_injective(a: AfiSafi, b: AfiSafi) {
        assert(Self::rank(a)[0] == Self::rank(b)[0]);
        assert(Self::rank(a)[1] == Self::rank(b)[1]);
    }

    fn precedes(&self, other: &Self) -> (r: bool) {
        let a: u32 = match self.afi {
            Afi::Ip => 0,
            Afi::Ip6 => 1,
            Afi::Other(n) => 2 + n as u32,
        };
        let b: u32 = match other.afi {
            Afi::Ip => 0,
            Afi::Ip6 => 1,
            Afi::Other(n) => 2 + n as u32,
        };
        let c: u32 = match self.safi {
            Safi::Unicast => 0,
            Safi::Other(n) => 1 + n as u32,
        };
        let d: u32 = match other.safi {
            Safi::Unicast => 0,
            Safi::Other(n) => 1 + n as u32,
        };
        proof {
            lex_less_pair(a as int, c as int, b as int, d as int);
        }
        a < b || (a == b && c < d)
    }
}

/// The number that a row of at most `width` decimal digits spells, if it is
/// no more than `max`.
pub open spec fn short_decimal(text: Seq<char>, width: nat, max: nat) -> Option<nat> {
    if is_decimal(text) && text.len() <= width && decimal_value(text) <= max {
        Some(decimal_value(text))
    } else {
        None
    }
}

/// The values of `n` octets, each of one to three decimal digits and with a
/// dot between them.
pub open spec fn dotted_octets(text: Seq<char>, n: nat) -> Option<Seq<nat>>
    decreases n,
{
    let at = place_of(text, '.');
    if n == 0 {
        None
    } else if n == 1 {
        match short_decimal(text, 3, 255) {
            Some(octet) => Some(seq![octet]),
            None => None,
        }
    } else if at == text.len() {
        None
    } else {
        match (
            short_decimal(text.take(at), 3, 255),
            dotted_octets(text.skip(at + 1), (n - 1) as nat),
        ) {
            (Some(octet), Some(rest)) => Some(seq![octet] + rest),
            _ => None,
        }
    }
}

/// The IPv4 prefix that a text spells: four dotted octets, a slash and a
/// length of one or two digits, no more than 32.
pub open spec fn ipv4_net(text: Seq<char>) -> Option<Ipv4Net> {
    let at = place_of(text, '/');
    if at == text.len() {
        None
    } else {
        match (dotted_octets(text.take(at), 4), short_decimal(text.skip(at + 1), 2, 32)) {
            (Some(o), Some(len)) => Some(
                Ipv4Net {
                    addr: Ipv4Addr {
                        bits: (o[0] * 0x100_0000 + o[1] * 0x1_0000 + o[2] * 0x100 + o[3]) as u32,
                    },
                    prefix_len: len as u8,
                },
            ),
            _ => None,
        }
    }
}

/// The address bits and the length of the IPv6 prefix that `ipnet` reads from
/// a text.
pub uninterp spec fn ipv6_net_parts(text: Seq<char>) -> Option<(u128, u8)>;

/// The IPv6 prefix that a text spells.
pub open spec fn ipv6_net(text: Seq<char>) -> Option<Ipv6Net> {
    match ipv6_net_parts(text) {
        Some((bits, len)) => Some(Ipv6Net { addr: Ipv6Addr { bits }, prefix_len: len }),
        None => None,
    }
}

/// The prefix of either family that a text spells.
pub open spec fn ip_net(text: Seq<char>) -> Option<IpNet> {
    match (ipv4_net(text), ipv6_net(text)) {
        (Some(net), _) => Some(IpNet::V4(net)),
        (None, Some(net)) => Some(IpNet::V6(net)),
        (None, None) => None,
    }
}

/// Calls `ipnet::Ipv4Net::from_str`, which accepts four decimal octets of at
/// most three digits, a slash and a length of at most two digits, and refuses
/// octets above 255 and lengths above 32.
#[verifier::external_body]
pub(crate) fn parse_ipv4_net(text: &str) -> (r: Option<Ipv4Net>)
    ensures
        r == ipv4_net(text@),
{
    let net = text.parse::<ipnet::Ipv4Net>().ok()?;
    Some(Ipv4Net { addr: Ipv4Addr { bits: u32::from(net.addr()) }, prefix_len: net.prefix_len() })
}

/// Calls `ipnet::Ipv6Net::from_str`. What it accepts has a name,
/// `ipv6_net_parts`; the contract adds that no length is above 128.
#[verifier::external_body]
pub(crate) fn parse_ipv6_net(text: &str) -> (r: Option<Ipv6Net>)
    ensures
        match r {
            Some(net) => {
                &&& ipv6_net_parts(text@) == Some((net.addr.bits, net.prefix_len))
                &&& net.prefix_len <= 128
            },
            None => ipv6_net_parts(text@) is None,
        },
{
    let net = text.parse::<ipnet::Ipv6Net>().ok()?;
    Some(Ipv6Net { addr: Ipv6Addr { bits: u128::from(net.addr()) }, prefix_len: net.prefix_len() })
}

/// Calls `ipnet::IpNet::from_str`, which reads the text as an IPv4 prefix and,
/// where that fails, as an IPv6 prefix.
#[verifier::external_body]
pub(crate) fn parse_ip_net(text: &str) -> (r: Option<IpNet>)
    ensures
        r == ip_net(text@),
{
    match text.parse::<ipnet::IpNet>().ok()? {
        ipnet::IpNet::V4(net) => {
            let addr = Ipv4Addr { bits: u32::from(net.addr()) };
            Some(IpNet::V4(Ipv4Net { addr, prefix_len: net.prefix_len() }))
        },
        ipnet::IpNet::V6(net) => {
            let addr = Ipv6Addr { bits: u128::from(net.addr()) };
            Some(IpNet::V6(Ipv6Net { addr, prefix_len: net.prefix_len() }))
        },
    }
}

} // verus!
