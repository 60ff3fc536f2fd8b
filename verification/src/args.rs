//! The arguments and the operation that a configuration callback is called with.

use vstd::prelude::*;
use crate::net::{ip_net, ipv4_net, ipv6_net, parse_ip_net, parse_ipv4_net, parse_ipv6_net, Afi,
    AfiSafi, IpAddr, IpNet, Ipv4Addr, Ipv4Net, Ipv6Net, RouteDistinguisher, RouteDistinguisherView,
    Safi};
use crate::text::{mac_address, parse_mac, parse_unsigned, same_text, unsigned};

verus! {

/// What a configuration callback is asked to do.
#[derive(Debug, Clone, Copy, PartialEq, Eq, Structural)]
pub enum ConfigOp {
    Assign,
    Delete,
    CommitStart,
    CommitEnd,
}

/// One argument of a configuration path: its text, and what the text reads as
/// where it is taken in as an address or as a route distinguisher.
#[derive(Debug, PartialEq, Eq)]
pub struct Arg {
    pub text: String,
    pub addr: Option<IpAddr>,
    pub rd: Option<RouteDistinguisher>,
}

/// What an argument holds.
pub struct ArgView {
    pub text: Seq<char>,
    pub addr: Option<IpAddr>,
    pub rd: Option<RouteDistinguisherView>,
}

impl View for Arg {
    type V = ArgView;

    open spec fn view(&self) -> ArgView {
        ArgView { text: self.text@, addr: self.addr, rd: self.rd.deep_view() }
    }
}

impl DeepView for Arg {
    type V = ArgView;

    open spec fn deep_view(&self) -> ArgView {
        self@
    }
}

/// The arguments that are still to be read.
#[derive(Debug, PartialEq, Eq)]
pub struct Args {
    items: Vec<Arg>,
}

impl View for Args {
    type V = Seq<ArgView>;

    closed spec fn view(&self) -> Seq<ArgView> {
        self.items.deep_view()
    }
}

/// The arguments behind the first one.
pub open spec fn rest(args: Seq<ArgView>) -> Seq<ArgView> {
    if args.len() > 0 {
        args.drop_first()
    } else {
        args
    }
}

/// The text of the first argument.
pub open spec fn string_arg(args: Seq<ArgView>) -> Option<Seq<char>> {
    if args.len() > 0 {
        Some(args[0].text)
    } else {
        None
    }
}

/// The first argument as an address.
pub open spec fn addr_arg(args: Seq<ArgView>) -> Option<IpAddr> {
    if args.len() > 0 {
        args[0].addr
    } else {
        None
    }
}

/// The first argument as an IPv4 address.
pub open spec fn v4addr_arg(args: Seq<ArgView>) -> Option<Ipv4Addr> {
    match addr_arg(args) {
        Some(IpAddr::V4(addr)) => Some(addr),
        _ => None,
    }
}

/// The first argument as a route distinguisher.
pub open spec fn rd_arg(args: Seq<ArgView>) -> Option<RouteDistinguisherView> {
    if args.len() > 0 {
        args[0].rd
    } else {
        None
    }
}

/// The first argument as an IPv4 prefix.
pub open spec fn v4net_arg(args: Seq<ArgView>) -> Option<Ipv4Net> {
    match string_arg(args) {
        Some(text) => ipv4_net(text),
        None => None,
    }
}

/// The first argument as an IPv6 prefix.
pub open spec fn v6net_arg(args: Seq<ArgView>) -> Option<Ipv6Net> {
    match string_arg(args) {
        Some(text) => ipv6_net(text),
        None => None,
    }
}

/// The first argument as a prefix of either family.
pub open spec fn net_arg(args: Seq<ArgView>) -> Option<IpNet> {
    match string_arg(args) {
        Some(text) => ip_net(text),
        None => None,
    }
}

/// The first argument as a number of at most 32 bits.
pub open spec fn u32_arg(args: Seq<ArgView>) -> Option<u32> {
    match string_arg(args) {
        Some(text) => match unsigned(text, u32::MAX as nat) {
            Some(n) => Some(n as u32),
            None => None,
        },
        None => None,
    }
}

/// The first argument as a number of at most 16 bits.
pub open spec fn u16_arg(args: Seq<ArgView>) -> Option<u16> {
    match string_arg(args) {
        Some(text) => match unsigned(text, u16::MAX as nat) {
            Some(n) => Some(n as u16),
            None => None,
        },
        None => None,
    }
}

/// The first argument as a truth value.
pub open spec fn boolean_arg(args: Seq<ArgView>) -> Option<bool> {
    match string_arg(args) {
        Some(text) => if text == "true"@ {
            Some(true)
        } else if text == "false"@ {
            Some(false)
        } else {
            None
        },
        None => None,
    }
}

/// The first argument as one of the two unicast families.
pub open spec fn afi_safi_arg(args: Seq<ArgView>) -> Option<AfiSafi> {
    match string_arg(args) {
        Some(text) => if text == "ipv4"@ {
            Some(AfiSafi { afi: Afi::Ip, safi: Safi::Unicast })
        } else if text == "ipv6"@ {
            Some(AfiSafi { afi: Afi::Ip6, safi: Safi::Unicast })
        } else {
            None
        },
        None => None,
    }
}

/// The first argument as a MAC address.
pub open spec fn mac_arg(args: Seq<ArgView>) -> Option<Seq<u8>> {
    match string_arg(args) {
        Some(text) => mac_address(text),
        None => None,
    }
}

impl Args {
    /// Arguments to be read in the order of `items`.
    pub fn new(items: Vec<Arg>) -> (r: Args)
        ensures
            r@ == items.deep_view(),
    {
        Args { items }
    }

    /// Take the first argument.
    pub fn next(&mut self) -> (r: Option<Arg>)
        ensures
            r.deep_view() == if old(self)@.len() > 0 {
                Some(old(self)@[0])
            } else {
                None
            },
            final(self)@ == rest(old(self)@),
    {
        if self.items.len() == 0 {
            return None;
        }
        let ghost before = self.items.deep_view();
        let item = self.items.remove(0);
        assert(self.items.deep_view() =~= before.drop_first());
        Some(item)
    }

    /// Take the first argument as it stands.
    pub fn string(&mut self) -> (r: Option<String>)
        ensures
            r.deep_view() == string_arg(old(self)@),
            final(self)@ == rest(old(self)@),
    {
        match self.next() {
            Some(arg) => Some(arg.text),
            None => None,
        }
    }

    /// Take the first argument as an address.
    pub fn addr(&mut self) -> (r: Option<IpAddr>)
        ensures
            r == addr_arg(old(self)@),
            final(self)@ == rest(old(self)@),
    {
        match self.next() {
            Some(arg) => arg.addr,
            None => None,
        }
    }

    /// Take the first argument as an IPv4 address.
    pub fn v4addr(&mut self) -> (r: Option<Ipv4Addr>)
        ensures
            r == v4addr_arg(old(self)@),
            final(self)@ == rest(old(self)@),
    {
        match self.addr() {
            Some(IpAddr::V4(addr)) => Some(addr),
            _ => None,
        }
    }

    /// Take the first argument as a route distinguisher.
    pub fn rd(&mut self) -> (r: Option<RouteDistinguisher>)
        ensures
            r.deep_view() == rd_arg(old(self)@),
            final(self)@ == rest(old(self)@),
    {
        match self.next() {
            Some(arg) => arg.rd,
            None => None,
        }
    }

    /// Take the first argument as an IPv4 prefix.
    pub fn v4net(&mut self) -> (r: Option<Ipv4Net>)
        ensures
            r == v4net_arg(old(self)@),
            final(self)@ == rest(old(self)@),
    {
        match self.string() {
            Some(text) => parse_ipv4_net(text.as_str()),
            None => None,
        }
    }

    /// Take the first argument as an IPv6 prefix.
    pub fn v6net(&mut self) -> (r: Option<Ipv6Net>)
        ensures
            r == v6net_arg(old(self)@),
            final(self)@ == rest(old(self)@),
    {
        match self.string() {
            Some(text) => parse_ipv6_net(text.as_str()),
            None => None,
        }
    }

    /// Take the first argument as a prefix of either family.
    pub fn net(&mut self) -> (r: Option<IpNet>)
        ensures
            r == net_arg(old(self)@),
            final(self)@ == rest(old(self)@),
    {
        match self.string() {
            Some(text) => parse_ip_net(text.as_str()),
            None => None,
        }
    }

    /// Take the first argument as a number of at most 32 bits.
    pub fn u32(&mut self) -> (r: Option<u32>)
        ensures
            r == u32_arg(old(self)@),
            final(self)@ == rest(old(self)@),
    {
        match self.string() {
            Some(text) => match parse_unsigned(text.as_str(), 0xffff_ffff) {
                Some(n) => Some(n as u32),
                None => None,
            },
            None => None,
        }
    }

    /// Take the first argument as a number of at most 16 bits.
    pub fn u16(&mut self) -> (r: Option<u16>)
        ensures
            r == u16_arg(old(self)@),
            final(self)@ == rest(old(self)@),
    {
        match self.string() {
            Some(text) => match parse_unsigned(text.as_str(), 0xffff) {
                Some(n) => Some(n as u16),
                None => None,
            },
            None => None,
        }
    }

    /// Take the first argument as a truth value.
    pub fn boolean(&mut self) -> (r: Option<bool>)
        ensures
            r == boolean_arg(old(self)@),
            final(self)@ == rest(old(self)@),
    {
        match self.string() {
            Some(text) => if same_text(text.as_str(), "true") {
                Some(true)
            } else if same_text(text.as_str(), "false") {
                Some(false)
            } else {
                None
            },
            None => None,
        }
    }

    /// Take the first argument as one of the two unicast families.
    pub fn afi_safi(&mut self) -> (r: Option<AfiSafi>)
        ensures
            r == afi_safi_arg(old(self)@),
            final(self)@ == rest(old(self)@),
    {
        match self.string() {
            Some(text) => if same_text(text.as_str(), "ipv4") {
                Some(AfiSafi::new(Afi::Ip, Safi::Unicast))
            } else if same_text(text.as_str(), "ipv6") {
                Some(AfiSafi::new(Afi::Ip6, Safi::Unicast))
            } else {
                None
            },
            None => None,
        }
    }

    /// Take the first argument as a MAC address.
    pub fn mac(&mut self) -> (r: Option<[u8; 6]>)
        ensures
            r.deep_view() == mac_arg(old(self)@),
            final(self)@ == rest(old(self)@),
    {
        match self.string() {
            Some(text) => parse_mac(text.as_str()),
            None => None,
        }
    }
}

} // verus!
