//! How the arguments of a callback are read.

use vstd::prelude::*;
use crate::args::{addr_arg, afi_safi_arg, boolean_arg, mac_arg, net_arg, rd_arg, rest, string_arg,
    u16_arg, u32_arg, v4addr_arg, v4net_arg, v6net_arg, ArgView};
use crate::net::{dotted_octets, ipv6_net_parts, short_decimal, ip_net, ipv4_net, ipv6_net, Afi,
    AfiSafi, IpAddr, IpNet, Safi};
use crate::text::{decimal_value, hex_groups, hex_octet, is_decimal, is_digit, mac_address, place_of,
    unsigned};

verus! {

/// Each argument is read once: behind the first one the others follow, each one
/// place further to the front. Without an argument nothing follows.
pub proof fn arguments_are_read_in_turn(args: Seq<ArgView>, i: int)
    ensures
        args.len() == 0 ==> rest(args).len() == 0,
        args.len() > 0 ==> rest(args).len() == args.len() - 1,
        0 <= i < args.len() - 1 ==> rest(args)[i] == args[i + 1],
{
}

/// What the first argument is read as, by its text or by what it was taken in
/// as.
pub proof fn first_argument_is_read(args: Seq<ArgView>)
    requires
        args.len() > 0,
    ensures
        string_arg(args) == Some(args[0].text),
        addr_arg(args) == args[0].addr,
        rd_arg(args) == args[0].rd,
        forall|a: IpAddr| #[trigger]
            addr_arg(args) == Some(a) ==> (v4addr_arg(args) is Some) == (a is V4),
        v4addr_arg(args) is Some ==> args[0].addr == Some(IpAddr::V4(v4addr_arg(args)->0)),
        v4addr_arg(args) is None ==> args[0].addr is None || args[0].addr->0 is V6,
        v4net_arg(args) == ipv4_net(args[0].text),
        v6net_arg(args) == ipv6_net(args[0].text),
        net_arg(args) == ip_net(args[0].text),
        mac_arg(args) == mac_address(args[0].text),
        (boolean_arg(args) == Some(true)) == (args[0].text == "true"@),
        (boolean_arg(args) == Some(false)) == (args[0].text == "false"@),
        (afi_safi_arg(args) == Some(AfiSafi { afi: Afi::Ip, safi: Safi::Unicast })) == (args[0].text
            == "ipv4"@),
        (afi_safi_arg(args) == Some(AfiSafi { afi: Afi::Ip6, safi: Safi::Unicast })) == (
        args[0].text == "ipv6"@),
        afi_safi_arg(args) is Some ==> args[0].text == "ipv4"@ || args[0].text == "ipv6"@,
{
    reveal_strlit("true");
    reveal_strlit("false");
    reveal_strlit("ipv4");
    reveal_strlit("ipv6");
    assert("true"@.len() < "false"@.len());
    assert("ipv4"@[3] != "ipv6"@[3]);
}

/// Without an argument nothing is read.
pub proof fn no_argument_reads_as_nothing(args: Seq<ArgView>)
    requires
        args.len() == 0,
    ensures
        string_arg(args) is None,
        addr_arg(args) is None,
        v4addr_arg(args) is None,
        rd_arg(args) is None,
        v4net_arg(args) is None,
        v6net_arg(args) is None,
        net_arg(args) is None,
        u32_arg(args) is None,
        u16_arg(args) is None,
        boolean_arg(args) is None,
        afi_safi_arg(args) is None,
        mac_arg(args) is None,
{
}

/// A prefix of either family is an IPv4 prefix where the text is one, and else
/// an IPv6 prefix where the text is one.
pub proof fn nets_of_either_family(text: Seq<char>)
    ensures
        ipv4_net(text) is Some ==> ip_net(text) == Some(IpNet::V4(ipv4_net(text)->0)),
        ipv4_net(text) is None && ipv6_net(text) is Some ==> ip_net(text) == Some(
            IpNet::V6(ipv6_net(text)->0),
        ),
        ip_net(text) is None ==> ipv4_net(text) is None && ipv6_net(text) is None,
{
}

/// Numbers are read from the first argument's text; one of 16 bits is one of 32
/// bits that is small enough.
pub proof fn numbers_are_read(args: Seq<ArgView>)
    requires
        args.len() > 0,
    ensures
        match u32_arg(args) {
            Some(n) => unsigned(args[0].text, 0xffff_ffff) == Some(n as nat),
            None => unsigned(args[0].text, 0xffff_ffff) is None,
        },
        match u16_arg(args) {
            Some(n) => u32_arg(args) == Some(n as u32),
            None => u32_arg(args) is None || u32_arg(args)->0 > 0xffff,
        },
{
}

/// How a number grows by a digit: the value is ten times what stood before it,
/// and the digit. With anything but a digit there is no number, nor with a value
/// above the limit.
pub proof fn numbers_grow_by_digits(text: Seq<char>, c: char, max: nat)
    requires
        text.len() > 0,
        text != seq!['+'],
    ensures
        unsigned(text.push(c), max) == match unsigned(text, max) {
            Some(n) => if '0' <= c <= '9' && 10 * n + (c as int - 48) <= max {
                Some((10 * n + (c as int - 48)) as nat)
            } else {
                None
            },
            None => None,
        },
{
    let signed = text[0] == '+';
    let digits = if signed {
        text.drop_first()
    } else {
        text
    };
    let more = text.push(c);
    let longer = if signed {
        more.drop_first()
    } else {
        more
    };
    if signed && digits.len() == 0 {
        assert(text =~= seq!['+']);
    }
    assert(longer =~= digits.push(c));
    assert(longer.drop_last() =~= digits);
    if is_decimal(digits) && is_digit(c) {
        assert forall|i: int| 0 <= i < longer.len() implies is_digit(#[trigger] longer[i]) by {
            if i < digits.len() {
                assert(is_digit(digits[i]));
            }
        }
    }
    if is_decimal(longer) {
        assert forall|i: int| 0 <= i < digits.len() implies is_digit(#[trigger] digits[i]) by {
            assert(is_digit(longer[i]));
        }
        assert(is_digit(longer[digits.len() as int]));
    }
}

/// How a number begins: a digit counts for itself, a plus sign counts for
/// nothing before a digit, and what has no digit is no number.
pub proof fn numbers_begin(c: char, max: nat)
    ensures
        unsigned(seq![c], max) == if '0' <= c <= '9' && c as int - 48 <= max {
            Some((c as int - 48) as nat)
        } else {
            None
        },
        unsigned(seq!['+', c], max) == unsigned(seq![c], max) || c == '+',
        unsigned(seq!['+', '+'], max) is None,
        unsigned(Seq::empty(), max) is None,
{
    reveal_with_fuel(decimal_value, 2);
    let one = seq![c];
    let two = seq!['+', c];
    assert(two.drop_first() =~= one);
    assert(one.drop_last() =~= Seq::<char>::empty());
    if is_decimal(one) {
        assert(is_digit(one[0]));
    }
    if is_digit(c) {
        assert(is_decimal(one));
    }
    let none = seq!['+'].drop_first();
    assert(none.len() == 0);
    assert(seq!['+', '+'].drop_first()[0] == '+');
    assert(!is_digit('+'));
}

/// Whether a character is the hexadecimal digit of a value, in either case.
pub open spec fn is_hex_digit(c: char, value: int) -> bool {
    ||| 0 <= value <= 9 && c as int == 48 + value
    ||| 10 <= value <= 15 && c as int == 87 + value
    ||| 10 <= value <= 15 && c as int == 55 + value
}

/// Whether one or two characters spell an octet in hexadecimal.
pub open spec fn spells_octet(text: Seq<char>, octet: u8) -> bool {
    ||| text.len() == 1 && is_hex_digit(text[0], octet as int)
    ||| text.len() == 2 && is_hex_digit(text[0], octet as int / 16) && is_hex_digit(
        text[1],
        octet as int % 16,
    )
}

/// Groups of characters with a mark between each two.
pub open spec fn joined(groups: Seq<Seq<char>>, mark: char) -> Seq<char>
    decreases groups.len(),
{
    if groups.len() == 0 {
        Seq::empty()
    } else if groups.len() == 1 {
        groups[0]
    } else {
        groups[0] + seq![mark] + joined(groups.drop_first(), mark)
    }
}

proof fn octet_is_spelled(text: Seq<char>, octet: u8)
    ensures
        spells_octet(text, octet) == (hex_octet(text) == Some(octet as int)),
        hex_octet(text) is Some ==> 0 <= hex_octet(text)->0 < 256,
{
}

proof fn mark_is_behind(head: Seq<char>, tail: Seq<char>, mark: char)
    requires
        !head.contains(mark),
    ensures
        place_of(head, mark) == head.len(),
        place_of(head + seq![mark] + tail, mark) == head.len(),
    decreases head.len(),
{
    let text = head + seq![mark] + tail;
    if head.len() > 0 {
        let less = head.drop_first();
        assert(head.contains(head[0]));
        assert forall|i: int| 0 <= i < less.len() implies less[i] != mark by {
            assert(head.contains(head[i + 1]));
        }
        mark_is_behind(less, tail, mark);
        assert(text.drop_first() =~= less + seq![mark] + tail);
    }
}

proof fn groups_are_read(groups: Seq<Seq<char>>, n: nat)
    requires
        n > 0,
        groups.len() > 0,
        forall|i: int| 0 <= i < groups.len() ==> !(#[trigger] groups[i]).contains(':'),
    ensures
        ({
            let r = hex_groups(joined(groups, ':'), n);
            &&& r is Some ==> groups.len() == n && r->0.len() == n && forall|i: int|
                0 <= i < n ==> spells_octet(#[trigger] groups[i], r->0[i])
            &&& r is None ==> groups.len() != n || exists|i: int|
                0 <= i < n && hex_octet(#[trigger] groups[i]) is None
        }),
    decreases n,
{
    let text = joined(groups, ':');
    let head = groups[0];
    let others = groups.drop_first();
    let r = hex_groups(text, n);
    assert(!groups[0].contains(':'));
    let at = place_of(text, ':');
    if groups.len() == 1 {
        mark_is_behind(head, Seq::empty(), ':');
        assert(text.take(at) =~= head);
        if hex_octet(head) is Some {
            octet_is_spelled(head, hex_octet(head)->0 as u8);
        }
    } else {
        mark_is_behind(head, joined(others, ':'), ':');
        assert(text.take(at) =~= head);
        assert(text.skip(at + 1) =~= joined(others, ':'));
        if hex_octet(head) is Some {
            octet_is_spelled(head, hex_octet(head)->0 as u8);
        }
        assert forall|i: int| 0 <= i < others.len() implies !(#[trigger] others[i]).contains(
            ':',
        ) by {
            assert(!groups[i + 1].contains(':'));
        }
        if n > 1 {
            let s = hex_groups(joined(others, ':'), (n - 1) as nat);
            groups_are_read(others, (n - 1) as nat);
            if r is Some {
                assert(s is Some);
                assert forall|i: int| 0 <= i < n implies spells_octet(
                    #[trigger] groups[i],
                    r->0[i],
                ) by {
                    if i > 0 {
                        assert(spells_octet(others[i - 1], s->0[i - 1]));
                    }
                }
            } else if hex_octet(head) is Some && groups.len() == n {
                assert(s is None);
                let i = choose|i: int| 0 <= i < n - 1 && hex_octet(#[trigger] others[i]) is None;
                assert(hex_octet(groups[i + 1]) is None);
            }
        }
    }
}

/// A MAC address is six groups with a colon between each two, each group one or
/// two hexadecimal digits that spell an octet; every other text is none.
pub proof fn mac_is_six_octets(groups: Seq<Seq<char>>)
    requires
        groups.len() > 0,
        forall|i: int| 0 <= i < groups.len() ==> !(#[trigger] groups[i]).contains(':'),
    ensures
        match mac_address(joined(groups, ':')) {
            Some(mac) => groups.len() == 6 && mac.len() == 6 && forall|i: int|
                0 <= i < 6 ==> spells_octet(#[trigger] groups[i], mac[i]),
            None => groups.len() != 6 || exists|i: int|
                0 <= i < 6 && forall|octet: u8| !spells_octet(#[trigger] groups[i], octet),
        },
{
    groups_are_read(groups, 6);
    if mac_address(joined(groups, ':')) is None && groups.len() == 6 {
        let i = choose|i: int| 0 <= i < 6 && hex_octet(#[trigger] groups[i]) is None;
        assert forall|octet: u8| !spells_octet(groups[i], octet) by {
            octet_is_spelled(groups[i], octet);
        }
    }
}

/// Whether a text is a number of one to `width` digits, without a sign and no
/// more than `max`.
pub open spec fn is_short_number(text: Seq<char>, width: nat, max: nat) -> bool {
    1 <= text.len() <= width && text[0] != '+' && unsigned(text, max) is Some
}

proof fn short_number_is_read(text: Seq<char>, width: nat, max: nat)
    ensures
        short_decimal(text, width, max) is Some == is_short_number(text, width, max),
        short_decimal(text, width, max) is Some ==> short_decimal(text, width, max) == unsigned(
            text,
            max,
        ) && short_decimal(text, width, max)->0 <= max,
{
    if text.len() > 0 && text[0] == '+' && is_decimal(text) {
        assert(is_digit(text[0]));
    }
}

proof fn octets_are_read(groups: Seq<Seq<char>>, n: nat)
    requires
        n > 0,
        groups.len() > 0,
        forall|i: int| 0 <= i < groups.len() ==> !(#[trigger] groups[i]).contains('.'),
    ensures
        ({
            let r = dotted_octets(joined(groups, '.'), n);
            &&& r is Some ==> groups.len() == n && r->0.len() == n && forall|i: int|
                0 <= i < n ==> is_short_number(#[trigger] groups[i], 3, 255) && unsigned(
                    groups[i],
                    255,
                ) == Some(r->0[i])
            &&& r is None ==> groups.len() != n || exists|i: int|
                0 <= i < n && !is_short_number(#[trigger] groups[i], 3, 255)
        }),
    decreases n,
{
    let text = joined(groups, '.');
    let head = groups[0];
    let others = groups.drop_first();
    let r = dotted_octets(text, n);
    let at = place_of(text, '.');
    assert(!groups[0].contains('.'));
    short_number_is_read(head, 3, 255);
    if groups.len() == 1 {
        mark_is_behind(head, Seq::empty(), '.');
    } else {
        mark_is_behind(head, joined(others, '.'), '.');
        assert(text.take(at) =~= head);
        assert(text.skip(at + 1) =~= joined(others, '.'));
        assert(text[at] == '.');
        assert(!is_digit('.'));
        assert(!is_decimal(text));
        assert forall|i: int| 0 <= i < others.len() implies !(#[trigger] others[i]).contains(
            '.',
        ) by {
            assert(!groups[i + 1].contains('.'));
        }
        if n > 1 {
            let s = dotted_octets(joined(others, '.'), (n - 1) as nat);
            octets_are_read(others, (n - 1) as nat);
            if r is Some {
                assert(s is Some);
                assert forall|i: int| 0 <= i < n implies is_short_number(
                    #[trigger] groups[i],
                    3,
                    255,
                ) && unsigned(groups[i], 255) == Some(r->0[i]) by {
                    if i > 0 {
                        assert(is_short_number(others[i - 1], 3, 255));
                        assert(unsigned(others[i - 1], 255) == Some(s->0[i - 1]));
                    }
                }
            } else if is_short_number(head, 3, 255) && groups.len() == n {
                assert(s is None);
                let i = choose|i: int|
                    0 <= i < n - 1 && !is_short_number(#[trigger] others[i], 3, 255);
                assert(!is_short_number(groups[i + 1], 3, 255));
            }
        }
    }
}

proof fn no_mark_in_joined(groups: Seq<Seq<char>>, mark: char, other: char)
    requires
        mark != other,
        forall|i: int| 0 <= i < groups.len() ==> !(#[trigger] groups[i]).contains(other),
    ensures
        !joined(groups, mark).contains(other),
    decreases groups.len(),
{
    let text = joined(groups, mark);
    if groups.len() == 1 {
        assert(!groups[0].contains(other));
    } else if groups.len() > 1 {
        let others = groups.drop_first();
        assert forall|i: int| 0 <= i < others.len() implies !(#[trigger] others[i]).contains(
            other,
        ) by {
            assert(!groups[i + 1].contains(other));
        }
        no_mark_in_joined(others, mark, other);
        assert(!groups[0].contains(other));
        let head = groups[0];
        let tail = joined(others, mark);
        if text.contains(other) {
            let i = choose|i: int| 0 <= i < text.len() && text[i] == other;
            if i < head.len() {
                assert(head[i] == other);
            } else if i > head.len() {
                assert(tail[i - head.len() - 1] == other);
            }
        }
    }
}

/// An IPv4 prefix is four groups with a dot between each two, a slash and a
/// length: each group a number of at most three digits up to 255, the length one
/// of at most two digits up to 32. The address is what the groups spell, the
/// first one the most significant. Every other text with a slash is none.
pub proof fn ipv4_nets_are_read(groups: Seq<Seq<char>>, length: Seq<char>)
    requires
        groups.len() > 0,
        forall|i: int|
            0 <= i < groups.len() ==> !(#[trigger] groups[i]).contains('.') && !groups[i].contains(
                '/',
            ),
    ensures
        match ipv4_net(joined(groups, '.') + seq!['/'] + length) {
            Some(net) => {
                &&& groups.len() == 4
                &&& forall|i: int| 0 <= i < 4 ==> is_short_number(#[trigger] groups[i], 3, 255)
                &&& is_short_number(length, 2, 32)
                &&& net.prefix_len == unsigned(length, 32)->0
                &&& net.addr.bits == unsigned(groups[0], 255)->0 * 0x100_0000 + unsigned(
                    groups[1],
                    255,
                )->0 * 0x1_0000 + unsigned(groups[2], 255)->0 * 0x100 + unsigned(
                    groups[3],
                    255,
                )->0
            },
            None => {
                ||| groups.len() != 4
                ||| !is_short_number(length, 2, 32)
                ||| exists|i: int| 0 <= i < 4 && !is_short_number(#[trigger] groups[i], 3, 255)
            },
        },
{
    let front = joined(groups, '.');
    let text = front + seq!['/'] + length;
    no_mark_in_joined(groups, '.', '/');
    mark_is_behind(front, length, '/');
    let at = place_of(text, '/');
    assert(text.take(at) =~= front);
    assert(text.skip(at + 1) =~= length);
    octets_are_read(groups, 4);
    short_number_is_read(length, 2, 32);
    let o = dotted_octets(front, 4);
    if o is Some {
        assert forall|i: int| 0 <= i < 4 implies o->0[i] <= 255 by {
            assert(is_short_number(groups[i], 3, 255));
            short_number_is_read(groups[i], 3, 255);
        }
    }
}

/// A text without a slash is no IPv4 prefix.
pub proof fn ipv4_nets_have_a_length(text: Seq<char>)
    requires
        !text.contains('/'),
    ensures
        ipv4_net(text) is None,
{
    mark_is_behind(text, Seq::empty(), '/');
}

/// An IPv6 prefix has the address bits and the length that were read.
pub proof fn ipv6_nets_are_read(text: Seq<char>)
    ensures
        match ipv6_net(text) {
            Some(net) => ipv6_net_parts(text) == Some((net.addr.bits, net.prefix_len)),
            None => ipv6_net_parts(text) is None,
        },
{
}

} // verus!
