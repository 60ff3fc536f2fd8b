//! Reading text: comparing names, numbers in decimal, MAC addresses.

use vstd::prelude::*;
use vstd::std_specs::iter::IteratorSpec;
use crate::order::{lex_less, SortKey};

verus! {

broadcast use vstd::string::group_string_axioms;

/// The code points of a text.
pub open spec fn code_points(text: Seq<char>) -> Seq<int> {
    Seq::new(text.len(), |i: int| text[i] as int)
}

proof fn code_points_drop_first(text: Seq<char>)
    requires
        text.len() > 0,
    ensures
        code_points(text).drop_first() == code_points(text.drop_first()),
{
    assert(code_points(text).drop_first() =~= code_points(text.drop_first()));
}

/// Whether two texts are the same.
pub fn same_text(a: &str, b: &str) -> (r: bool)
    ensures
        r == (a@ == b@),
{
    let mut x = a.chars();
    let mut y = b.chars();
    loop
        invariant
            (a@ == b@) == (x.remaining() == y.remaining()),
            x.decrease() is Some,
        decreases x.decrease()->0,
    {
        let ghost xs = x.remaining();
        let ghost ys = y.remaining();
        match (x.next(), y.next()) {
            (Some(c), Some(d)) => {
                if c != d {
                    return false;
                }
                assert(xs =~= seq![c] + xs.drop_first());
                assert(ys =~= seq![d] + ys.drop_first());
            },
            (None, None) => {
                assert(xs =~= ys);
                return true;
            },
            _ => {
                return false;
            },
        }
    }
}

/// Names are ordered by their code points.
impl SortKey for String {
    open spec fn rank(key: Seq<char>) -> Seq<int> {
        code_points(key)
    }

    proof fn rank_injective(a: Seq<char>, b: Seq<char>) {
        assert(code_points(a).len() == code_points(b).len());
        assert forall|i: int| 0 <= i < a.len() implies a[i] == b[i] by {
            assert(code_points(a)[i] == code_points(b)[i]);
        }
        assert(a =~= b);
    }

    fn precedes(&self, other: &Self) -> (r: bool) {
        let mut x = self.as_str().chars();
        let mut y = other.as_str().chars();
        loop
            invariant
                lex_less(code_points(self@), code_points(other@)) == lex_less(
                    code_points(x.remaining()),
                    code_points(y.remaining()),
                ),
                x.decrease() is Some,
            decreases x.decrease()->0,
        {
            let ghost xs = x.remaining();
            let ghost ys = y.remaining();
            match (x.next(), y.next()) {
                (Some(c), Some(d)) => {
                    if c != d {
                        return c < d;
                    }
                    proof {
                        code_points_drop_first(xs);
                        code_points_drop_first(ys);
                    }
                },
                (None, Some(_)) => {
                    return true;
                },
                _ => {
                    return false;
                },
            }
        }
    }
}

proof fn prefix_drop_first(text: Seq<char>, head: Seq<char>)
    requires
        text.len() > 0,
        head.len() > 0,
        text[0] == head[0],
    ensures
        head.is_prefix_of(text) == head.drop_first().is_prefix_of(text.drop_first()),
{
    let xs = text.drop_first();
    let ys = head.drop_first();
    if head.is_prefix_of(text) {
        assert(ys =~= xs.subrange(0, ys.len() as int));
    }
    if ys.is_prefix_of(xs) {
        assert forall|i: int| 0 <= i < head.len() implies head[i] == text[i] by {
            if i > 0 {
                assert(ys[i - 1] == xs.subrange(0, ys.len() as int)[i - 1]);
            }
        }
        assert(head =~= text.subrange(0, head.len() as int));
    }
}

proof fn prefix_first(text: Seq<char>, head: Seq<char>)
    requires
        text.len() > 0,
        head.len() > 0,
        text[0] != head[0],
    ensures
        !head.is_prefix_of(text),
{
    if head.is_prefix_of(text) {
        assert(head[0] == text.subrange(0, head.len() as int)[0]);
    }
}

/// Whether `text` begins with `head`.
pub fn starts_with(text: &str, head: &str) -> (r: bool)
    ensures
        r == head@.is_prefix_of(text@),
{
    let mut x = text.chars();
    let mut y = head.chars();
    loop
        invariant
            head@.is_prefix_of(text@) == y.remaining().is_prefix_of(x.remaining()),
            y.decrease() is Some,
        decreases y.decrease()->0,
    {
        let ghost xs = x.remaining();
        let ghost ys = y.remaining();
        match y.next() {
            None => {
                return true;
            },
            Some(d) => match x.next() {
                None => {
                    return false;
                },
                Some(c) => {
                    if c != d {
                        proof {
                            prefix_first(xs, ys);
                        }
                        return false;
                    }
                    proof {
                        prefix_drop_first(xs, ys);
                    }
                },
            },
        }
    }
}

/// The characters of a text, as a vector.
pub fn chars_of(text: &str) -> (r: Vec<char>)
    ensures
        r@ == text@,
{
    let mut out: Vec<char> = Vec::new();
    let mut x = text.chars();
    loop
        invariant
            out@ + x.remaining() == text@,
            x.decrease() is Some,
        decreases x.decrease()->0,
    {
        let ghost xs = x.remaining();
        let ghost before = out@;
        match x.next() {
            None => {
                assert(before + xs =~= before);
                return out;
            },
            Some(c) => {
                out.push(c);
                assert(out@ + xs.drop_first() =~= before + xs);
            },
        }
    }
}

/// A decimal digit.
pub open spec fn is_digit(c: char) -> bool {
    '0' <= c <= '9'
}

/// A number written in decimal digits, with at least one digit.
pub open spec fn is_decimal(text: Seq<char>) -> bool {
    text.len() > 0 && forall|i: int| 0 <= i < text.len() ==> is_digit(#[trigger] text[i])
}

/// The value of a row of decimal digits.
pub open spec fn decimal_value(digits: Seq<char>) -> nat
    decreases digits.len(),
{
    if digits.len() == 0 {
        0
    } else {
        decimal_value(digits.drop_last()) * 10 + (digits.last() as int - '0' as int) as nat
    }
}

/// The unsigned number that a text spells: decimal digits, with or without a
/// leading plus sign, and no more than `max`.
pub open spec fn unsigned(text: Seq<char>, max: nat) -> Option<nat> {
    let digits = if text.len() > 0 && text[0] == '+' {
        text.drop_first()
    } else {
        text
    };
    if is_decimal(digits) && decimal_value(digits) <= max {
        Some(decimal_value(digits))
    } else {
        None
    }
}

/// More digits never make the value smaller.
proof fn decimal_value_grows(digits: Seq<char>, n: int)
    requires
        0 <= n <= digits.len(),
        is_decimal(digits),
    ensures
        decimal_value(digits.take(n)) <= decimal_value(digits),
    decreases digits.len() - n,
{
    if n == digits.len() {
        assert(digits.take(n) =~= digits);
    } else {
        decimal_value_grows(digits, n + 1);
        assert(digits.take(n + 1).drop_last() =~= digits.take(n));
        assert(is_digit(digits[n]));
    }
}

/// Read an unsigned decimal number of at most `max`.
pub fn parse_unsigned(text: &str, max: u64) -> (r: Option<u64>)
    requires
        max <= u32::MAX,
    ensures
        match r {
            Some(n) => unsigned(text@, max as nat) == Some(n as nat),
            None => unsigned(text@, max as nat) is None,
        },
{
    let chars = chars_of(text);
    let start: usize = if chars.len() > 0 && chars[0] == '+' {
        1
    } else {
        0
    };
    let ghost digits = if start == 1 {
        text@.drop_first()
    } else {
        text@
    };
    assert(digits =~= chars@.skip(start as int));
    if chars.len() == start {
        return None;
    }
    let mut value: u64 = 0;
    let mut i: usize = start;
    while i < chars.len()
        invariant
            start <= i <= chars@.len(),
            start < chars@.len(),
            max <= u32::MAX,
            value <= max,
            digits == chars@.skip(start as int),
            digits.len() == chars@.len() - start,
            value == decimal_value(digits.take(i - start)),
            forall|j: int| 0 <= j < i - start ==> is_digit(#[trigger] digits[j]),
            unsigned(text@, max as nat) == if is_decimal(digits) && decimal_value(digits) <= max {
                Some(decimal_value(digits))
            } else {
                None
            },
        decreases chars@.len() - i,
    {
        let c = chars[i];
        assert(digits[i - start] == c);
        if !('0' <= c && c <= '9') {
            assert(!is_digit(digits[i - start]));
            return None;
        }
        let digit: u64 = (c as u32 - '0' as u32) as u64;
        let next: u64 = value * 10 + digit;
        assert(digits.take(i + 1 - start).drop_last() =~= digits.take(i - start));
        assert(next == decimal_value(digits.take(i + 1 - start)));
        if next > max {
            proof {
                if is_decimal(digits) {
                    decimal_value_grows(digits, i + 1 - start);
                }
            }
            return None;
        }
        value = next;
        i += 1;
    }
    assert(digits.take(i - start) =~= digits);
    Some(value)
}

/// The value of a hexadecimal digit.
pub open spec fn hex_digit(c: char) -> Option<int> {
    if '0' <= c <= '9' {
        Some(c as int - '0' as int)
    } else if 'a' <= c <= 'f' {
        Some(c as int - 'a' as int + 10)
    } else if 'A' <= c <= 'F' {
        Some(c as int - 'A' as int + 10)
    } else {
        None
    }
}

/// The octet that one or two hexadecimal digits spell.
pub open spec fn hex_octet(text: Seq<char>) -> Option<int> {
    if text.len() == 1 {
        hex_digit(text[0])
    } else if text.len() == 2 && hex_digit(text[0]) is Some && hex_digit(text[1]) is Some {
        Some(hex_digit(text[0])->0 * 16 + hex_digit(text[1])->0)
    } else {
        None
    }
}

/// The place of the first `mark`, or the end of the text.
pub open spec fn place_of(text: Seq<char>, mark: char) -> int
    decreases text.len(),
{
    if text.len() == 0 || text[0] == mark {
        0
    } else {
        1 + place_of(text.drop_first(), mark)
    }
}

/// The octets of `n` colon-separated hexadecimal groups.
pub open spec fn hex_groups(text: Seq<char>, n: nat) -> Option<Seq<u8>>
    decreases n,
{
    let at = place_of(text, ':');
    let head = hex_octet(text.take(at));
    if n == 0 || head is None {
        None
    } else if n == 1 {
        if at == text.len() {
            Some(seq![head->0 as u8])
        } else {
            None
        }
    } else if at == text.len() {
        None
    } else {
        match hex_groups(text.skip(at + 1), (n - 1) as nat) {
            Some(rest) => Some(seq![head->0 as u8] + rest),
            None => None,
        }
    }
}

/// The MAC address that a text spells: six colon-separated octets in hexadecimal.
pub open spec fn mac_address(text: Seq<char>) -> Option<Seq<u8>> {
    hex_groups(text, 6)
}

fn read_hex_digit(c: char) -> (r: Option<u8>)
    ensures
        match r {
            Some(d) => hex_digit(c) == Some(d as int) && d < 16,
            None => hex_digit(c) is None,
        },
{
    if '0' <= c && c <= '9' {
        Some((c as u32 - '0' as u32) as u8)
    } else if 'a' <= c && c <= 'f' {
        Some((c as u32 - 'a' as u32) as u8 + 10)
    } else if 'A' <= c && c <= 'F' {
        Some((c as u32 - 'A' as u32) as u8 + 10)
    } else {
        None
    }
}

/// Read `n` colon-separated hexadecimal groups from `from` on.
fn read_hex_groups(chars: &Vec<char>, from: usize, n: usize) -> (r: Option<Vec<u8>>)
    requires
        from <= chars@.len(),
    ensures
        match r {
            Some(v) => {
                &&& v@.len() == n
                &&& hex_groups(chars@.skip(from as int), n as nat) == Some(v@)
            },
            None => hex_groups(chars@.skip(from as int), n as nat) is None,
        },
    decreases n,
{
    let ghost text = chars@.skip(from as int);
    let mut at: usize = from;
    while at < chars.len() && chars[at] != ':'
        invariant
            from <= at <= chars@.len(),
            text == chars@.skip(from as int),
            place_of(text, ':') == at - from + place_of(chars@.skip(at as int), ':'),
        decreases chars@.len() - at,
    {
        assert(chars@.skip(at as int).drop_first() =~= chars@.skip(at + 1));
        at += 1;
    }
    let ghost head = text.take(at - from);
    if n == 0 {
        return None;
    }
    let octet: u8;
    if at - from == 1 {
        assert(head[0] == chars@[from as int]);
        match read_hex_digit(chars[from]) {
            None => {
                return None;
            },
            Some(d) => {
                octet = d;
            },
        }
    } else if at - from == 2 {
        assert(head[0] == chars@[from as int] && head[1] == chars@[from + 1]);
        match (read_hex_digit(chars[from]), read_hex_digit(chars[from + 1])) {
            (Some(d), Some(e)) => {
                octet = d * 16 + e;
            },
            _ => {
                return None;
            },
        }
    } else {
        return None;
    }
    if n == 1 {
        if at == chars.len() {
            let mut v: Vec<u8> = Vec::new();
            v.push(octet);
            assert(seq![octet] =~= v@);
            return Some(v);
        }
        return None;
    }
    if at == chars.len() {
        return None;
    }
    assert(text.skip(at - from + 1) =~= chars@.skip(at + 1));
    match read_hex_groups(chars, at + 1, n - 1) {
        None => None,
        Some(rest) => {
            let mut v: Vec<u8> = rest;
            v.insert(0, octet);
            assert(seq![octet] + rest@ =~= v@);
            Some(v)
        },
    }
}

/// Read a MAC address.
pub fn parse_mac(text: &str) -> (r: Option<[u8; 6]>)
    ensures
        r.deep_view() == mac_address(text@),
{
    let chars = chars_of(text);
    assert(chars@.skip(0) =~= text@);
    match read_hex_groups(&chars, 0, 6) {
        None => None,
        Some(v) => {
            let mac: [u8; 6] = [v[0], v[1], v[2], v[3], v[4], v[5]];
            assert(mac.deep_view() =~= v@);
            Some(mac)
        },
    }
}

} // verus!
