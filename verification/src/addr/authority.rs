//! Reading an address out of an authority: the text that a request names its
//! destination by.
//!
//! An authority is a host, or a host, a colon and a port. The host is an IPv4
//! address in dotted decimal, an IPv6 address in square brackets, or a DNS
//! name: labels of letters, digits, hyphens and underscores, separated by
//! dots, each of 1 to 63 characters, 253 characters at most in all, with or
//! without a closing dot. Names are taken in lower case. An IPv6 address is
//! eight groups of one to four hexadecimal digits with colons between them,
//! where one run of zero groups may be left out and written as two colons. A
//! port is a decimal number up to 65535. Anything else is no address.

use crate::addr::{Addr, IpAddr, NameAddr, SocketAddr};
use vstd::prelude::*;
use vstd::string::*;

verus! {

/// The port that an authority without a port stands for.
pub const DEFAULT_PORT: u16 = 80;

/// The bytes of a text that is all ASCII.
pub open spec fn bytes(text: Seq<char>) -> Seq<u8> {
    Seq::new(text.len(), |i: int| text[i] as u8)
}

pub open spec fn is_digit(b: u8) -> bool {
    48 <= b <= 57
}

pub open spec fn all_digits(s: Seq<u8>) -> bool {
    forall|i: int| 0 <= i < s.len() ==> is_digit(#[trigger] s[i])
}

/// The number that a run of decimal digits writes.
pub open spec fn decimal(digits: Seq<u8>) -> nat
    decreases digits.len(),
{
    if digits.len() == 0 {
        0
    } else {
        (10 * decimal(digits.drop_last()) + (digits.last() - 48)) as nat
    }
}

/// The number that `s` writes in decimal, if it writes one that is no more
/// than `max`.
pub open spec fn number_of(s: Seq<u8>, max: nat) -> Option<nat> {
    if s.len() > 0 && all_digits(s) && decimal(s) <= max {
        Some(decimal(s))
    } else {
        None
    }
}

/// The octet that `s` writes: one to three digits without a leading zero.
pub open spec fn octet_of(s: Seq<u8>) -> Option<nat> {
    if 1 <= s.len() <= 3 && (s.len() == 1 || s[0] != 48) {
        number_of(s, 255)
    } else {
        None
    }
}

/// Whether `i` is the first place at or behind `from` where `b` stands.
pub open spec fn is_first(s: Seq<u8>, from: int, b: u8, i: int) -> bool {
    &&& from <= i < s.len()
    &&& s[i] == b
    &&& forall|j: int| from <= j < i ==> s[j] != b
}

/// The first place at or behind `from` where `b` stands, or the length of
/// `s` if it stands nowhere there.
pub open spec fn find(s: Seq<u8>, from: int, b: u8) -> int {
    if exists|i: int| is_first(s, from, b, i) {
        choose|i: int| is_first(s, from, b, i)
    } else {
        s.len() as int
    }
}

/// Whether `i` is the last place where `b` stands.
pub open spec fn is_last(s: Seq<u8>, b: u8, i: int) -> bool {
    &&& 0 <= i < s.len()
    &&& s[i] == b
    &&& forall|j: int| i < j < s.len() ==> s[j] != b
}

/// The last place where `b` stands, or -1 if it stands nowhere.
pub open spec fn rfind(s: Seq<u8>, b: u8) -> int {
    if exists|i: int| is_last(s, b, i) {
        choose|i: int| is_last(s, b, i)
    } else {
        -1
    }
}

/// The IPv4 address that `s` writes in dotted decimal: four octets with
/// three dots between them.
pub open spec fn ipv4_of(s: Seq<u8>) -> Option<nat> {
    let a = find(s, 0, 46);
    let b = find(s, a + 1, 46);
    let c = find(s, b + 1, 46);
    let d = find(s, c + 1, 46);
    if a < s.len() && b < s.len() && c < s.len() && d >= s.len() {
        match (
            octet_of(s.subrange(0, a)),
            octet_of(s.subrange(a + 1, b)),
            octet_of(s.subrange(b + 1, c)),
            octet_of(s.subrange(c + 1, s.len() as int)),
        ) {
            (Some(w), Some(x), Some(y), Some(z)) => Some(((w * 256 + x) * 256 + y) * 256 + z),
            _ => None,
        }
    } else {
        None
    }
}

/// The value of a hexadecimal digit, or 16 for what is none.
pub open spec fn hex_value(b: u8) -> nat {
    if 48 <= b <= 57 {
        (b - 48) as nat
    } else if 65 <= b <= 70 {
        (b - 55) as nat
    } else if 97 <= b <= 102 {
        (b - 87) as nat
    } else {
        16
    }
}

pub open spec fn all_hex(s: Seq<u8>) -> bool {
    forall|i: int| 0 <= i < s.len() ==> hex_value(#[trigger] s[i]) < 16
}

/// The number that a run of hexadecimal digits writes.
pub open spec fn hexadecimal(digits: Seq<u8>) -> nat
    decreases digits.len(),
{
    if digits.len() == 0 {
        0
    } else {
        16 * hexadecimal(digits.drop_last()) + hex_value(digits.last())
    }
}

/// The group that `s` writes: one to four hexadecimal digits.
pub open spec fn group_of(s: Seq<u8>) -> Option<u16> {
    if 1 <= s.len() <= 4 && all_hex(s) && hexadecimal(s) <= u16::MAX {
        Some(hexadecimal(s) as u16)
    } else {
        None
    }
}

/// Both lists, one behind the other, where both are there.
pub open spec fn joined(front: Option<Seq<u16>>, back: Option<Seq<u16>>) -> Option<Seq<u16>> {
    match (front, back) {
        (Some(front), Some(back)) => Some(front + back),
        _ => None,
    }
}

/// The groups that `s` writes with single colons between them.
pub open spec fn groups_of(s: Seq<u8>) -> Option<Seq<u16>>
    decreases s.len(),
{
    let colon = find(s, 0, 58);
    if 0 <= colon < s.len() {
        match group_of(s.subrange(0, colon)) {
            Some(group) => joined(Some(seq![group]), groups_of(s.subrange(colon + 1, s.len() as int))),
            None => None,
        }
    } else {
        match group_of(s) {
            Some(group) => Some(seq![group]),
            None => None,
        }
    }
}

/// Whether `i` is the first place where two colons stand side by side.
pub open spec fn is_first_gap(s: Seq<u8>, i: int) -> bool {
    &&& 0 <= i && i + 1 < s.len()
    &&& s[i] == 58 && s[i + 1] == 58
    &&& forall|j: int| 0 <= j < i ==> !(s[j] == 58 && #[trigger] s[j + 1] == 58)
}

/// The first place where two colons stand side by side, or -1.
pub open spec fn find_gap(s: Seq<u8>) -> int {
    if exists|i: int| is_first_gap(s, i) {
        choose|i: int| is_first_gap(s, i)
    } else {
        -1
    }
}

/// The groups on one side of the two colons: none where nothing stands
/// there.
pub open spec fn side_of(s: Seq<u8>) -> Option<Seq<u16>> {
    if s.len() == 0 {
        Some(Seq::empty())
    } else {
        groups_of(s)
    }
}

/// The eight groups of the IPv6 address that `s` writes.
pub open spec fn segments_of(s: Seq<u8>) -> Option<Seq<u16>> {
    let gap = find_gap(s);
    if gap < 0 {
        match groups_of(s) {
            Some(groups) => if groups.len() == 8 {
                Some(groups)
            } else {
                None
            },
            None => None,
        }
    } else {
        match (side_of(s.subrange(0, gap)), side_of(s.subrange(gap + 2, s.len() as int))) {
            (Some(left), Some(right)) => if left.len() + right.len() <= 7 {
                Some(left + Seq::new((8 - left.len() - right.len()) as nat, |i: int| 0u16) + right)
            } else {
                None
            },
            _ => None,
        }
    }
}

/// The number that groups of 16 bits make, the first group highest.
pub open spec fn bits_of(groups: Seq<u16>) -> nat
    decreases groups.len(),
{
    if groups.len() == 0 {
        0
    } else {
        (bits_of(groups.drop_last()) * 65536 + groups.last()) as nat
    }
}

/// The IPv6 address that `s` writes.
pub open spec fn ipv6_of(s: Seq<u8>) -> Option<nat> {
    match segments_of(s) {
        Some(groups) => Some(bits_of(groups)),
        None => None,
    }
}

/// A letter, a digit, a hyphen or an underscore.
pub open spec fn is_label_byte(b: u8) -> bool {
    ||| 48 <= b <= 57
    ||| 65 <= b <= 90
    ||| 97 <= b <= 122
    ||| b == 45
    ||| b == 95
}

/// Whether a label ends among the 64 places from `i` on: a dot stands there.
pub open spec fn label_ends_within(s: Seq<u8>, i: int) -> bool {
    exists|k: int| i <= k <= i + 63 && k < s.len() && #[trigger] s[k] == 46
}

/// Whether `s` is a DNS name.
pub open spec fn is_name(s: Seq<u8>) -> bool {
    &&& 1 <= s.len() <= 253
    &&& forall|i: int| 0 <= i < s.len() ==> is_label_byte(#[trigger] s[i]) || s[i] == 46
    &&& s[0] != 46
    &&& forall|i: int| 0 <= i && i + 1 < s.len() && #[trigger] s[i] == 46 ==> s[i + 1] != 46
    &&& forall|i: int| 0 <= i && i + 63 < s.len() ==> #[trigger] label_ends_within(s, i)
}

/// A character in lower case: a capital ASCII letter becomes the small one,
/// every other character stays.
pub open spec fn lower(c: char) -> char {
    if 'A' <= c <= 'Z' {
        ((c as u8) + 32) as char
    } else {
        c
    }
}

/// A text in lower case.
pub open spec fn lowered(text: Seq<char>) -> Seq<char> {
    Seq::new(text.len(), |i: int| lower(text[i]))
}

/// What an authority names.
pub enum Named {
    /// A socket address: an IPv4 address and a port.
    Socket(nat, u16),
    /// A socket address: an IPv6 address and a port.
    Socket6(nat, u16),
    /// A name, in lower case, and a port.
    Name(Seq<char>, u16),
}

/// What an authority in square brackets names: the brackets hold an IPv6
/// address, and behind them stands nothing, or a colon and a port.
pub open spec fn bracketed_of(s: Seq<u8>, default_port: u16) -> Option<Named> {
    let close = find(s, 0, 93);
    let rest = s.subrange(close + 1, s.len() as int);
    let port = if rest.len() == 0 {
        Some(default_port as nat)
    } else if rest[0] == 58 {
        number_of(rest.subrange(1, rest.len() as int), 65535)
    } else {
        None
    };
    if close < s.len() {
        match (ipv6_of(s.subrange(1, close)), port) {
            (Some(ip), Some(port)) => Some(Named::Socket6(ip, port as u16)),
            _ => None,
        }
    } else {
        None
    }
}

/// What the authority `text` names, with `default_port` where it gives no
/// port; `None` where it names nothing.
pub open spec fn authority_of(text: Seq<char>, default_port: u16) -> Option<Named> {
    let s = bytes(text);
    let colon = rfind(s, 58);
    let host = if colon < 0 {
        s
    } else {
        s.subrange(0, colon)
    };
    let port = if colon < 0 {
        Some(default_port as nat)
    } else {
        number_of(s.subrange(colon + 1, s.len() as int), 65535)
    };
    if !vstd::utf8::is_ascii_chars(text) {
        None
    } else if s.len() > 0 && s[0] == 91 {
        bracketed_of(s, default_port)
    } else {
        match port {
            None => None,
            Some(port) => match ipv4_of(host) {
                Some(ip) => Some(Named::Socket(ip, port as u16)),
                None => if is_name(host) {
                    Some(Named::Name(lowered(text.subrange(0, host.len() as int)), port as u16))
                } else {
                    None
                },
            },
        }
    }
}

/// `str::to_ascii_lowercase`: the text with every capital ASCII letter made
/// small.
#[verifier::external_body]
pub(crate) fn to_ascii_lowercase(text: &str) -> (lowercase: String)
    ensures
        lowercase@ == lowered(text@),
{
    text.to_ascii_lowercase()
}

/// A longer run of digits writes no smaller a number.
proof fn lemma_decimal_grows(s: Seq<u8>, n: int)
    requires
        0 <= n <= s.len(),
        all_digits(s),
    ensures
        decimal(s.take(n)) <= decimal(s),
    decreases s.len() - n,
{
    if n == s.len() {
        assert(s.take(n) =~= s);
    } else {
        lemma_decimal_grows(s, n + 1);
        assert(s.take(n + 1).drop_last() =~= s.take(n));
        assert(is_digit(s[n]));
    }
}

/// The number that an ASCII text writes, if it writes one up to `max`.
fn parse_number(text: &str, max: u32) -> (number: Option<u32>)
    requires
        text.is_ascii(),
        max <= 100000,
    ensures
        match number_of(bytes(text@), max as nat) {
            Some(n) => number == Some(n as u32),
            None => number.is_none(),
        },
{
    let n = text.unicode_len();
    if n == 0 {
        return None;
    }
    let ghost s = bytes(text@);
    let mut value: u32 = 0;
    let mut i: usize = 0;
    while i < n
        invariant
            text.is_ascii(),
            n == text@.len(),
            s == bytes(text@),
            i <= n,
            max <= 100000,
            all_digits(s.take(i as int)),
            value == decimal(s.take(i as int)),
            value <= max,
        decreases n - i,
    {
        let b = text.get_ascii(i);
        if b < 48 || b > 57 {
            proof {
                assert(s[i as int] == b);
                assert(!is_digit(s[i as int]));
            }
            return None;
        }
        let next = value * 10 + (b - 48) as u32;
        proof {
            assert(s.take(i + 1).drop_last() =~= s.take(i as int));
            assert(s.take(i + 1).last() == b);
            assert(next == decimal(s.take(i + 1)));
            assert forall|k: int| 0 <= k < i + 1 implies is_digit(#[trigger] s.take(i + 1)[k]) by {
                if k < i {
                    assert(s.take(i as int)[k] == s.take(i + 1)[k]);
                }
            }
        }
        if next > max {
            proof {
                if all_digits(s) {
                    lemma_decimal_grows(s, i + 1);
                }
            }
            return None;
        }
        value = next;
        i += 1;
    }
    proof {
        assert(s.take(n as int) =~= s);
    }
    Some(value)
}

/// The octet that an ASCII text writes.
fn parse_octet(text: &str) -> (octet: Option<u32>)
    requires
        text.is_ascii(),
    ensures
        match octet_of(bytes(text@)) {
            Some(n) => octet == Some(n as u32),
            None => octet.is_none(),
        },
        octet matches Some(n) ==> n <= 255,
{
    let n = text.unicode_len();
    if n < 1 || n > 3 {
        return None;
    }
    if n > 1 && text.get_ascii(0) == 48 {
        return None;
    }
    parse_number(text, 255)
}

/// The first place at or behind `from` where `b` stands in an ASCII text.
fn find_byte(text: &str, from: usize, b: u8) -> (at: usize)
    requires
        text.is_ascii(),
    ensures
        at == find(bytes(text@), from as int, b),
        at <= text@.len(),
        at < text@.len() ==> from <= at && bytes(text@)[at as int] == b,
{
    let n = text.unicode_len();
    let ghost s = bytes(text@);
    let mut i: usize = from;
    while i < n
        invariant
            text.is_ascii(),
            n == text@.len(),
            s == bytes(text@),
            from <= i,
            forall|j: int| from <= j < i && j < n ==> s[j] != b,
        decreases n - i,
    {
        if text.get_ascii(i) == b {
            proof {
                assert(is_first(s, from as int, b, i as int));
                let chosen = choose|k: int| is_first(s, from as int, b, k);
                assert(chosen == i);
            }
            return i;
        }
        i += 1;
    }
    proof {
        assert(!exists|k: int| is_first(s, from as int, b, k));
    }
    n
}

/// The last place where `b` stands in an ASCII text.
fn rfind_byte(text: &str, b: u8) -> (at: Option<usize>)
    requires
        text.is_ascii(),
    ensures
        match at {
            Some(i) => i == rfind(bytes(text@), b) && i < text@.len(),
            None => rfind(bytes(text@), b) == -1,
        },
{
    let n = text.unicode_len();
    let ghost s = bytes(text@);
    let mut i: usize = n;
    while i > 0
        invariant
            text.is_ascii(),
            n == text@.len(),
            s == bytes(text@),
            i <= n,
            forall|j: int| i <= j < n ==> s[j] != b,
        decreases i,
    {
        i -= 1;
        if text.get_ascii(i) == b {
            proof {
                assert(is_last(s, b, i as int));
                let chosen = choose|k: int| is_last(s, b, k);
                assert(chosen == i);
            }
            return Some(i);
        }
    }
    proof {
        assert(!exists|k: int| is_last(s, b, k));
    }
    None
}

/// The IPv4 address that an ASCII text writes.
fn parse_ipv4(text: &str) -> (ip: Option<u32>)
    requires
        text.is_ascii(),
    ensures
        match ipv4_of(bytes(text@)) {
            Some(n) => ip == Some(n as u32) && n <= u32::MAX,
            None => ip.is_none(),
        },
{
    let n = text.unicode_len();
    let ghost s = bytes(text@);
    let a = find_byte(text, 0, 46);
    if a >= n {
        return None;
    }
    let b = find_byte(text, a + 1, 46);
    if b >= n {
        return None;
    }
    let c = find_byte(text, b + 1, 46);
    if c >= n {
        return None;
    }
    let d = find_byte(text, c + 1, 46);
    if d < n {
        return None;
    }
    let first = text.substring_ascii(0, a);
    let second = text.substring_ascii(a + 1, b);
    let third = text.substring_ascii(b + 1, c);
    let fourth = text.substring_ascii(c + 1, n);
    proof {
        assert(bytes(first@) =~= s.subrange(0, a as int));
        assert(bytes(second@) =~= s.subrange(a + 1, b as int));
        assert(bytes(third@) =~= s.subrange(b + 1, c as int));
        assert(bytes(fourth@) =~= s.subrange(c + 1, s.len() as int));
    }
    let w = match parse_octet(first) {
        Some(w) => w,
        None => {
            return None;
        },
    };
    let x = match parse_octet(second) {
        Some(x) => x,
        None => {
            return None;
        },
    };
    let y = match parse_octet(third) {
        Some(y) => y,
        None => {
            return None;
        },
    };
    let z = match parse_octet(fourth) {
        Some(z) => z,
        None => {
            return None;
        },
    };
    Some(((w * 256 + x) * 256 + y) * 256 + z)
}

/// The group that an ASCII text writes.
fn parse_group(text: &str) -> (group: Option<u16>)
    requires
        text.is_ascii(),
    ensures
        group == group_of(bytes(text@)),
{
    let n = text.unicode_len();
    if n < 1 || n > 4 {
        return None;
    }
    let ghost s = bytes(text@);
    let mut value: u16 = 0;
    let mut i: usize = 0;
    while i < n
        invariant
            text.is_ascii(),
            n == text@.len(),
            s == bytes(text@),
            1 <= n <= 4,
            i <= n,
            all_hex(s.take(i as int)),
            value == hexadecimal(s.take(i as int)),
            i == 0 ==> value == 0,
            i == 1 ==> value < 16,
            i == 2 ==> value < 256,
            i == 3 ==> value < 4096,
        decreases n - i,
    {
        let b = text.get_ascii(i);
        let digit: u16 = if 48 <= b && b <= 57 {
            (b - 48) as u16
        } else if 65 <= b && b <= 70 {
            (b - 55) as u16
        } else if 97 <= b && b <= 102 {
            (b - 87) as u16
        } else {
            proof {
                assert(s[i as int] == b);
                assert(hex_value(s[i as int]) == 16);
            }
            return None;
        };
        proof {
            assert(s[i as int] == b);
            assert(digit == hex_value(b));
            assert(s.take(i + 1).drop_last() =~= s.take(i as int));
            assert(s.take(i + 1).last() == b);
            assert forall|k: int| 0 <= k < i + 1 implies hex_value(#[trigger] s.take(i + 1)[k])
                < 16 by {
                if k < i {
                    assert(s.take(i as int)[k] == s.take(i + 1)[k]);
                }
            }
        }
        value = value * 16 + digit;
        i += 1;
    }
    proof {
        assert(s.take(n as int) =~= s);
    }
    Some(value)
}

/// The groups that an ASCII text writes with single colons between them.
fn parse_groups(text: &str) -> (groups: Option<Vec<u16>>)
    requires
        text.is_ascii(),
    ensures
        match groups_of(bytes(text@)) {
            Some(wanted) => groups.is_some() && groups.unwrap()@ == wanted,
            None => groups.is_none(),
        },
{
    let ghost s = bytes(text@);
    let mut groups: Vec<u16> = Vec::new();
    let mut rest = text;
    proof {
        if groups_of(s).is_some() {
            assert(Seq::<u16>::empty() + groups_of(s).unwrap() =~= groups_of(s).unwrap());
        }
    }
    loop
        invariant
            rest.is_ascii(),
            s == bytes(text@),
            groups_of(s) == joined(Some(groups@), groups_of(bytes(rest@))),
        decreases rest@.len(),
    {
        let n = rest.unicode_len();
        let ghost r = bytes(rest@);
        let ghost before = groups@;
        let colon = find_byte(rest, 0, 58);
        if colon >= n {
            proof {
                assert(groups_of(r) == (match group_of(r) {
                    Some(group) => Some(seq![group]),
                    None => None,
                }));
            }
            match parse_group(rest) {
                Some(group) => {
                    groups.push(group);
                    proof {
                        assert(before + seq![group] =~= groups@);
                    }
                    return Some(groups);
                },
                None => {
                    return None;
                },
            }
        }
        proof {
            assert(groups_of(r) == (match group_of(r.subrange(0, colon as int)) {
                Some(group) => joined(
                    Some(seq![group]),
                    groups_of(r.subrange(colon + 1, r.len() as int)),
                ),
                None => None,
            }));
        }
        let first = rest.substring_ascii(0, colon);
        let tail = rest.substring_ascii(colon + 1, n);
        proof {
            assert(bytes(first@) =~= r.subrange(0, colon as int));
            assert(bytes(tail@) =~= r.subrange(colon + 1, r.len() as int));
        }
        match parse_group(first) {
            Some(group) => {
                groups.push(group);
                proof {
                    let behind = groups_of(bytes(tail@));
                    if behind.is_some() {
                        assert(before + (seq![group] + behind.unwrap()) =~= (before + seq![group])
                            + behind.unwrap());
                    }
                    assert(before + seq![group] =~= groups@);
                }
            },
            None => {
                return None;
            },
        }
        rest = tail;
    }
}

/// The first place where two colons stand side by side in an ASCII text.
fn find_gap_in(text: &str) -> (gap: Option<usize>)
    requires
        text.is_ascii(),
    ensures
        match gap {
            Some(i) => i == find_gap(bytes(text@)) && i + 1 < text@.len(),
            None => find_gap(bytes(text@)) == -1,
        },
{
    let n = text.unicode_len();
    let ghost s = bytes(text@);
    if n < 2 {
        proof {
            assert(!exists|k: int| is_first_gap(s, k));
        }
        return None;
    }
    let mut i: usize = 0;
    while i < n - 1
        invariant
            text.is_ascii(),
            n == text@.len(),
            n >= 2,
            s == bytes(text@),
            forall|j: int| 0 <= j < i && j + 1 < n ==> !(s[j] == 58 && #[trigger] s[j + 1] == 58),
        decreases n - i,
    {
        if text.get_ascii(i) == 58 && text.get_ascii(i + 1) == 58 {
            proof {
                assert(is_first_gap(s, i as int));
                let chosen = choose|k: int| is_first_gap(s, k);
                assert(chosen == i) by {
                    if chosen < i {
                        assert(!(s[chosen] == 58 && s[chosen + 1] == 58));
                    }
                    if i < chosen {
                        assert(!(s[i as int] == 58 && s[i + 1] == 58));
                    }
                }
            }
            return Some(i);
        }
        i += 1;
    }
    proof {
        assert(!exists|k: int| is_first_gap(s, k)) by {
            if exists|k: int| is_first_gap(s, k) {
                let k = choose|k: int| is_first_gap(s, k);
                assert(!(s[k] == 58 && s[k + 1] == 58));
            }
        }
    }
    None
}

/// The groups on one side of the two colons.
fn parse_side(text: &str) -> (groups: Option<Vec<u16>>)
    requires
        text.is_ascii(),
    ensures
        match side_of(bytes(text@)) {
            Some(wanted) => groups.is_some() && groups.unwrap()@ == wanted,
            None => groups.is_none(),
        },
{
    if text.unicode_len() == 0 {
        let none: Vec<u16> = Vec::new();
        proof {
            assert(none@ =~= Seq::<u16>::empty());
        }
        Some(none)
    } else {
        parse_groups(text)
    }
}

/// The eight groups of the IPv6 address that an ASCII text writes.
fn parse_segments(text: &str) -> (groups: Option<Vec<u16>>)
    requires
        text.is_ascii(),
    ensures
        match segments_of(bytes(text@)) {
            Some(wanted) => groups.is_some() && groups.unwrap()@ == wanted && wanted.len() == 8,
            None => groups.is_none(),
        },
{
    let n = text.unicode_len();
    let ghost s = bytes(text@);
    match find_gap_in(text) {
        None => match parse_groups(text) {
            Some(groups) => if groups.len() == 8 {
                Some(groups)
            } else {
                None
            },
            None => None,
        },
        Some(gap) => {
            let before = text.substring_ascii(0, gap);
            let behind = text.substring_ascii(gap + 2, n);
            proof {
                assert(bytes(before@) =~= s.subrange(0, gap as int));
                assert(bytes(behind@) =~= s.subrange(gap + 2, s.len() as int));
            }
            let left = match parse_side(before) {
                Some(left) => left,
                None => {
                    return None;
                },
            };
            let right = match parse_side(behind) {
                Some(right) => right,
                None => {
                    return None;
                },
            };
            if left.len() > 7 || right.len() > 7 - left.len() {
                return None;
            }
            let zeros = 8 - left.len() - right.len();
            let mut groups = left;
            let ghost front = groups@;
            let mut k: usize = 0;
            while k < zeros
                invariant
                    k <= zeros,
                    groups@ == front + Seq::new(k as nat, |i: int| 0u16),
                decreases zeros - k,
            {
                groups.push(0);
                proof {
                    assert(groups@ =~= front + Seq::new((k + 1) as nat, |i: int| 0u16));
                }
                k += 1;
            }
            let ghost middle = groups@;
            let mut j: usize = 0;
            while j < right.len()
                invariant
                    j <= right@.len(),
                    groups@ == middle + right@.take(j as int),
                decreases right@.len() - j,
            {
                groups.push(right[j]);
                proof {
                    assert(groups@ =~= middle + right@.take(j + 1));
                }
                j += 1;
            }
            proof {
                assert(right@.take(right@.len() as int) =~= right@);
            }
            Some(groups)
        },
    }
}

/// Eight groups make no more than 128 bits, and fewer make fewer.
proof fn lemma_bits_bounded(groups: Seq<u16>)
    requires
        groups.len() <= 8,
    ensures
        groups.len() == 0 ==> bits_of(groups) == 0,
        groups.len() == 1 ==> bits_of(groups) < 0x1_0000,
        groups.len() == 2 ==> bits_of(groups) < 0x1_0000_0000,
        groups.len() == 3 ==> bits_of(groups) < 0x1_0000_0000_0000,
        groups.len() == 4 ==> bits_of(groups) < 0x1_0000_0000_0000_0000,
        groups.len() == 5 ==> bits_of(groups) < 0x1_0000_0000_0000_0000_0000,
        groups.len() == 6 ==> bits_of(groups) < 0x1_0000_0000_0000_0000_0000_0000,
        groups.len() == 7 ==> bits_of(groups) < 0x1_0000_0000_0000_0000_0000_0000_0000,
        groups.len() == 8 ==> bits_of(groups) <= u128::MAX,
    decreases groups.len(),
{
    if groups.len() > 0 {
        lemma_bits_bounded(groups.drop_last());
    }
}

/// The number that groups of 16 bits make.
fn to_bits(groups: &Vec<u16>) -> (bits: u128)
    requires
        groups@.len() == 8,
    ensures
        bits == bits_of(groups@),
{
    let mut bits: u128 = 0;
    let mut i: usize = 0;
    while i < 8
        invariant
            groups@.len() == 8,
            i <= 8,
            bits == bits_of(groups@.take(i as int)),
        decreases 8 - i,
    {
        proof {
            lemma_bits_bounded(groups@.take(i as int));
            lemma_bits_bounded(groups@.take(i + 1));
            assert(groups@.take(i + 1).drop_last() =~= groups@.take(i as int));
        }
        bits = bits * 65536 + groups[i] as u128;
        i += 1;
    }
    proof {
        assert(groups@.take(8) =~= groups@);
    }
    bits
}

/// The IPv6 address that an ASCII text writes.
fn parse_ipv6(text: &str) -> (ip: Option<u128>)
    requires
        text.is_ascii(),
    ensures
        match ipv6_of(bytes(text@)) {
            Some(n) => ip == Some(n as u128) && n <= u128::MAX,
            None => ip.is_none(),
        },
{
    match parse_segments(text) {
        Some(groups) => {
            proof {
                lemma_bits_bounded(groups@);
            }
            Some(to_bits(&groups))
        },
        None => None,
    }
}

/// What an ASCII text in square brackets names.
fn parse_bracketed(text: &str, default_port: u16) -> (addr: Option<Addr>)
    requires
        text.is_ascii(),
        text@.len() > 0,
        bytes(text@)[0] == 91,
    ensures
        match bracketed_of(bytes(text@), default_port) {
            Some(Named::Socket6(ip, port)) => addr == Some(
                Addr::Socket(SocketAddr { ip: IpAddr::V6(ip as u128), port }),
            ),
            _ => addr.is_none(),
        },
{
    let n = text.unicode_len();
    let ghost s = bytes(text@);
    let close = find_byte(text, 0, 93);
    if close >= n {
        return None;
    }
    let inside = text.substring_ascii(1, close);
    let rest = text.substring_ascii(close + 1, n);
    proof {
        assert(bytes(inside@) =~= s.subrange(1, close as int));
        assert(bytes(rest@) =~= s.subrange(close + 1, s.len() as int));
    }
    let port = if rest.unicode_len() == 0 {
        default_port
    } else if rest.get_ascii(0) == 58 {
        let digits = rest.substring_ascii(1, rest.unicode_len());
        proof {
            assert(bytes(digits@) =~= bytes(rest@).subrange(1, bytes(rest@).len() as int));
        }
        match parse_number(digits, 65535) {
            Some(port) => port as u16,
            None => {
                return None;
            },
        }
    } else {
        return None;
    };
    match parse_ipv6(inside) {
        Some(ip) => Some(Addr::Socket(SocketAddr::new(IpAddr::V6(ip), port))),
        None => None,
    }
}

/// Whether an ASCII text is a DNS name.
pub fn is_dns_name(text: &str) -> (valid: bool)
    requires
        text.is_ascii(),
    ensures
        valid == is_name(bytes(text@)),
{
    let n = text.unicode_len();
    if n < 1 || n > 253 {
        return false;
    }
    let ghost s = bytes(text@);
    let mut run: usize = 0;
    let mut i: usize = 0;
    while i < n
        invariant
            text.is_ascii(),
            n == text@.len(),
            s == bytes(text@),
            1 <= n <= 253,
            i <= n,
            run <= 63,
            run <= i,
            forall|k: int| 0 <= k < i ==> is_label_byte(#[trigger] s[k]) || s[k] == 46,
            i > 0 ==> s[0] != 46,
            forall|k: int| 0 <= k && k + 1 < i && #[trigger] s[k] == 46 ==> s[k + 1] != 46,
            forall|k: int| i - run <= k < i ==> s[k] != 46,
            run < i ==> s[i - run - 1] == 46,
            forall|w: int| 0 <= w && w + 63 < i ==> #[trigger] label_ends_within(s, w),
        decreases n - i,
    {
        let b = text.get_ascii(i);
        proof {
            assert(s[i as int] == b);
        }
        if b == 46 {
            if run == 0 {
                proof {
                    if i > 0 {
                        assert(s[i - 1] == 46);
                    }
                }
                return false;
            }
            run = 0;
        } else if (48 <= b && b <= 57) || (65 <= b && b <= 90) || (97 <= b && b <= 122) || b == 45
            || b == 95 {
            if run == 63 {
                proof {
                    assert(!label_ends_within(s, i - 63));
                }
                return false;
            }
            run = run + 1;
        } else {
            return false;
        }
        proof {
            assert forall|w: int| 0 <= w && w + 63 < i + 1 implies #[trigger] label_ends_within(
                s,
                w,
            ) by {
                if w + 63 == i {
                    if b == 46 {
                        assert(s[i as int] == 46);
                    } else {
                        assert(s[i + 1 - run - 1] == 46);
                    }
                }
            }
        }
        i += 1;
    }
    true
}

/// The address that an authority names, with `default_port` where the
/// authority gives no port; `None` where it names none.
pub fn from_authority_and_default_port(text: &str, default_port: u16) -> (addr: Option<Addr>)
    ensures
        match authority_of(text@, default_port) {
            None => addr.is_none(),
            Some(Named::Socket(ip, port)) => addr == Some(
                Addr::Socket(SocketAddr { ip: IpAddr::V4(ip as u32), port }),
            ),
            Some(Named::Socket6(ip, port)) => addr == Some(
                Addr::Socket(SocketAddr { ip: IpAddr::V6(ip as u128), port }),
            ),
            Some(Named::Name(name, port)) => {
                &&& addr matches Some(Addr::Name(n))
                &&& addr->Some_0->Name_0.name@ == name
                &&& addr->Some_0->Name_0.port == port
            },
        },
{
    if !text.is_ascii() {
        return None;
    }
    let n = text.unicode_len();
    let ghost s = bytes(text@);
    if n > 0 && text.get_ascii(0) == 91 {
        return parse_bracketed(text, default_port);
    }
    let (host, port) = match rfind_byte(text, 58) {
        None => (text, default_port),
        Some(colon) => {
            let digits = text.substring_ascii(colon + 1, n);
            proof {
                assert(bytes(digits@) =~= s.subrange(colon + 1, s.len() as int));
            }
            let port = match parse_number(digits, 65535) {
                Some(port) => port as u16,
                None => {
                    return None;
                },
            };
            let host = text.substring_ascii(0, colon);
            proof {
                assert(bytes(host@) =~= s.subrange(0, colon as int));
            }
            (host, port)
        },
    };
    proof {
        assert(host@ =~= text@.subrange(0, host@.len() as int));
    }
    match parse_ipv4(host) {
        Some(ip) => Some(Addr::Socket(SocketAddr::new(IpAddr::V4(ip), port))),
        None => if is_dns_name(host) {
            Some(Addr::Name(NameAddr::new(to_ascii_lowercase(host), port)))
        } else {
            None
        },
    }
}

} // verus!
