//! Typed IPv4, socket and hardware (MAC) addresses: the textual notations
//! each one accepts, parsers proved to accept exactly those notations, and
//! the canonical textual rendering used on the wire and in reports.
use vstd::prelude::*;

verus! {

use vstd::string::StrSliceExecFns;
use vstd::string::StringExecFns;
use crate::text::is_dec_text;
use crate::text::dec_val;
use crate::text::dec_text;
use crate::text::is_hex_digit;
use crate::text::hex_val;
use crate::text::hex_byte_text;
use crate::text::u128_to_dec;
use crate::text::parse_dec_bounded;
use crate::text::push_char;
use crate::text::append_hex_byte;

/// An IPv4 address, one field per octet.
#[derive(Clone, Copy, PartialEq, Eq, Structural, Debug)]
pub struct Ipv4Address {
    pub o0: u8,
    pub o1: u8,
    pub o2: u8,
    pub o3: u8,
}

/// An IPv4 socket address: host and port.
#[derive(Clone, Copy, PartialEq, Eq, Structural, Debug)]
pub struct SocketAddressV4 {
    pub ip: Ipv4Address,
    pub port: u16,
}

/// A 48-bit hardware (MAC) address, one field per byte.
#[derive(Clone, Copy, PartialEq, Eq, Structural, Debug)]
pub struct MacAddress {
    pub b0: u8,
    pub b1: u8,
    pub b2: u8,
    pub b3: u8,
    pub b4: u8,
    pub b5: u8,
}

/// Dotted-decimal rendering of an IPv4 address.
pub open spec fn ip_text(ip: Ipv4Address) -> Seq<char> {
    dec_text(ip.o0 as nat) + "."@ + dec_text(ip.o1 as nat) + "."@ + dec_text(ip.o2 as nat) + "."@
        + dec_text(ip.o3 as nat)
}

/// `ip:port` rendering of a socket address.
pub open spec fn sockaddr_text(a: SocketAddressV4) -> Seq<char> {
    ip_text(a.ip) + ":"@ + dec_text(a.port as nat)
}

/// Colon-separated lowercase hexadecimal rendering of a hardware address.
pub open spec fn mac_text(m: MacAddress) -> Seq<char> {
    hex_byte_text(m.b0) + ":"@ + hex_byte_text(m.b1) + ":"@ + hex_byte_text(m.b2) + ":"@
        + hex_byte_text(m.b3) + ":"@ + hex_byte_text(m.b4) + ":"@ + hex_byte_text(m.b5)
}

/// First position at or after `from` holding `c`, or the length of `s`.
pub open spec fn find_from(s: Seq<char>, c: char, from: int) -> int
    recommends
        0 <= from,
    decreases s.len() - from,
{
    if from < 0 || from >= s.len() {
        s.len() as int
    } else if s[from] == c {
        from
    } else {
        find_from(s, c, from + 1)
    }
}

/// One decimal octet of a dotted address: digits only, at most 255, and no
/// leading zero.
pub open spec fn is_octet_text(t: Seq<char>) -> bool {
    &&& is_dec_text(t)
    &&& dec_val(t) <= 255
    &&& t.len() > 1 ==> t[0] != '0'
}

/// Dotted-decimal IPv4 notation: four octets separated by single dots.
/// The three separator positions are fixed by the text itself: each is the
/// first dot after the octet before it, and no dot may follow the last octet.
pub open spec fn is_ipv4_text(s: Seq<char>) -> bool {
    let p1 = find_from(s, '.', 0);
    let p2 = find_from(s, '.', p1 + 1);
    let p3 = find_from(s, '.', p2 + 1);
    &&& p3 < s.len()
    &&& find_from(s, '.', p3 + 1) == s.len()
    &&& is_octet_text(s.subrange(0, p1))
    &&& is_octet_text(s.subrange(p1 + 1, p2))
    &&& is_octet_text(s.subrange(p2 + 1, p3))
    &&& is_octet_text(s.subrange(p3 + 1, s.len() as int))
}

/// The address value written by a dotted-decimal IPv4 text.
pub open spec fn ipv4_of_text(s: Seq<char>) -> Ipv4Address
    recommends
        is_ipv4_text(s),
{
    let p1 = find_from(s, '.', 0);
    let p2 = find_from(s, '.', p1 + 1);
    let p3 = find_from(s, '.', p2 + 1);
    Ipv4Address {
        o0: dec_val(s.subrange(0, p1)) as u8,
        o1: dec_val(s.subrange(p1 + 1, p2)) as u8,
        o2: dec_val(s.subrange(p2 + 1, p3)) as u8,
        o3: dec_val(s.subrange(p3 + 1, s.len() as int)) as u8,
    }
}

/// The decimal port of a socket address text: digits only, at most 65535,
/// no leading zero.
pub open spec fn is_port_text(t: Seq<char>) -> bool {
    &&& is_dec_text(t)
    &&& dec_val(t) <= 65535
    &&& t.len() > 1 ==> t[0] != '0'
}

/// `ip:port` notation: a dotted-decimal IPv4 address, one colon, a port.
pub open spec fn is_sockaddr_text(s: Seq<char>) -> bool {
    let q = find_from(s, ':', 0);
    &&& q < s.len()
    &&& is_ipv4_text(s.subrange(0, q))
    &&& is_port_text(s.subrange(q + 1, s.len() as int))
}

/// The socket address written by an `ip:port` text.
pub open spec fn sockaddr_of_text(s: Seq<char>) -> SocketAddressV4
    recommends
        is_sockaddr_text(s),
{
    let q = find_from(s, ':', 0);
    SocketAddressV4 {
        ip: ipv4_of_text(s.subrange(0, q)),
        port: dec_val(s.subrange(q + 1, s.len() as int)) as u16,
    }
}

/// Finds the first position at or after `from` holding `c`.
fn find_char(s: &str, c: char, from: usize) -> (p: usize)
    requires
        from <= s@.len(),
    ensures
        p == find_from(s@, c, from as int),
        from <= p <= s@.len(),
{
    let len = s.unicode_len();
    let mut i: usize = from;
    while i < len
        invariant
            from <= i <= len,
            len == s@.len(),
            find_from(s@, c, from as int) == find_from(s@, c, i as int),
        decreases len - i,
    {
        if s.get_char(i) == c {
            return i;
        }
        i = i + 1;
    }
    i
}

/// Parses one decimal octet.
fn parse_octet(t: &str) -> (r: Option<u8>)
    ensures
        r is Some <==> is_octet_text(t@),
        r is Some ==> r->0 == dec_val(t@),
{
    match parse_dec_bounded(t, 255) {
        Some(v) => {
            if t.unicode_len() > 1 && t.get_char(0) == '0' {
                None
            } else {
                Some(v as u8)
            }
        },
        None => None,
    }
}

/// Parses a dotted-decimal IPv4 address, and nothing else.
pub fn parse_ipv4_address(s: &str) -> (r: Option<Ipv4Address>)
    ensures
        r is Some <==> is_ipv4_text(s@),
        r is Some ==> r->0 == ipv4_of_text(s@),
{
    let len = s.unicode_len();
    let p1 = find_char(s, '.', 0);
    if p1 == len {
        return None;
    }
    let p2 = find_char(s, '.', p1 + 1);
    if p2 == len {
        return None;
    }
    let p3 = find_char(s, '.', p2 + 1);
    if p3 == len {
        return None;
    }
    let p4 = find_char(s, '.', p3 + 1);
    if p4 != len {
        return None;
    }
    let t0 = s.substring_char(0, p1);
    let t1 = s.substring_char(p1 + 1, p2);
    let t2 = s.substring_char(p2 + 1, p3);
    let t3 = s.substring_char(p3 + 1, len);
    let v0 = parse_octet(t0);
    let v1 = parse_octet(t1);
    let v2 = parse_octet(t2);
    let v3 = parse_octet(t3);
    match (v0, v1, v2, v3) {
        (Some(o0), Some(o1), Some(o2), Some(o3)) => Some(
            Ipv4Address { o0, o1, o2, o3 },
        ),
        _ => None,
    }
}

/// Parses a decimal port number.
fn parse_port(t: &str) -> (r: Option<u16>)
    ensures
        r is Some <==> is_port_text(t@),
        r is Some ==> r->0 == dec_val(t@),
{
    match parse_dec_bounded(t, 65535) {
        Some(v) => {
            if t.unicode_len() > 1 && t.get_char(0) == '0' {
                None
            } else {
                Some(v as u16)
            }
        },
        None => None,
    }
}

/// Parses an `ip:port` IPv4 socket address, and nothing else.
pub fn parse_socket_address(s: &str) -> (r: Option<SocketAddressV4>)
    ensures
        r is Some <==> is_sockaddr_text(s@),
        r is Some ==> r->0 == sockaddr_of_text(s@),
{
    let len = s.unicode_len();
    let q = find_char(s, ':', 0);
    if q == len {
        return None;
    }
    let ip_part = s.substring_char(0, q);
    let port_part = s.substring_char(q + 1, len);
    let ip = parse_ipv4_address(ip_part);
    let port = parse_port(port_part);
    match (ip, port) {
        (Some(ip), Some(port)) => Some(SocketAddressV4 { ip, port }),
        _ => None,
    }
}

impl Ipv4Address {
    /// Renders the address in dotted decimal.
    pub fn to_text(&self) -> (s: String)
        ensures
            s@ == ip_text(*self),
    {
        let mut s = u128_to_dec(self.o0 as u128);
        push_char(&mut s, '.');
        let t1 = u128_to_dec(self.o1 as u128);
        s.append(t1.as_str());
        push_char(&mut s, '.');
        let t2 = u128_to_dec(self.o2 as u128);
        s.append(t2.as_str());
        push_char(&mut s, '.');
        let t3 = u128_to_dec(self.o3 as u128);
        s.append(t3.as_str());
        proof {
            assert(seq!['.'] =~= "."@) by {
                reveal_strlit(".");
            }
            assert(s@ =~= ip_text(*self));
        }
        s
    }
}

impl SocketAddressV4 {
    /// Renders the address as `ip:port`.
    pub fn to_text(&self) -> (s: String)
        ensures
            s@ == sockaddr_text(*self),
    {
        let mut s = self.ip.to_text();
        push_char(&mut s, ':');
        let p = u128_to_dec(self.port as u128);
        s.append(p.as_str());
        proof {
            assert(seq![':'] =~= ":"@) by {
                reveal_strlit(":");
            }
            assert(s@ =~= sockaddr_text(*self));
        }
        s
    }
}

impl MacAddress {
    /// Renders the address as colon-separated lowercase hexadecimal pairs.
    pub fn to_text(&self) -> (s: String)
        ensures
            s@ == mac_text(*self),
    {
        let mut s = String::new();
        append_hex_byte(&mut s, self.b0);
        push_char(&mut s, ':');
        append_hex_byte(&mut s, self.b1);
        push_char(&mut s, ':');
        append_hex_byte(&mut s, self.b2);
        push_char(&mut s, ':');
        append_hex_byte(&mut s, self.b3);
        push_char(&mut s, ':');
        append_hex_byte(&mut s, self.b4);
        push_char(&mut s, ':');
        append_hex_byte(&mut s, self.b5);
        proof {
            assert(seq![':'] =~= ":"@) by {
                reveal_strlit(":");
            }
            assert(s@ =~= mac_text(*self));
        }
        s
    }
}

/// Hardware address notation with a repeated one-character separator:
/// six hexadecimal pairs at fixed positions.
pub open spec fn is_mac_sep_text(s: Seq<char>, sep: char) -> bool {
    &&& s.len() == 17
    &&& s[2] == sep && s[5] == sep && s[8] == sep && s[11] == sep && s[14] == sep
    &&& is_hex_digit(s[0]) && is_hex_digit(s[1])
    &&& is_hex_digit(s[3]) && is_hex_digit(s[4])
    &&& is_hex_digit(s[6]) && is_hex_digit(s[7])
    &&& is_hex_digit(s[9]) && is_hex_digit(s[10])
    &&& is_hex_digit(s[12]) && is_hex_digit(s[13])
    &&& is_hex_digit(s[15]) && is_hex_digit(s[16])
}

/// Hardware address notation of three four-digit groups separated by dots.
pub open spec fn is_mac_dot_text(s: Seq<char>) -> bool {
    &&& s.len() == 14
    &&& s[4] == '.' && s[9] == '.'
    &&& is_hex_digit(s[0]) && is_hex_digit(s[1]) && is_hex_digit(s[2]) && is_hex_digit(s[3])
    &&& is_hex_digit(s[5]) && is_hex_digit(s[6]) && is_hex_digit(s[7]) && is_hex_digit(s[8])
    &&& is_hex_digit(s[10]) && is_hex_digit(s[11]) && is_hex_digit(s[12]) && is_hex_digit(s[13])
}

/// The three accepted hardware address notations.
pub open spec fn is_mac_text(s: Seq<char>) -> bool {
    is_mac_sep_text(s, ':') || is_mac_sep_text(s, '-') || is_mac_dot_text(s)
}

/// The byte written by two hexadecimal digit characters.
pub open spec fn hex_pair_val(hi: char, lo: char) -> u8
    recommends
        is_hex_digit(hi),
        is_hex_digit(lo),
{
    (hex_val(hi) * 16 + hex_val(lo)) as u8
}

/// The address value written by a separator-form hardware address text.
pub open spec fn mac_of_sep_text(s: Seq<char>) -> MacAddress {
    MacAddress {
        b0: hex_pair_val(s[0], s[1]),
        b1: hex_pair_val(s[3], s[4]),
        b2: hex_pair_val(s[6], s[7]),
        b3: hex_pair_val(s[9], s[10]),
        b4: hex_pair_val(s[12], s[13]),
        b5: hex_pair_val(s[15], s[16]),
    }
}

/// The address value written by a dotted-group hardware address text.
pub open spec fn mac_of_dot_text(s: Seq<char>) -> MacAddress {
    MacAddress {
        b0: hex_pair_val(s[0], s[1]),
        b1: hex_pair_val(s[2], s[3]),
        b2: hex_pair_val(s[5], s[6]),
        b3: hex_pair_val(s[7], s[8]),
        b4: hex_pair_val(s[10], s[11]),
        b5: hex_pair_val(s[12], s[13]),
    }
}

/// The address value written by a hardware address text in any notation.
pub open spec fn mac_of_text(s: Seq<char>) -> MacAddress
    recommends
        is_mac_text(s),
{
    if is_mac_sep_text(s, ':') || is_mac_sep_text(s, '-') {
        mac_of_sep_text(s)
    } else {
        mac_of_dot_text(s)
    }
}

/// Value of one hexadecimal digit character.
fn hex_digit_val(c: char) -> (v: u8)
    requires
        is_hex_digit(c),
    ensures
        v == hex_val(c),
{
    if '0' <= c && c <= '9' {
        (c as u32 - 48) as u8
    } else if 'a' <= c && c <= 'f' {
        (c as u32 - 87) as u8
    } else {
        (c as u32 - 55) as u8
    }
}

/// Reads the hexadecimal pair at positions `i`, `i + 1`.
fn read_hex_pair(s: &str, i: usize) -> (r: Option<u8>)
    requires
        i + 1 < s@.len() <= usize::MAX,
    ensures
        r is Some <==> is_hex_digit(s@[i as int]) && is_hex_digit(s@[i + 1]),
        r is Some ==> r->0 == hex_pair_val(s@[i as int], s@[i + 1]),
{
    let hi = s.get_char(i);
    let lo = s.get_char(i + 1);
    let hi_ok = ('0' <= hi && hi <= '9') || ('a' <= hi && hi <= 'f') || ('A' <= hi && hi <= 'F');
    let lo_ok = ('0' <= lo && lo <= '9') || ('a' <= lo && lo <= 'f') || ('A' <= lo && lo <= 'F');
    if hi_ok && lo_ok {
        Some(hex_digit_val(hi) * 16 + hex_digit_val(lo))
    } else {
        None
    }
}

/// Parses the separator-form notation with the separator found in the text.
fn parse_mac_sep(s: &str, sep: char) -> (r: Option<MacAddress>)
    requires
        s@.len() == 17,
        sep == ':' || sep == '-',
        s@[2] == sep,
    ensures
        r is Some <==> is_mac_sep_text(s@, sep),
        r is Some ==> r->0 == mac_of_sep_text(s@),
{
    if s.get_char(5) != sep || s.get_char(8) != sep || s.get_char(11) != sep || s.get_char(14)
        != sep {
        return None;
    }
    let p0 = read_hex_pair(s, 0);
    let p1 = read_hex_pair(s, 3);
    let p2 = read_hex_pair(s, 6);
    let p3 = read_hex_pair(s, 9);
    let p4 = read_hex_pair(s, 12);
    let p5 = read_hex_pair(s, 15);
    match (p0, p1, p2, p3, p4, p5) {
        (Some(b0), Some(b1), Some(b2), Some(b3), Some(b4), Some(b5)) => Some(
            MacAddress { b0, b1, b2, b3, b4, b5 },
        ),
        _ => None,
    }
}

/// Parses the dotted-group notation.
fn parse_mac_dot(s: &str) -> (r: Option<MacAddress>)
    requires
        s@.len() == 14,
    ensures
        r is Some <==> is_mac_dot_text(s@),
        r is Some ==> r->0 == mac_of_dot_text(s@),
{
    if s.get_char(4) != '.' || s.get_char(9) != '.' {
        return None;
    }
    let p0 = read_hex_pair(s, 0);
    let p1 = read_hex_pair(s, 2);
    let p2 = read_hex_pair(s, 5);
    let p3 = read_hex_pair(s, 7);
    let p4 = read_hex_pair(s, 10);
    let p5 = read_hex_pair(s, 12);
    match (p0, p1, p2, p3, p4, p5) {
        (Some(b0), Some(b1), Some(b2), Some(b3), Some(b4), Some(b5)) => Some(
            MacAddress { b0, b1, b2, b3, b4, b5 },
        ),
        _ => None,
    }
}

/// Parses a hardware address in any of the three accepted notations:
/// colon-separated pairs, dash-separated pairs, or dot-separated groups of
/// four digits, case-insensitive hexadecimal throughout.
pub fn parse_hardware_address(s: &str) -> (r: Option<MacAddress>)
    ensures
        r is Some <==> is_mac_text(s@),
        r is Some ==> r->0 == mac_of_text(s@),
{
    let len = s.unicode_len();
    if len == 17 {
        let sep = s.get_char(2);
        if sep == ':' || sep == '-' {
            let r = parse_mac_sep(s, sep);
            proof {
                if sep == ':' {
                    assert(!is_mac_sep_text(s@, '-'));
                } else {
                    assert(!is_mac_sep_text(s@, ':'));
                }
            }
            r
        } else {
            None
        }
    } else if len == 14 {
        parse_mac_dot(s)
    } else {
        None
    }
}

} // verus!
