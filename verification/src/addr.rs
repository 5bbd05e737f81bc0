//! Server addresses: how they are written, what kind of network they lie in, and
//! which of several to use.
use crate::text;
use crate::text::{chars_of, parse_digits, parse_unsigned, split_chars, string_of, trim};
use vstd::prelude::*;
use vstd::string::*;

verus! {

/// The port that servers listen on.
pub const DEFAULT_APP_PORT: u16 = 28_480;

/// An internet address: four bytes, or eight groups of two.
#[derive(Clone, Copy, Debug)]
pub enum IpAddr {
    V4([u8; 4]),
    V6([u16; 8]),
}

/// One of the four numbers of an address: a decimal number without needless
/// zeros, up to 255.
pub open spec fn octet(s: Seq<char>) -> Option<u8> {
    if 0 < s.len() <= 3 && text::all_digits(s) && (s.len() == 1 || s[0] != '0')
        && text::digits_value(s) <= 255 {
        Some(text::digits_value(s) as u8)
    } else {
        None
    }
}

/// Four numbers with dots between them.
pub open spec fn ipv4(s: Seq<char>) -> Option<Seq<u8>> {
    let parts = text::split(s, '.');
    if parts.len() == 4 && octet(parts[0]) is Some && octet(parts[1]) is Some && octet(
        parts[2],
    ) is Some && octet(parts[3]) is Some {
        Some(
            seq![octet(parts[0])->0, octet(parts[1])->0, octet(parts[2])->0, octet(parts[3])->0],
        )
    } else {
        None
    }
}

pub open spec fn hex_value(c: char) -> Option<nat> {
    if '0' <= c <= '9' {
        Some((c as u32 - '0' as u32) as nat)
    } else if 'a' <= c <= 'f' {
        Some((c as u32 - 'a' as u32 + 10) as nat)
    } else if 'A' <= c <= 'F' {
        Some((c as u32 - 'A' as u32 + 10) as nat)
    } else {
        None
    }
}

/// The number that hexadecimal digits spell.
pub open spec fn hex_number(s: Seq<char>) -> Option<nat>
    decreases s.len(),
{
    if s.len() == 0 {
        Some(0)
    } else {
        match (hex_number(s.drop_last()), hex_value(s.last())) {
            (Some(n), Some(d)) => Some(n * 16 + d),
            _ => None,
        }
    }
}

/// One of the eight groups of an address: one to four hexadecimal digits.
pub open spec fn group(s: Seq<char>) -> Option<u16> {
    if 0 < s.len() <= 4 && hex_number(s) is Some {
        Some(hex_number(s)->0 as u16)
    } else {
        None
    }
}

pub open spec fn groups(parts: Seq<Seq<char>>) -> Option<Seq<u16>>
    decreases parts.len(),
{
    if parts.len() == 0 {
        Some(Seq::empty())
    } else {
        match (groups(parts.drop_last()), group(parts.last())) {
            (Some(before), Some(last)) => Some(before.push(last)),
            _ => None,
        }
    }
}

/// Four bytes as two groups.
pub open spec fn as_groups(bytes: Seq<u8>) -> Seq<u16> {
    seq![(bytes[0] * 256 + bytes[1]) as u16, (bytes[2] * 256 + bytes[3]) as u16]
}

/// Groups with colons between them. The last two can be written as four numbers
/// with dots, if `tail` allows it.
pub open spec fn colon_groups(s: Seq<char>, tail: bool) -> Option<Seq<u16>> {
    let parts = text::split(s, ':');
    if s.len() == 0 {
        Some(Seq::empty())
    } else if groups(parts) is Some {
        groups(parts)
    } else if tail {
        match (groups(parts.drop_last()), ipv4(parts.last())) {
            (Some(before), Some(bytes)) => Some(before + as_groups(bytes)),
            _ => None,
        }
    } else {
        None
    }
}

/// Where two colons stand next to each other first, from `from` on.
pub open spec fn double_colon(s: Seq<char>, from: nat) -> Option<nat>
    decreases s.len() - from,
{
    if from + 1 >= s.len() {
        None
    } else if s[from as int] == ':' && s[from as int + 1] == ':' {
        Some(from)
    } else {
        double_colon(s, from + 1)
    }
}

pub open spec fn zeros(n: nat) -> Seq<u16> {
    Seq::new(n, |i: int| 0u16)
}

/// Eight groups with colons between them. Two colons stand for one group or more
/// that are zero.
pub open spec fn ipv6(s: Seq<char>) -> Option<Seq<u16>> {
    match double_colon(s, 0) {
        None => match colon_groups(s, true) {
            Some(all) => if all.len() == 8 {
                Some(all)
            } else {
                None
            },
            None => None,
        },
        Some(k) => match (
            colon_groups(s.take(k as int), false),
            colon_groups(s.skip(k as int + 2), true),
        ) {
            (Some(before), Some(after)) => if before.len() + after.len() <= 7 {
                Some(before + zeros((8 - before.len() - after.len()) as nat) + after)
            } else {
                None
            },
            _ => None,
        },
    }
}

fn parse_octet(v: &Vec<char>) -> (r: Option<u8>)
    ensures
        r == octet(v@),
{
    let n: usize = v.len();
    if n == 0 || n > 3 || (n > 1 && v[0] == '0') {
        return None;
    }
    proof {
        assert(v@.subrange(0, n as int) =~= v@);
    }
    match parse_digits(v, 0, n, 255) {
        Some(value) => Some(value as u8),
        None => None,
    }
}

/// Reads an address of four numbers.
pub fn parse_ipv4(v: &Vec<char>, from: usize, to: usize) -> (r: Option<[u8; 4]>)
    requires
        from <= to <= v.len(),
    ensures
        match r {
            Some(bytes) => ipv4(v@.subrange(from as int, to as int)) == Some(bytes@),
            None => ipv4(v@.subrange(from as int, to as int)) is None,
        },
{
    let parts = split_chars(v, from, to, '.');
    let ghost texts = text::texts_of(parts@);
    if parts.len() != 4 {
        return None;
    }
    proof {
        assert(texts[0] == parts@[0]@ && texts[1] == parts@[1]@ && texts[2] == parts@[2]@
            && texts[3] == parts@[3]@);
    }
    match (
        parse_octet(&parts[0]),
        parse_octet(&parts[1]),
        parse_octet(&parts[2]),
        parse_octet(&parts[3]),
    ) {
        (Some(a), Some(b), Some(c), Some(d)) => {
            let bytes: [u8; 4] = [a, b, c, d];
            proof {
                assert(bytes@ =~= seq![a, b, c, d]);
            }
            Some(bytes)
        },
        _ => None,
    }
}

fn parse_hex_digit(c: char) -> (r: Option<u16>)
    ensures
        match r {
            Some(d) => hex_value(c) == Some(d as nat) && d < 16,
            None => hex_value(c) is None,
        },
{
    if '0' <= c && c <= '9' {
        Some((c as u32 - '0' as u32) as u16)
    } else if 'a' <= c && c <= 'f' {
        Some((c as u32 - 'a' as u32 + 10) as u16)
    } else if 'A' <= c && c <= 'F' {
        Some((c as u32 - 'A' as u32 + 10) as u16)
    } else {
        None
    }
}

proof fn hex_prefix(s: Seq<char>, k: int)
    requires
        0 <= k <= s.len(),
        hex_number(s) is Some,
    ensures
        hex_number(s.take(k)) is Some,
    decreases s.len(),
{
    if k == s.len() {
        assert(s.take(k) =~= s);
    } else {
        assert(s.drop_last().take(k) =~= s.take(k));
        hex_prefix(s.drop_last(), k);
    }
}

pub open spec fn pow16(n: nat) -> nat {
    if n == 0 {
        1
    } else if n == 1 {
        16
    } else if n == 2 {
        256
    } else if n == 3 {
        4096
    } else {
        65536
    }
}

fn parse_group(v: &Vec<char>) -> (r: Option<u16>)
    ensures
        r == group(v@),
{
    let n: usize = v.len();
    if n == 0 || n > 4 {
        return None;
    }
    let mut value: u32 = 0;
    let mut i: usize = 0;
    while i < n
        invariant
            i <= n <= 4,
            n == v.len(),
            hex_number(v@.take(i as int)) == Some(value as nat),
            value < pow16(i as nat),
        decreases n - i,
    {
        proof {
            assert(v@.take(i as int + 1).drop_last() =~= v@.take(i as int));
            assert(v@.take(i as int + 1).last() == v@[i as int]);
        }
        match parse_hex_digit(v[i]) {
            Some(d) => {
                value = value * 16 + d as u32;
            },
            None => {
                proof {
                    if hex_number(v@) is Some {
                        hex_prefix(v@, i as int + 1);
                    }
                }
                return None;
            },
        }
        i = i + 1;
    }
    proof {
        assert(v@.take(n as int) =~= v@);
    }
    Some(value as u16)
}

proof fn groups_prefix(parts: Seq<Seq<char>>, k: int)
    requires
        0 <= k <= parts.len(),
        groups(parts) is Some,
    ensures
        groups(parts.take(k)) is Some,
    decreases parts.len(),
{
    if k == parts.len() {
        assert(parts.take(k) =~= parts);
    } else {
        assert(parts.drop_last().take(k) =~= parts.take(k));
        groups_prefix(parts.drop_last(), k);
    }
}

/// Reads the first `count` of some pieces of text as groups.
fn parse_groups(parts: &Vec<Vec<char>>, count: usize) -> (r: Option<Vec<u16>>)
    requires
        count <= parts.len(),
    ensures
        match r {
            Some(v) => groups(text::texts_of(parts@).take(count as int)) == Some(v@),
            None => groups(text::texts_of(parts@).take(count as int)) is None,
        },
{
    let ghost texts = text::texts_of(parts@);
    let mut v: Vec<u16> = Vec::new();
    let mut i: usize = 0;
    while i < count
        invariant
            i <= count <= parts.len(),
            texts == text::texts_of(parts@),
            groups(texts.take(i as int)) == Some(v@),
        decreases count - i,
    {
        proof {
            assert(texts.take(i as int + 1).drop_last() =~= texts.take(i as int));
            assert(texts.take(i as int + 1).last() == parts@[i as int]@);
        }
        match parse_group(&parts[i]) {
            Some(g) => {
                v.push(g);
            },
            None => {
                proof {
                    if groups(texts.take(count as int)) is Some {
                        groups_prefix(texts.take(count as int), i as int + 1);
                        assert(texts.take(count as int).take(i as int + 1) =~= texts.take(
                            i as int + 1,
                        ));
                    }
                }
                return None;
            },
        }
        i = i + 1;
    }
    Some(v)
}

fn parse_colon_groups(v: &Vec<char>, from: usize, to: usize, tail: bool) -> (r: Option<Vec<u16>>)
    requires
        from <= to <= v.len(),
    ensures
        match r {
            Some(g) => colon_groups(v@.subrange(from as int, to as int), tail) == Some(g@),
            None => colon_groups(v@.subrange(from as int, to as int), tail) is None,
        },
{
    if from == to {
        let none: Vec<u16> = Vec::new();
        proof {
            assert(none@ =~= Seq::<u16>::empty());
        }
        return Some(none);
    }
    let parts = split_chars(v, from, to, ':');
    let n: usize = parts.len();
    let ghost texts = text::texts_of(parts@);
    proof {
        assert(texts.take(n as int) =~= texts);
        assert(texts.take(n as int - 1) =~= texts.drop_last());
        assert(texts.last() == parts@[n as int - 1]@);
    }
    let all = parse_groups(&parts, n);
    if all.is_some() {
        return all;
    }
    if !tail {
        return None;
    }
    match parse_groups(&parts, n - 1) {
        Some(before) => {
            let last = &parts[n - 1];
            let len: usize = last.len();
            proof {
                assert(last@.subrange(0, len as int) =~= last@);
            }
            match parse_ipv4(last, 0, len) {
                Some(bytes) => {
                    let mut g = before;
                    let high: u16 = bytes[0] as u16 * 256 + bytes[1] as u16;
                    let low: u16 = bytes[2] as u16 * 256 + bytes[3] as u16;
                    g.push(high);
                    g.push(low);
                    proof {
                        assert(g@ =~= before@ + as_groups(bytes@));
                    }
                    Some(g)
                },
                None => None,
            }
        },
        None => None,
    }
}

fn find_double_colon(v: &Vec<char>) -> (r: Option<usize>)
    ensures
        match r {
            Some(k) => double_colon(v@, 0) == Some(k as nat) && k + 1 < v.len(),
            None => double_colon(v@, 0) is None,
        },
{
    let n: usize = v.len();
    if n == 0 {
        return None;
    }
    let mut i: usize = 0;
    while i < n - 1
        invariant
            i < n,
            n == v.len(),
            double_colon(v@, 0) == double_colon(v@, i as nat),
        decreases n - i,
    {
        if v[i] == ':' && v[i + 1] == ':' {
            return Some(i);
        }
        i = i + 1;
    }
    None
}

fn eight(v: &Vec<u16>) -> (r: [u16; 8])
    requires
        v.len() == 8,
    ensures
        r@ == v@,
{
    let r: [u16; 8] = [v[0], v[1], v[2], v[3], v[4], v[5], v[6], v[7]];
    proof {
        assert(r@ =~= v@);
    }
    r
}

/// Reads an address of eight groups.
pub fn parse_ipv6(s: &str) -> (r: Option<[u16; 8]>)
    ensures
        match r {
            Some(g) => ipv6(s@) == Some(g@),
            None => ipv6(s@) is None,
        },
{
    let v = chars_of(s);
    let n: usize = v.len();
    match find_double_colon(&v) {
        None => {
            proof {
                assert(v@.subrange(0, n as int) =~= s@);
            }
            match parse_colon_groups(&v, 0, n, true) {
                Some(all) => if all.len() == 8 {
                    Some(eight(&all))
                } else {
                    None
                },
                None => None,
            }
        },
        Some(k) => {
            proof {
                assert(v@.subrange(0, k as int) =~= s@.take(k as int));
                assert(v@.subrange(k as int + 2, n as int) =~= s@.skip(k as int + 2));
            }
            let before = parse_colon_groups(&v, 0, k, false);
            let after = parse_colon_groups(&v, k + 2, n, true);
            match (before, after) {
                (Some(before), Some(after)) => join_groups(before, after),
                _ => None,
            }
        },
    }
}

fn join_groups(before: Vec<u16>, after: Vec<u16>) -> (r: Option<[u16; 8]>)
    ensures
        match r {
            Some(g) => before@.len() + after@.len() <= 7 && g@ == before@ + zeros(
                (8 - before@.len() - after@.len()) as nat,
            ) + after@,
            None => before@.len() + after@.len() > 7,
        },
{
    if before.len() > 7 || after.len() > 7 - before.len() {
        return None;
    }
    let ghost kept = before@;
    let ghost missing = (8 - before@.len() - after@.len()) as nat;
    let stop: usize = 8 - after.len();
    let mut all = before;
    while all.len() < stop
        invariant
            kept.len() <= all@.len() <= stop <= 8,
            all@ == kept + zeros((all@.len() - kept.len()) as nat),
        decreases stop - all@.len(),
    {
        let ghost earlier = all@;
        all.push(0);
        proof {
            assert(all@ =~= kept + zeros((all@.len() - kept.len()) as nat));
        }
    }
    let ghost padded = all@;
    let mut i: usize = 0;
    while i < after.len()
        invariant
            i <= after.len(),
            all@ == padded + after@.take(i as int),
        decreases after.len() - i,
    {
        all.push(after[i]);
        proof {
            assert(all@ =~= padded + after@.take(i as int + 1));
        }
        i = i + 1;
    }
    proof {
        assert(after@.take(after@.len() as int) =~= after@);
    }
    Some(eight(&all))
}

/// What is known of a text as an address.
pub open spec fn ip_matches(s: Seq<char>, ip: Option<IpAddr>) -> bool {
    match ip {
        Some(IpAddr::V4(bytes)) => ipv4(s) == Some(bytes@),
        Some(IpAddr::V6(groups)) => ipv4(s) is None && ipv6(s) == Some(groups@),
        None => ipv4(s) is None && ipv6(s) is None,
    }
}

/// Reads an address of either kind.
pub fn parse_ip(s: &str) -> (ip: Option<IpAddr>)
    ensures
        ip_matches(s@, ip),
{
    let v = chars_of(s);
    let n: usize = v.len();
    proof {
        assert(v@.subrange(0, n as int) =~= s@);
    }
    match parse_ipv4(&v, 0, n) {
        Some(bytes) => Some(IpAddr::V4(bytes)),
        None => match parse_ipv6(s) {
            Some(groups) => Some(IpAddr::V6(groups)),
            None => None,
        },
    }
}

/// The last place where `c` stands in a text.
pub open spec fn last_index(s: Seq<char>, c: char) -> Option<nat>
    decreases s.len(),
{
    if s.len() == 0 {
        None
    } else if s.last() == c {
        Some((s.len() - 1) as nat)
    } else {
        last_index(s.drop_last(), c)
    }
}

/// The first place where `c` stands in a text, from `from` on.
pub open spec fn first_index(s: Seq<char>, c: char, from: nat) -> Option<nat>
    decreases s.len() - from,
{
    if from >= s.len() {
        None
    } else if s[from as int] == c {
        Some(from)
    } else {
        first_index(s, c, from + 1)
    }
}

fn find_last(v: &Vec<char>, c: char) -> (r: Option<usize>)
    ensures
        match r {
            Some(k) => last_index(v@, c) == Some(k as nat) && k < v.len() && v@[k as int] == c,
            None => last_index(v@, c) is None,
        },
{
    let mut i: usize = v.len();
    proof {
        assert(v@.take(i as int) =~= v@);
    }
    while i > 0
        invariant
            i <= v.len(),
            last_index(v@, c) == last_index(v@.take(i as int), c),
        decreases i,
    {
        proof {
            assert(v@.take(i as int).drop_last() =~= v@.take(i as int - 1));
            assert(v@.take(i as int).last() == v@[i as int - 1]);
        }
        if v[i - 1] == c {
            return Some(i - 1);
        }
        i = i - 1;
    }
    None
}

fn find_first(v: &Vec<char>, c: char, from: usize) -> (r: Option<usize>)
    requires
        from <= v.len(),
    ensures
        match r {
            Some(k) => first_index(v@, c, from as nat) == Some(k as nat) && from <= k < v.len(),
            None => first_index(v@, c, from as nat) is None,
        },
{
    let mut i: usize = from;
    while i < v.len()
        invariant
            from <= i <= v.len(),
            first_index(v@, c, from as nat) == first_index(v@, c, i as nat),
        decreases v.len() - i,
    {
        if v[i] == c {
            return Some(i);
        }
        i = i + 1;
    }
    None
}

/// The last index is one, and nothing stands behind it.
pub proof fn last_index_is_last(s: Seq<char>, c: char)
    ensures
        match last_index(s, c) {
            Some(k) => k < s.len() && s[k as int] == c && forall|i: int|
                k < i < s.len() ==> #[trigger] s[i] != c,
            None => forall|i: int| 0 <= i < s.len() ==> #[trigger] s[i] != c,
        },
    decreases s.len(),
{
    if s.len() > 0 && s.last() != c {
        last_index_is_last(s.drop_last(), c);
        assert(forall|i: int| 0 <= i < s.len() - 1 ==> s.drop_last()[i] == s[i]);
    }
}

/// The host in an address: what stands in brackets at its start, or what stands
/// before its last colon.
pub open spec fn host_of(addr: Seq<char>) -> Seq<char> {
    let close = first_index(addr, ']', 1);
    if addr.len() > 0 && addr[0] == '[' && close is Some {
        addr.subrange(1, close->0 as int)
    } else {
        match last_index(addr, ':') {
            Some(k) => addr.take(k as int),
            None => addr,
        }
    }
}

pub fn addr_host(addr: &str) -> (host: String)
    ensures
        host@ == host_of(addr@),
{
    let v = chars_of(addr);
    let n: usize = v.len();
    if n > 0 && v[0] == '[' {
        if let Some(close) = find_first(&v, ']', 1) {
            return string_of(&v, 1, close);
        }
    }
    match find_last(&v, ':') {
        Some(k) => {
            proof {
                assert(v@.subrange(0, k as int) =~= addr@.take(k as int));
            }
            string_of(&v, 0, k)
        },
        None => {
            proof {
                assert(v@.subrange(0, n as int) =~= addr@);
            }
            string_of(&v, 0, n)
        },
    }
}

/// The internet address in an address, if its host is one.
pub fn addr_ip(addr: &str) -> (ip: Option<IpAddr>)
    ensures
        ip_matches(host_of(addr@), ip),
{
    let host = addr_host(addr);
    parse_ip(host.as_str())
}

/// Addresses that only mean something in their own network: private, loopback,
/// link-local, and those that carriers and overlays share.
pub open spec fn privateish_v4(b: Seq<u8>) -> bool {
    b[0] == 10 || (b[0] == 172 && 16 <= b[1] <= 31) || (b[0] == 192 && b[1] == 168) || b[0] == 127
        || (b[0] == 169 && b[1] == 254) || (b[0] == 100 && 64 <= b[1] <= 127)
}

pub open spec fn loopback_v6(g: Seq<u16>) -> bool {
    g == seq![0u16, 0u16, 0u16, 0u16, 0u16, 0u16, 0u16, 1u16]
}

/// `fc00::/7`.
pub open spec fn unique_local(g: Seq<u16>) -> bool {
    0xfc00 <= g[0] <= 0xfdff
}

/// `fe80::/10`.
pub open spec fn link_local_v6(g: Seq<u16>) -> bool {
    0xfe80 <= g[0] <= 0xfebf
}

pub open spec fn privateish(ip: IpAddr) -> bool {
    match ip {
        IpAddr::V4(b) => privateish_v4(b@),
        IpAddr::V6(g) => loopback_v6(g@) || unique_local(g@) || link_local_v6(g@),
    }
}

fn is_loopback_v6(g: &[u16; 8]) -> (r: bool)
    ensures
        r == loopback_v6(g@),
{
    let r = g[0] == 0 && g[1] == 0 && g[2] == 0 && g[3] == 0 && g[4] == 0 && g[5] == 0 && g[6] == 0
        && g[7] == 1;
    proof {
        if r {
            assert(g@ =~= seq![0u16, 0u16, 0u16, 0u16, 0u16, 0u16, 0u16, 1u16]);
        } else if loopback_v6(g@) {
            assert(g@[0] == 0 && g@[1] == 0 && g@[2] == 0 && g@[3] == 0 && g@[4] == 0 && g@[5] == 0
                && g@[6] == 0 && g@[7] == 1);
        }
    }
    r
}

pub fn is_privateish_ip(ip: &IpAddr) -> (r: bool)
    ensures
        r == privateish(*ip),
{
    match ip {
        IpAddr::V4(b) => b[0] == 10 || (b[0] == 172 && 16 <= b[1] && b[1] <= 31) || (b[0] == 192
            && b[1] == 168) || b[0] == 127 || (b[0] == 169 && b[1] == 254) || (b[0] == 100 && 64
            <= b[1] && b[1] <= 127),
        IpAddr::V6(g) => is_loopback_v6(g) || (0xfc00 <= g[0] && g[0] <= 0xfdff) || (0xfe80 <= g[0]
            && g[0] <= 0xfebf),
    }
}

/// How a server is reached.
#[derive(Clone, Copy, Debug, PartialEq, Eq, Structural)]
pub enum PathClass {
    /// In the same network.
    Lan,
    /// Through an overlay.
    Vpn,
    /// Over the internet.
    Public,
}

pub open spec fn class_v4(b: Seq<u8>) -> PathClass {
    if (b[0] == 192 && b[1] == 168) || (b[0] == 172 && 16 <= b[1] <= 31) || (b[0] == 169 && b[1]
        == 254) || b[0] == 127 {
        PathClass::Lan
    } else if b[0] == 10 || (b[0] == 100 && 64 <= b[1] <= 127) {
        PathClass::Vpn
    } else {
        PathClass::Public
    }
}

pub open spec fn class_v6(g: Seq<u16>) -> PathClass {
    if loopback_v6(g) || link_local_v6(g) {
        PathClass::Lan
    } else if unique_local(g) {
        PathClass::Vpn
    } else {
        PathClass::Public
    }
}

pub open spec fn path_class(addr: Seq<char>) -> PathClass {
    let host = host_of(addr);
    match ipv4(host) {
        Some(b) => class_v4(b),
        None => match ipv6(host) {
            Some(g) => class_v6(g),
            None => PathClass::Public,
        },
    }
}

pub fn classify_path(addr: &str) -> (class: PathClass)
    ensures
        class == path_class(addr@),
{
    match addr_ip(addr) {
        Some(IpAddr::V4(b)) => if (b[0] == 192 && b[1] == 168) || (b[0] == 172 && 16 <= b[1] && b[1]
            <= 31) || (b[0] == 169 && b[1] == 254) || b[0] == 127 {
            PathClass::Lan
        } else if b[0] == 10 || (b[0] == 100 && 64 <= b[1] && b[1] <= 127) {
            PathClass::Vpn
        } else {
            PathClass::Public
        },
        Some(IpAddr::V6(g)) => if is_loopback_v6(&g) || (0xfe80 <= g[0] && g[0] <= 0xfebf) {
            PathClass::Lan
        } else if 0xfc00 <= g[0] && g[0] <= 0xfdff {
            PathClass::Vpn
        } else {
            PathClass::Public
        },
        None => PathClass::Public,
    }
}

/// Only a server on the internet is worth punching through to.
pub fn allow_hole_punch_fallback(ip: &IpAddr) -> (r: bool)
    ensures
        r == !privateish(*ip),
{
    !is_privateish_ip(ip)
}

/// A server that only its own network can reach is never punched through to, and
/// one on the internet always may be.
pub proof fn only_public_servers_are_punched(b: [u8; 4], g: [u16; 8])
    ensures
        class_v4(b@) == PathClass::Public <==> !privateish(IpAddr::V4(b)),
        class_v6(g@) == PathClass::Public <==> !privateish(IpAddr::V6(g)),
{
}

/// How useful an address is to a client in another network: overlays are reached
/// from anywhere, the internet with some luck, and a foreign network not at all.
pub open spec fn remote_rank(class: PathClass) -> nat {
    match class {
        PathClass::Vpn => 0,
        PathClass::Public => 1,
        PathClass::Lan => 2,
    }
}

fn rank_of(class: PathClass) -> (r: u8)
    ensures
        r == remote_rank(class),
{
    match class {
        PathClass::Vpn => 0,
        PathClass::Public => 1,
        PathClass::Lan => 2,
    }
}

pub open spec fn rank_at(candidates: Seq<String>, i: int) -> nat {
    remote_rank(path_class(candidates[i]@))
}

/// The first of the most useful addresses.
pub open spec fn is_pick(candidates: Seq<String>, i: int) -> bool {
    &&& 0 <= i < candidates.len()
    &&& forall|j: int|
        0 <= j < candidates.len() ==> rank_at(candidates, i) <= #[trigger] rank_at(candidates, j)
    &&& forall|j: int| 0 <= j < i ==> rank_at(candidates, i) < #[trigger] rank_at(candidates, j)
}

/// The address that a client in another network uses, of several.
pub open spec fn picked(candidates: Seq<String>) -> Option<Seq<char>> {
    if candidates.len() == 0 {
        None
    } else {
        Some(candidates[choose|i: int| is_pick(candidates, i)]@)
    }
}

/// Chooses the address at which a client in another network can reach a server.
pub fn pick_remote_reachable(candidates: &Vec<String>) -> (r: Option<String>)
    ensures
        match r {
            Some(addr) => picked(candidates@) == Some(addr@) && exists|i: int|
                #[trigger] is_pick(candidates@, i) && addr@ == candidates@[i]@,
            None => candidates@.len() == 0,
        },
{
    if candidates.len() == 0 {
        return None;
    }
    let mut best: usize = 0;
    let mut best_rank: u8 = rank_of(classify_path(candidates[0].as_str()));
    let mut i: usize = 1;
    while i < candidates.len()
        invariant
            best < i <= candidates.len(),
            best_rank == rank_at(candidates@, best as int),
            forall|j: int| 0 <= j < i ==> best_rank <= #[trigger] rank_at(candidates@, j),
            forall|j: int| 0 <= j < best ==> best_rank < #[trigger] rank_at(candidates@, j),
        decreases candidates.len() - i,
    {
        let rank: u8 = rank_of(classify_path(candidates[i].as_str()));
        assert(rank == rank_at(candidates@, i as int));
        if rank < best_rank {
            best = i;
            best_rank = rank;
        }
        i = i + 1;
    }
    assert(is_pick(candidates@, best as int));
    proof {
        let i = choose|i: int| is_pick(candidates@, i);
        picks_are_unique(candidates@, best as int, i, 0);
    }
    Some(candidates[best].clone())
}

/// There is one choice only, and it lies in a foreign network only if all
/// addresses do.
pub proof fn picks_are_unique(candidates: Seq<String>, i: int, j: int, k: int)
    requires
        is_pick(candidates, i),
        is_pick(candidates, j),
        0 <= k < candidates.len(),
    ensures
        i == j,
        path_class(candidates[i]@) == PathClass::Lan ==> path_class(candidates[k]@)
            == PathClass::Lan,
{
    assert(rank_at(candidates, i) <= rank_at(candidates, j));
    assert(rank_at(candidates, j) <= rank_at(candidates, i));
    assert(rank_at(candidates, i) <= rank_at(candidates, k));
    if i < j {
        assert(rank_at(candidates, j) < rank_at(candidates, i));
    }
    if j < i {
        assert(rank_at(candidates, i) < rank_at(candidates, j));
    }
}

/// A text that names a host and a port: one colon, something before it, and a
/// number behind it.
pub open spec fn names_port(s: Seq<char>) -> bool {
    match last_index(s, ':') {
        Some(k) => k > 0 && last_index(s.take(k as int), ':') is None && text::unsigned(
            s.skip(k as int + 1),
            65_535,
        ) is Some,
        None => false,
    }
}

/// A bracketed host is followed by a colon somewhere.
pub open spec fn closes_bracket(s: Seq<char>, from: nat) -> bool
    decreases s.len() - from,
{
    if from + 1 >= s.len() {
        false
    } else {
        (s[from as int] == ']' && s[from as int + 1] == ':') || closes_bracket(s, from + 1)
    }
}

/// An address in full, with the default port where it names none.
pub open spec fn normalized(input: Seq<char>) -> Seq<char> {
    let s = text::trimmed(input);
    if s.len() == 0 {
        s
    } else if s.len() >= 2 && s[0] == '[' && s.last() == ']' {
        s + ":28480"@
    } else if s[0] == '[' && closes_bracket(s, 0) {
        s
    } else if ipv6(s) is Some {
        "["@ + s + "]:28480"@
    } else if names_port(s) {
        s
    } else {
        s + ":28480"@
    }
}

fn has_closed_bracket(v: &Vec<char>) -> (r: bool)
    ensures
        r == closes_bracket(v@, 0),
{
    let n: usize = v.len();
    if n == 0 {
        return false;
    }
    let mut i: usize = 0;
    while i < n - 1
        invariant
            i < n,
            n == v.len(),
            closes_bracket(v@, 0) == closes_bracket(v@, i as nat),
        decreases n - i,
    {
        if v[i] == ']' && v[i + 1] == ':' {
            return true;
        }
        i = i + 1;
    }
    false
}

fn has_port(v: &Vec<char>) -> (r: bool)
    ensures
        r == names_port(v@),
{
    let n: usize = v.len();
    match find_last(v, ':') {
        Some(k) => {
            if k == 0 {
                return false;
            }
            let mut i: usize = 0;
            proof {
                last_index_is_last(v@.take(k as int), ':');
            }
            while i < k
                invariant
                    i <= k < v.len(),
                    last_index(v@, ':') == Some(k as nat),
                    forall|j: int| 0 <= j < i ==> #[trigger] v@[j] != ':',
                decreases k - i,
            {
                if v[i] == ':' {
                    proof {
                        last_index_is_last(v@.take(k as int), ':');
                        assert(v@.take(k as int)[i as int] == ':');
                    }
                    return false;
                }
                i = i + 1;
            }
            let port = string_of(v, k + 1, n);
            proof {
                assert(v@.subrange(k as int + 1, n as int) =~= v@.skip(k as int + 1));
                if let Some(m) = last_index(v@.take(k as int), ':') {
                    assert(v@.take(k as int)[m as int] == v@[m as int]);
                }
            }
            parse_unsigned(port.as_str(), 65_535).is_some()
        },
        None => false,
    }
}

/// Writes an address in full.
pub fn normalize_server_addr(input: &str) -> (addr: String)
    ensures
        addr@ == normalized(input@),
{
    let s = trim(input);
    let v = chars_of(s.as_str());
    let n: usize = v.len();
    if n == 0 {
        return s;
    }
    if n >= 2 && v[0] == '[' && v[n - 1] == ']' {
        return text::concat(s.as_str(), ":28480");
    }
    if v[0] == '[' && has_closed_bracket(&v) {
        return s;
    }
    if parse_ipv6(s.as_str()).is_some() {
        let mut addr = text::concat("[", s.as_str());
        addr.append("]:28480");
        return addr;
    }
    if has_port(&v) {
        return s;
    }
    text::concat(s.as_str(), ":28480")
}

/// A text with colons that name no port. It is taken for a host.
pub open spec fn colons_in_host(s: Seq<char>) -> bool {
    s.len() > 0 && !(s.len() >= 2 && s[0] == '[' && s.last() == ']') && !(s[0] == '['
        && closes_bracket(s, 0)) && ipv6(s) is None && !names_port(s) && last_index(s, ':') is Some
}

proof fn bracket_closes(s: Seq<char>, from: nat, at: nat)
    requires
        from <= at,
        at + 1 < s.len(),
        s[at as int] == ']',
        s[at as int + 1] == ':',
    ensures
        closes_bracket(s, from),
    decreases at - from,
{
    if from < at {
        bracket_closes(s, from + 1, at);
    }
}

proof fn last_piece(s: Seq<char>, c: char, at: int)
    requires
        -1 <= at < s.len(),
        at >= 0 ==> s[at] == c,
        forall|i: int| at < i < s.len() ==> #[trigger] s[i] != c,
    ensures
        text::split(s, c).len() > 0,
        text::split(s, c).last() == s.skip(at + 1),
        at == -1 ==> text::split(s, c).len() == 1,
    decreases s.len(),
{
    if s.len() == 0 {
        assert(s.skip(0) =~= Seq::<char>::empty());
    } else if at == s.len() - 1 {
        pieces_exist(s.drop_last(), c);
        assert(s.skip(at + 1) =~= Seq::<char>::empty());
    } else {
        assert(s.last() == s[s.len() - 1]);
        assert(forall|i: int| 0 <= i < s.len() - 1 ==> s.drop_last()[i] == s[i]);
        last_piece(s.drop_last(), c, at);
        assert(s.drop_last().skip(at + 1).push(s.last()) =~= s.skip(at + 1));
    }
}

proof fn pieces_exist(s: Seq<char>, c: char)
    ensures
        text::split(s, c).len() > 0,
    decreases s.len(),
{
    if s.len() > 0 {
        pieces_exist(s.drop_last(), c);
    }
}

/// Groups do not end in a port number, which has too many digits.
proof fn ports_are_no_groups(s: Seq<char>, at: int)
    requires
        -1 <= at,
        s.len() == at + 6,
        at >= 0 ==> s[at] == ':',
        s.skip(at + 1) == "28480"@,
    ensures
        colon_groups(s, true) is None,
{
    reveal_strlit("28480");
    let port = "28480"@;
    assert(forall|i: int| at < i < s.len() ==> s[i] == port[i - at - 1]);
    last_piece(s, ':', at);
    let parts = text::split(s, ':');
    assert(parts.last() == port);
    last_piece(port, '.', -1);
    assert(text::split(port, '.').len() == 1);
    assert(group(parts.last()) is None);
    assert(ipv4(port) is None);
}

proof fn double_colon_is_one(s: Seq<char>, from: nat)
    ensures
        match double_colon(s, from) {
            Some(k) => from <= k && k + 1 < s.len() && s[k as int] == ':' && s[k as int + 1] == ':',
            None => true,
        },
    decreases s.len() - from,
{
    if from + 1 < s.len() && !(s[from as int] == ':' && s[from as int + 1] == ':') {
        double_colon_is_one(s, from + 1);
    }
}

proof fn default_port_is_no_group(s: Seq<char>)
    ensures
        ipv6(s + ":28480"@) is None,
{
    reveal_strlit(":28480");
    reveal_strlit("28480");
    let full = s + ":28480"@;
    let n = s.len() as int;
    assert(full.skip(n + 1) =~= "28480"@);
    match double_colon(full, 0) {
        None => {
            ports_are_no_groups(full, n);
        },
        Some(k) => {
            double_colon_is_one(full, 0);
            let tail = full.skip(k as int + 2);
            assert(k + 2 <= n + 1);
            assert(tail.skip(n - k - 1) =~= "28480"@);
            if n - k - 2 >= 0 {
                assert(tail[n - k - 2] == full[n]);
            }
            ports_are_no_groups(tail, n - k - 2);
        },
    }
}

proof fn nothing_to_trim(s: Seq<char>)
    requires
        s.len() > 0,
        !text::is_white(s[0]),
        !text::is_white(s.last()),
    ensures
        text::trimmed(s) == s,
{
}

proof fn front_is_trimmed(s: Seq<char>)
    ensures
        text::trim_front(s).len() > 0 ==> !text::is_white(text::trim_front(s)[0]),
    decreases s.len(),
{
    if s.len() > 0 && text::is_white(s[0]) {
        front_is_trimmed(s.skip(1));
    }
}

proof fn back_is_trimmed(s: Seq<char>)
    ensures
        text::trim_back(s).len() > 0 ==> !text::is_white(text::trim_back(s).last())
            && text::trim_back(s)[0] == s[0],
    decreases s.len(),
{
    if s.len() > 0 && text::is_white(s.last()) {
        back_is_trimmed(s.drop_last());
    }
}

/// An address that has been written in full stays as it is when that is done
/// again, unless it holds colons that name no port.
pub proof fn full_addresses_stay(input: Seq<char>)
    requires
        !colons_in_host(text::trimmed(input)),
    ensures
        normalized(normalized(input)) == normalized(input),
{
    let s = text::trimmed(input);
    let r = normalized(input);
    front_is_trimmed(input);
    back_is_trimmed(text::trim_front(input));
    reveal_strlit(":28480");
    reveal_strlit("[");
    reveal_strlit("]:28480");
    if s.len() > 0 {
        nothing_to_trim(s);
        nothing_to_trim(r);
        let n = s.len();
        if n >= 2 && s[0] == '[' && s.last() == ']' {
            bracket_closes(r, 0, (n - 1) as nat);
        } else if s[0] == '[' && closes_bracket(s, 0) {
        } else if ipv6(s) is Some {
            assert(r[n as int + 1] == ']' && r[n as int + 2] == ':');
            bracket_closes(r, 0, n + 1);
        } else if names_port(s) {
        } else {
            default_port_is_no_group(s);
            last_index_is_last(s, ':');
            last_index_is_last(r, ':');
            assert(forall|i: int| 0 <= i < n ==> r[i] == s[i]);
            assert(r[n as int] == ':');
            assert(last_index(r, ':') == Some(n)) by {
                if last_index(r, ':') is Some {
                    let k = last_index(r, ':')->0;
                    if k > n {
                        assert(r[k as int] == ":28480"@[k as int - n]);
                    }
                }
            }
            assert(r.take(n as int) =~= s);
            reveal_strlit("28480");
            assert(r.skip(n as int + 1) =~= "28480"@);
            default_port_is_a_number();
        }
    }
}

proof fn default_port_is_a_number()
    ensures
        text::unsigned("28480"@, 65_535) == Some(28_480nat),
{
    reveal_strlit("28480");
    let port = "28480"@;
    reveal_with_fuel(text::digits_value, 6);
    assert(port.drop_last() =~= seq!['2', '8', '4', '8']);
    assert(port.drop_last().drop_last() =~= seq!['2', '8', '4']);
    assert(port.drop_last().drop_last().drop_last() =~= seq!['2', '8']);
    assert(port.drop_last().drop_last().drop_last().drop_last() =~= seq!['2']);
    assert(seq!['2'].drop_last() =~= Seq::<char>::empty());
}

} // verus!
