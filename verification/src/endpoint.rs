//! Endpoints of network inputs: a host (IPv4 literal, IPv6 literal or
//! domain name) and a port, as configuration derives them from a URL.

use vstd::prelude::*;

verus! {

/// The port used when the URL carries none.
pub const DEFAULT_PORT: u16 = 5500;

/// An IPv4 address as its four octets.
#[derive(Clone, Copy, PartialEq, Eq, Structural, Debug)]
pub struct Ipv4Octets {
    pub a: u8,
    pub b: u8,
    pub c: u8,
    pub d: u8,
}

/// An IPv6 address as its eight 16-bit segments.
#[derive(Clone, Debug)]
pub struct Ipv6Segments {
    segments: Vec<u16>,
}

impl View for Ipv6Segments {
    type V = Seq<u16>;

    closed spec fn view(&self) -> Seq<u16> {
        self.segments@
    }
}

impl Ipv6Segments {
    pub open spec fn wf(&self) -> bool {
        self@.len() == 8
    }

    pub fn new(segments: Vec<u16>) -> (r: Ipv6Segments)
        requires
            segments@.len() == 8,
        ensures
            r@ == segments@,
            r.wf(),
    {
        Ipv6Segments { segments }
    }

    pub fn segment(&self, i: usize) -> (r: u16)
        requires
            i < self@.len(),
        ensures
            r == self@[i as int],
    {
        self.segments[i]
    }

    /// An owned copy of the segments.
    pub fn clone_segments(&self) -> (r: Ipv6Segments)
        ensures
            r@ == self@,
    {
        let n = self.segments.len();
        let mut segments: Vec<u16> = Vec::new();
        let mut i: usize = 0;
        while i < n
            invariant
                i <= n,
                n == self@.len(),
                segments@.len() == i,
                forall|j: int| 0 <= j < i ==> segments@[j] == self@[j],
            decreases n - i,
        {
            segments.push(self.segments[i]);
            i += 1;
        }
        assert(segments@ =~= self@);
        Ipv6Segments { segments }
    }
}

/// The host part of an endpoint, as a URL's authority carries it.
#[derive(Clone, Debug)]
pub enum HostAddr {
    V4(Ipv4Octets),
    V6(Ipv6Segments),
    Domain(String),
}

/// Host and port of one network input. The host is absent when the
/// URL carried none; the port is absent when the URL carried none and
/// then defaults to `DEFAULT_PORT` at open time.
#[derive(Clone, Debug)]
pub struct Endpoint {
    pub host: Option<HostAddr>,
    pub port: Option<u16>,
}

impl Endpoint {
    pub fn new(host: Option<HostAddr>, port: Option<u16>) -> (r: Endpoint)
        ensures
            r.host == host,
            r.port == port,
    {
        Endpoint { host, port }
    }

    /// The port to bind: the URL's, or `DEFAULT_PORT` when it had none.
    pub fn effective_port(&self) -> (r: u16)
        ensures
            r == spec_effective_port(self.port),
    {
        match self.port {
            Some(p) => p,
            None => DEFAULT_PORT,
        }
    }
}

pub open spec fn spec_effective_port(port: Option<u16>) -> u16 {
    match port {
        Some(p) => p,
        None => DEFAULT_PORT,
    }
}

/// An administratively routable IPv4 multicast group address:
/// 224.0.0.0 through 239.255.255.255.
pub open spec fn spec_is_multicast_ipv4(o: Ipv4Octets) -> bool {
    224 <= o.a <= 239
}

/// Whether an IPv4 address lies in the multicast range. The opening of
/// a network input does not test this itself: the decision whether an
/// address is multicast-worthy belongs to whoever builds the URL.
pub fn is_multicast_ipv4(o: &Ipv4Octets) -> (r: bool)
    ensures
        r == spec_is_multicast_ipv4(*o),
{
    224 <= o.a && o.a <= 239
}

// ---------------------------------------------------------------------
// Parsing a dotted-quad IPv4 literal, as a domain-named host is tried
// as one before a multicast join: four dot-separated decimal octets,
// each within 0..=255, written without leading zeros.
// ---------------------------------------------------------------------

pub open spec fn is_digit(c: char) -> bool {
    48 <= c as u32 <= 57
}

pub open spec fn digit_val(c: char) -> nat {
    (c as u32 - 48) as nat
}

pub open spec fn all_digits(s: Seq<char>) -> bool {
    forall|i: int| 0 <= i < s.len() ==> is_digit(#[trigger] s[i])
}

/// The number the digit string denotes, most significant digit first.
pub open spec fn digits_val(s: Seq<char>) -> nat
    decreases s.len(),
{
    if s.len() == 0 {
        0
    } else {
        digits_val(s.drop_last()) * 10 + digit_val(s.last())
    }
}

/// One octet's text: one to three digits, no leading zero, at most 255.
pub open spec fn valid_octet_text(s: Seq<char>) -> bool {
    &&& 1 <= s.len() <= 3
    &&& all_digits(s)
    &&& (s.len() > 1 ==> s[0] != '0')
    &&& digits_val(s) <= 255
}

/// The pieces of `s` between its dots, in order; a string without dots
/// is one piece, and every dot separates two (possibly empty) pieces.
pub open spec fn split_dots(s: Seq<char>) -> Seq<Seq<char>>
    decreases s.len(),
{
    if s.len() == 0 {
        seq![Seq::<char>::empty()]
    } else if s[0] == '.' {
        seq![Seq::<char>::empty()] + split_dots(s.subrange(1, s.len() as int))
    } else {
        let rest = split_dots(s.subrange(1, s.len() as int));
        seq![seq![s[0]] + rest[0]] + rest.subrange(1, rest.len() as int)
    }
}

pub proof fn lemma_split_dots_nonempty(s: Seq<char>)
    ensures
        split_dots(s).len() >= 1,
    decreases s.len(),
{
    if s.len() > 0 {
        lemma_split_dots_nonempty(s.subrange(1, s.len() as int));
    }
}

/// Appending one character extends the last piece, or begins a new
/// empty piece when the character is a dot.
pub proof fn lemma_split_dots_push(s: Seq<char>, c: char)
    ensures
        ({
            let parts = split_dots(s);
            split_dots(s.push(c)) == if c == '.' {
                parts.push(Seq::<char>::empty())
            } else {
                parts.update(parts.len() - 1, parts.last().push(c))
            }
        }),
    decreases s.len(),
{
    lemma_split_dots_nonempty(s);
    let parts = split_dots(s);
    if s.len() == 0 {
        let one = s.push(c);
        assert(one.len() == 1 && one[0] == c);
        assert(one.subrange(1, 1) =~= Seq::<char>::empty());
        assert(split_dots(Seq::<char>::empty()) =~~= seq![Seq::<char>::empty()]);
        assert(s =~= Seq::<char>::empty());
        if c == '.' {
            assert(split_dots(one) =~~= parts.push(Seq::<char>::empty()));
        } else {
            assert(split_dots(one) =~~= seq![seq![c]]);
            assert(parts.update(parts.len() - 1, parts.last().push(c)) =~~= seq![seq![c]]);
        }
    } else {
        let t = s.subrange(1, s.len() as int);
        lemma_split_dots_nonempty(t);
        lemma_split_dots_push(t, c);
        assert(s.push(c)[0] == s[0]);
        assert(s.push(c).subrange(1, s.len() as int + 1) =~= t.push(c));
        let rest = split_dots(t);
        let rest2 = split_dots(t.push(c));
        if c == '.' {
            assert(rest2 =~~= rest.push(Seq::<char>::empty()));
            if s[0] == '.' {
                assert(split_dots(s.push(c)) =~~= parts.push(Seq::<char>::empty()));
            } else {
                assert(rest2[0] == rest[0]);
                assert(rest2.subrange(1, rest2.len() as int) =~~= rest.subrange(
                    1,
                    rest.len() as int,
                ).push(Seq::<char>::empty()));
                assert(split_dots(s.push(c)) =~~= parts.push(Seq::<char>::empty()));
            }
        } else {
            assert(rest2 =~~= rest.update(rest.len() - 1, rest.last().push(c)));
            if s[0] == '.' {
                assert(split_dots(s.push(c)) =~~= parts.update(
                    parts.len() - 1,
                    parts.last().push(c),
                ));
            } else {
                if rest.len() == 1 {
                    assert(rest2[0] == rest[0].push(c));
                    assert((seq![s[0]] + rest[0]).push(c) =~= seq![s[0]] + rest[0].push(c));
                    assert(split_dots(s.push(c)) =~~= parts.update(
                        parts.len() - 1,
                        parts.last().push(c),
                    ));
                } else {
                    assert(rest2[0] == rest[0]);
                    assert(rest2.subrange(1, rest2.len() as int) =~~= rest.subrange(
                        1,
                        rest.len() as int,
                    ).update(rest.len() - 2, rest.last().push(c)));
                    assert(split_dots(s.push(c)) =~~= parts.update(
                        parts.len() - 1,
                        parts.last().push(c),
                    ));
                }
            }
        }
    }
}

/// What parsing a dotted-quad literal yields: the four octet values,
/// when the text is exactly four valid octet texts joined by dots.
pub open spec fn parse_ipv4_spec(s: Seq<char>) -> Option<Ipv4Octets> {
    let parts = split_dots(s);
    if parts.len() == 4 && (forall|i: int| 0 <= i < 4 ==> valid_octet_text(#[trigger] parts[i])) {
        Some(
            Ipv4Octets {
                a: digits_val(parts[0]) as u8,
                b: digits_val(parts[1]) as u8,
                c: digits_val(parts[2]) as u8,
                d: digits_val(parts[3]) as u8,
            },
        )
    } else {
        None
    }
}

/// The characters of `s`, in order.
fn chars_of(s: &str) -> (r: Vec<char>)
    ensures
        r@ == s@,
{
    let n = s.unicode_len();
    let mut r: Vec<char> = Vec::new();
    let mut i: usize = 0;
    while i < n
        invariant
            i <= n,
            n == s@.len(),
            r@.len() == i,
            forall|j: int| 0 <= j < i ==> r@[j] == s@[j],
        decreases n - i,
    {
        r.push(s.get_char(i));
        i += 1;
    }
    assert(r@ =~= s@);
    r
}

/// The value of one piece, when it is a valid octet text.
fn octet_of_part(p: &Vec<char>) -> (r: Option<u8>)
    ensures
        r is Some <==> valid_octet_text(p@),
        r is Some ==> r->0 == digits_val(p@),
{
    let n = p.len();
    if n < 1 || n > 3 {
        return None;
    }
    if n > 1 && p[0] == '0' {
        return None;
    }
    let mut val: u32 = 0;
    let mut k: usize = 0;
    while k < n
        invariant
            k <= n,
            n == p@.len() <= 3,
            all_digits(p@.take(k as int)),
            val == digits_val(p@.take(k as int)),
            k == 0 ==> val == 0,
            k == 1 ==> val <= 9,
            k == 2 ==> val <= 99,
            k == 3 ==> val <= 999,
        decreases n - k,
    {
        let c = p[k];
        let code = c as u32;
        if code < 48 || code > 57 {
            assert(!is_digit(p@[k as int]));
            return None;
        }
        assert(is_digit(p@[k as int]));
        assert(p@.take(k as int + 1).drop_last() =~= p@.take(k as int));
        val = val * 10 + (code - 48);
        k += 1;
    }
    assert(p@.take(n as int) =~= p@);
    if val > 255 {
        return None;
    }
    Some(val as u8)
}

/// Parse a dotted-quad IPv4 literal: four dot-separated decimal
/// octets, each 0..=255, without leading zeros. Anything else is
/// rejected.
pub fn parse_ipv4_literal(s: &str) -> (r: Option<Ipv4Octets>)
    ensures
        r == parse_ipv4_spec(s@),
{
    let cs = chars_of(s);
    let n = cs.len();
    let mut parts: Vec<Vec<char>> = Vec::new();
    let mut cur: Vec<char> = Vec::new();
    let mut i: usize = 0;
    proof {
        assert(cs@.take(0) =~= Seq::<char>::empty());
        assert(split_dots(Seq::<char>::empty()) =~~= seq![Seq::<char>::empty()]);
    }
    while i < n
        invariant
            i <= n,
            n == cs@.len(),
            cs@ == s@,
            split_dots(cs@.take(i as int)).len() == parts@.len() + 1,
            forall|j: int|
                0 <= j < parts@.len() ==> (#[trigger] parts@[j])@ == split_dots(
                    cs@.take(i as int),
                )[j],
            cur@ == split_dots(cs@.take(i as int)).last(),
        decreases n - i,
    {
        proof {
            lemma_split_dots_push(cs@.take(i as int), cs@[i as int]);
            assert(cs@.take(i as int + 1) =~= cs@.take(i as int).push(cs@[i as int]));
        }
        let c = cs[i];
        if c == '.' {
            parts.push(cur);
            cur = Vec::new();
        } else {
            cur.push(c);
        }
        i += 1;
    }
    proof {
        assert(cs@.take(n as int) =~= cs@);
    }
    parts.push(cur);
    if parts.len() != 4 {
        return None;
    }
    let o0 = octet_of_part(&parts[0]);
    let o1 = octet_of_part(&parts[1]);
    let o2 = octet_of_part(&parts[2]);
    let o3 = octet_of_part(&parts[3]);
    match (o0, o1, o2, o3) {
        (Some(a), Some(b), Some(c), Some(d)) => Some(Ipv4Octets { a, b, c, d }),
        _ => None,
    }
}

} // verus!
