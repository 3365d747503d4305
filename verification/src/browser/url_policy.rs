//! Which URLs the browser may navigate to.

use vstd::prelude::*;

use crate::browser::error::BrowserError;
use crate::text::{ascii_lower, eq_lower, ends_with_lower, lower_char, str_eq};

verus! {

/// What the URL parser reports of a URL that parses: its scheme and its host.
pub struct UrlParts {
    /// Lower-cased scheme, without the ':' delimiter.
    pub scheme: String,
    /// The host as text, when the URL has one.
    pub host: Option<String>,
}

impl View for UrlParts {
    type V = (Seq<char>, Option<Seq<char>>);

    open spec fn view(&self) -> (Seq<char>, Option<Seq<char>>) {
        (self.scheme@, match &self.host {
            Some(h) => Some(h@),
            None => None,
        })
    }
}

/// What `url::Url::parse` makes of `input`: on success the URL's `scheme()`
/// and `host_str()`, on failure the text (`Display`) of the error it reports.
pub uninterp spec fn url_parse_outcome(input: Seq<char>) -> Result<(Seq<char>, Option<Seq<char>>), Seq<char>>;

#[verifier::external_type_specification]
#[verifier::external_body]
pub struct ExUrlParseError(url::ParseError);

/// A URL that did not parse: the parser's error and its text.
pub struct UrlParseFailure {
    pub error: url::ParseError,
    pub message: String,
}

/// Calls `url::Url::parse` and converts its outcome to plain values: a parsed
/// URL to the two values the policy reads, through its accessors `scheme()` and
/// `host_str()`; an error to itself beside its text (`to_string()`).
///
/// Claims: the outcome is the one `url_parse_outcome(input)` names, and, as the
/// url crate documents, a parsed scheme is lower-cased ASCII.
#[verifier::external_body]
fn parse_url(input: &str) -> (r: Result<UrlParts, UrlParseFailure>)
    ensures
        r matches Ok(p) ==> (url_parse_outcome(input@) matches Ok(q) && q == p@),
        r matches Err(f) ==> (url_parse_outcome(input@) matches Err(t) && t == f.message@),
        r matches Ok(p) ==> ascii_lower(p.scheme@) == p.scheme@,
{
    match url::Url::parse(input) {
        Ok(u) => Ok(
            UrlParts { scheme: u.scheme().to_string(), host: u.host_str().map(|h| h.to_string()) },
        ),
        Err(e) => Err(UrlParseFailure { message: e.to_string(), error: e }),
    }
}

pub open spec fn is_web_scheme(scheme: Seq<char>) -> bool {
    scheme == "http"@ || scheme == "https"@
}

pub open spec fn has_suffix(s: Seq<char>, suffix: Seq<char>) -> bool {
    s.len() >= suffix.len() && s.subrange(s.len() - suffix.len(), s.len() as int) == suffix
}

/// The state of reading a dotted-decimal IPv4 address one character at a time.
pub struct Ipv4Scan {
    /// The octets read so far, before the one being read.
    pub octets: Seq<nat>,
    /// The value of the octet being read.
    pub current: nat,
    /// How many digits of it were read.
    pub digits: nat,
    /// Whether the text read so far can still be an address.
    pub ok: bool,
}

pub open spec fn ipv4_start() -> Ipv4Scan {
    Ipv4Scan { octets: seq![], current: 0, digits: 0, ok: true }
}

/// One character of an IPv4 address: up to three digits per octet, each
/// octet at most 255, four octets separated by '.'.
pub open spec fn ipv4_step(st: Ipv4Scan, c: char) -> Ipv4Scan {
    if !st.ok {
        st
    } else if '0' <= c && c <= '9' {
        let v = st.current * 10 + (c as u32 - '0' as u32);
        if st.digits >= 3 || v > 255 {
            Ipv4Scan { ok: false, ..st }
        } else {
            Ipv4Scan { current: v as nat, digits: st.digits + 1, ..st }
        }
    } else if c == '.' {
        if st.digits == 0 || st.octets.len() >= 3 {
            Ipv4Scan { ok: false, ..st }
        } else {
            Ipv4Scan { octets: st.octets.push(st.current), current: 0, digits: 0, ok: true }
        }
    } else {
        Ipv4Scan { ok: false, ..st }
    }
}

pub open spec fn ipv4_scan(s: Seq<char>) -> Ipv4Scan
    decreases s.len(),
{
    if s.len() == 0 {
        ipv4_start()
    } else {
        ipv4_step(ipv4_scan(s.drop_last()), s.last())
    }
}

/// The four octets of a host written as a dotted-decimal IPv4 address.
pub open spec fn ipv4_octets(host: Seq<char>) -> Option<Seq<nat>> {
    let st = ipv4_scan(host);
    if st.ok && st.digits > 0 && st.octets.len() == 3 {
        Some(st.octets.push(st.current))
    } else {
        None
    }
}

/// An address in 127.0.0.0/8.
pub open spec fn is_loopback_ipv4(host: Seq<char>) -> bool {
    ipv4_octets(host) matches Some(o) && o[0] == 127
}

/// Octets in one of the private ranges 10.0.0.0/8, 172.16.0.0/12 and
/// 192.168.0.0/16.
pub open spec fn private_octets(o: Seq<nat>) -> bool {
    o[0] == 10 || (o[0] == 172 && 16 <= o[1] <= 31) || (o[0] == 192 && o[1] == 168)
}

/// An address in one of the private IPv4 ranges.
pub open spec fn is_private_ipv4(host: Seq<char>) -> bool {
    ipv4_octets(host) matches Some(o) && private_octets(o)
}

/// The state of reading the inside of a bracketed IPv6 address one character
/// at a time.
pub struct Ipv6Scan {
    /// The 16-bit groups read before a "::", or all of them when there is none.
    pub head: Seq<nat>,
    /// The groups read after the "::".
    pub tail: Seq<nat>,
    /// Whether a "::" was read.
    pub compressed: bool,
    /// The value of the group being read.
    pub current: nat,
    /// How many hex digits of it were read.
    pub digits: nat,
    /// How many ':' were read since the last digit.
    pub colons: nat,
    /// Whether the text read so far can still be an address.
    pub ok: bool,
}

pub open spec fn ipv6_start() -> Ipv6Scan {
    Ipv6Scan {
        head: seq![],
        tail: seq![],
        compressed: false,
        current: 0,
        digits: 0,
        colons: 0,
        ok: true,
    }
}

/// The value of a lower-case hexadecimal digit.
pub open spec fn hex_digit_value(c: char) -> Option<nat> {
    if '0' <= c && c <= '9' {
        Some((c as u32 - '0' as u32) as nat)
    } else if 'a' <= c && c <= 'f' {
        Some((c as u32 - 'a' as u32 + 10) as nat)
    } else {
        None
    }
}

/// One character of an IPv6 address: groups of one to four hex digits
/// separated by ':', at most eight groups, and at most one "::", which stands
/// for a run of zero groups.
pub open spec fn ipv6_step(st: Ipv6Scan, c: char) -> Ipv6Scan {
    if !st.ok {
        st
    } else if hex_digit_value(c) is Some {
        let d = hex_digit_value(c).unwrap();
        if st.digits >= 4 || (st.colons == 1 && st.head.len() == 0 && !st.compressed) {
            Ipv6Scan { ok: false, ..st }
        } else {
            Ipv6Scan { current: st.current * 16 + d, digits: st.digits + 1, colons: 0, ..st }
        }
    } else if c == ':' {
        if st.digits > 0 {
            if st.head.len() + st.tail.len() >= 7 {
                Ipv6Scan { ok: false, ..st }
            } else if st.compressed {
                Ipv6Scan { tail: st.tail.push(st.current), current: 0, digits: 0, colons: 1, ..st }
            } else {
                Ipv6Scan { head: st.head.push(st.current), current: 0, digits: 0, colons: 1, ..st }
            }
        } else if st.colons == 1 && !st.compressed {
            Ipv6Scan { compressed: true, colons: 2, ..st }
        } else if st.colons == 0 && st.head.len() == 0 && !st.compressed {
            Ipv6Scan { colons: 1, ..st }
        } else {
            Ipv6Scan { ok: false, ..st }
        }
    } else {
        Ipv6Scan { ok: false, ..st }
    }
}

pub open spec fn ipv6_scan(s: Seq<char>) -> Ipv6Scan
    decreases s.len(),
{
    if s.len() == 0 {
        ipv6_start()
    } else {
        ipv6_step(ipv6_scan(s.drop_last()), s.last())
    }
}

/// `n` zero groups.
pub open spec fn zero_groups(n: nat) -> Seq<nat> {
    Seq::new(n, |i: int| 0nat)
}

/// The eight groups of an address once all of it was read.
pub open spec fn ipv6_finish(st: Ipv6Scan) -> Option<Seq<nat>> {
    if !st.ok || (st.digits == 0 && st.colons != 2) {
        None
    } else {
        let last: Seq<nat> = if st.digits > 0 {
            seq![st.current]
        } else {
            seq![]
        };
        if st.compressed {
            let tail = st.tail + last;
            if st.head.len() + tail.len() <= 7 {
                Some(st.head + zero_groups((8 - st.head.len() - tail.len()) as nat) + tail)
            } else {
                None
            }
        } else {
            let head = st.head + last;
            if head.len() == 8 {
                Some(head)
            } else {
                None
            }
        }
    }
}

/// The eight 16-bit groups of a host written as a bracketed IPv6 address.
pub open spec fn ipv6_groups(host: Seq<char>) -> Option<Seq<nat>> {
    if host.len() >= 2 && host[0] == '[' && host[host.len() - 1] == ']' {
        ipv6_finish(ipv6_scan(host.subrange(1, host.len() - 1)))
    } else {
        None
    }
}

/// The IPv4 address that an IPv4-mapped IPv6 address (`::ffff:a.b.c.d`)
/// stands for.
pub open spec fn ipv4_mapped_octets(g: Seq<nat>) -> Option<Seq<nat>> {
    if g.len() == 8 && g[0] == 0 && g[1] == 0 && g[2] == 0 && g[3] == 0 && g[4] == 0 && g[5]
        == 0xffff {
        Some(seq![g[6] / 256, g[6] % 256, g[7] / 256, g[7] % 256])
    } else {
        None
    }
}

/// The IPv6 loopback `::1`, the unspecified address `::`, or an IPv4-mapped
/// address of 127.0.0.0/8 or of 0.0.0.0.
pub open spec fn is_loopback_ipv6(host: Seq<char>) -> bool {
    ipv6_groups(host) matches Some(g) && ({
        ||| (g[0] == 0 && g[1] == 0 && g[2] == 0 && g[3] == 0 && g[4] == 0 && g[5] == 0 && g[6]
            == 0 && (g[7] == 0 || g[7] == 1))
        ||| (ipv4_mapped_octets(g) matches Some(o) && (o[0] == 127 || (o[0] == 0 && o[1] == 0
            && o[2] == 0 && o[3] == 0)))
    })
}

/// The IPv4-mapped form of the cloud metadata address 169.254.169.254.
pub open spec fn is_metadata_ipv6(host: Seq<char>) -> bool {
    ipv6_groups(host) matches Some(g) && ipv4_mapped_octets(g) matches Some(o) && o[0] == 169
        && o[1] == 254 && o[2] == 169 && o[3] == 254
}

/// A unique local address (fc00::/7) or the IPv4-mapped form of a private
/// IPv4 address.
pub open spec fn is_private_ipv6(host: Seq<char>) -> bool {
    ipv6_groups(host) matches Some(g) && (0xfc00 <= g[0] <= 0xfdff || (ipv4_mapped_octets(
        g,
    ) matches Some(o) && private_octets(o)))
}

/// A localhost or loopback host, compared without regard to ASCII case.
pub open spec fn is_loopback_host(host: Seq<char>) -> bool {
    let h = ascii_lower(host);
    ||| h == "localhost"@
    ||| has_suffix(h, ".localhost"@)
    ||| is_loopback_ipv4(h)
    ||| h == "[::1]"@
    ||| h == "0.0.0.0"@
    ||| is_loopback_ipv6(h)
}

/// A cloud metadata endpoint, compared without regard to ASCII case.
pub open spec fn is_metadata_host(host: Seq<char>) -> bool {
    let h = ascii_lower(host);
    ||| h == "169.254.169.254"@
    ||| h == "metadata.google.internal"@
    ||| is_metadata_ipv6(h)
}

/// A private-network address, IPv4 or IPv6.
pub open spec fn is_private_host(host: Seq<char>) -> bool {
    is_private_ipv4(ascii_lower(host)) || is_private_ipv6(ascii_lower(host))
}

/// Why a parsed URL is refused, or `None` when it is allowed.
pub open spec fn url_refusal(scheme: Seq<char>, host: Option<Seq<char>>) -> Option<Seq<char>> {
    if !is_web_scheme(scheme) {
        Some("scheme '"@ + scheme + "' is not allowed; use http or https"@)
    } else {
        match host {
            Some(h) => if is_loopback_host(h) {
                Some("localhost/loopback addresses are not allowed"@)
            } else if is_metadata_host(h) {
                Some("cloud metadata endpoints are not allowed"@)
            } else if is_private_host(h) {
                Some("private network addresses are not allowed"@)
            } else {
                None
            },
            None => None,
        }
    }
}

pub open spec fn octet_views(v: Seq<u32>) -> Seq<nat> {
    v.map_values(|x: u32| x as nat)
}

/// The first two octets of `host` (ASCII-lower-cased) when it is a
/// dotted-decimal IPv4 address.
fn ipv4_leading_octets(host: &str) -> (r: Option<(u32, u32)>)
    ensures
        r is Some <==> ipv4_octets(ascii_lower(host@)) is Some,
        r matches Some(p) ==> (ipv4_octets(ascii_lower(host@)) matches Some(o) && p.0 == o[0]
            && p.1 == o[1]),
{
    let n: usize = host.unicode_len();
    let ghost low = ascii_lower(host@);
    let mut octets: Vec<u32> = Vec::new();
    let mut current: u32 = 0;
    let mut digits: u32 = 0;
    let mut ok: bool = true;
    let mut i: usize = 0;
    proof {
        assert(low.take(0) =~= Seq::<char>::empty());
        assert(octet_views(octets@) =~= Seq::<nat>::empty());
    }
    while i < n
        invariant
            n == host@.len(),
            low == ascii_lower(host@),
            i <= n,
            ipv4_scan(low.take(i as int)) == (Ipv4Scan {
                octets: octet_views(octets@),
                current: current as nat,
                digits: digits as nat,
                ok,
            }),
            current <= 255,
            digits <= 3,
            octets@.len() <= 3,
            forall|k: int| 0 <= k < octets@.len() ==> octets@[k] <= 255,
        decreases n - i,
    {
        let c = lower_char(host.get_char(i));
        proof {
            assert(low.take(i + 1).drop_last() =~= low.take(i as int));
            assert(low.take(i + 1).last() == c);
        }
        if ok {
            if '0' <= c && c <= '9' {
                let d: u32 = (c as u32) - ('0' as u32);
                let v: u32 = current * 10 + d;
                if digits >= 3 || v > 255 {
                    ok = false;
                } else {
                    current = v;
                    digits = digits + 1;
                }
            } else if c == '.' {
                if digits == 0 || octets.len() >= 3 {
                    ok = false;
                } else {
                    let ghost prev = octets@;
                    octets.push(current);
                    proof {
                        assert(octet_views(octets@) =~= octet_views(prev).push(current as nat));
                    }
                    current = 0;
                    digits = 0;
                }
            } else {
                ok = false;
            }
        }
        i = i + 1;
    }
    proof {
        assert(low.take(n as int) =~= low);
    }
    if ok && digits > 0 && octets.len() == 3 {
        Some((octets[0], octets[1]))
    } else {
        None
    }
}

/// An address read from a host always has eight groups.
proof fn lemma_ipv6_groups_len(host: Seq<char>)
    ensures
        ipv6_groups(host) matches Some(g) ==> g.len() == 8,
{
    if host.len() >= 2 && host[0] == '[' && host[host.len() - 1] == ']' {
        let st = ipv6_scan(host.subrange(1, host.len() - 1));
        let last: Seq<nat> = if st.digits > 0 {
            seq![st.current]
        } else {
            seq![]
        };
        if st.compressed && st.head.len() + (st.tail + last).len() <= 7 {
            assert(zero_groups((8 - st.head.len() - (st.tail + last).len()) as nat).len() == 8
                - st.head.len() - (st.tail + last).len());
        }
    }
}

pub open spec fn group_views(v: Seq<u32>) -> Seq<nat> {
    v.map_values(|x: u32| x as nat)
}

/// `head`, then as many zero groups as make eight groups, then `tail`.
fn ipv6_expand(head: &Vec<u32>, tail: &Vec<u32>) -> (r: Vec<u32>)
    requires
        head.len() + tail.len() <= 8,
    ensures
        group_views(r@) == group_views(head@) + zero_groups((8 - head.len() - tail.len()) as nat)
            + group_views(tail@),
{
    let zeros: usize = 8 - head.len() - tail.len();
    let mut r: Vec<u32> = Vec::new();
    let mut i: usize = 0;
    while i < head.len()
        invariant
            i <= head.len(),
            r@ == head@.take(i as int),
        decreases head.len() - i,
    {
        r.push(head[i]);
        i = i + 1;
        proof {
            assert(r@ =~= head@.take(i as int));
        }
    }
    let mut j: usize = 0;
    while j < zeros
        invariant
            j <= zeros,
            r@ == head@ + Seq::new(j as nat, |k: int| 0u32),
        decreases zeros - j,
    {
        r.push(0);
        j = j + 1;
        proof {
            assert(r@ =~= head@ + Seq::new(j as nat, |k: int| 0u32));
        }
    }
    let mut k: usize = 0;
    while k < tail.len()
        invariant
            k <= tail.len(),
            r@ == head@ + Seq::new(zeros as nat, |x: int| 0u32) + tail@.take(k as int),
        decreases tail.len() - k,
    {
        r.push(tail[k]);
        k = k + 1;
        proof {
            assert(r@ =~= head@ + Seq::new(zeros as nat, |x: int| 0u32) + tail@.take(k as int));
        }
    }
    proof {
        assert(tail@.take(tail.len() as int) =~= tail@);
        assert(group_views(r@) =~= group_views(head@) + zero_groups(zeros as nat) + group_views(
            tail@,
        ));
    }
    r
}

/// The eight groups of `host` (ASCII-lower-cased) when it is a bracketed IPv6
/// address.
fn ipv6_groups_of_host(host: &str) -> (r: Option<Vec<u32>>)
    ensures
        r is Some <==> ipv6_groups(ascii_lower(host@)) is Some,
        r matches Some(v) ==> ipv6_groups(ascii_lower(host@)) == Some(group_views(v@)),
{
    let n: usize = host.unicode_len();
    let ghost low = ascii_lower(host@);
    if n < 2 {
        return None;
    }
    let first = lower_char(host.get_char(0));
    let last = lower_char(host.get_char(n - 1));
    if first != '[' || last != ']' {
        return None;
    }
    let ghost inner = low.subrange(1, n - 1);
    let mut head: Vec<u32> = Vec::new();
    let mut tail: Vec<u32> = Vec::new();
    let mut compressed: bool = false;
    let mut current: u32 = 0;
    let mut digits: u32 = 0;
    let mut colons: u32 = 0;
    let mut ok: bool = true;
    let mut i: usize = 1;
    proof {
        assert(inner.take(0) =~= Seq::<char>::empty());
        assert(group_views(head@) =~= Seq::<nat>::empty());
        assert(group_views(tail@) =~= Seq::<nat>::empty());
    }
    while i < n - 1
        invariant
            n == host@.len(),
            n >= 2,
            low == ascii_lower(host@),
            inner == low.subrange(1, n - 1),
            1 <= i <= n - 1,
            ipv6_scan(inner.take(i - 1)) == (Ipv6Scan {
                head: group_views(head@),
                tail: group_views(tail@),
                compressed,
                current: current as nat,
                digits: digits as nat,
                colons: colons as nat,
                ok,
            }),
            digits <= 4,
            colons <= 2,
            current < 65536,
            digits <= 3 ==> current < 4096,
            digits <= 2 ==> current < 256,
            digits <= 1 ==> current < 16,
            digits == 0 ==> current == 0,
            head.len() + tail.len() <= 7,
        decreases n - 1 - i,
    {
        let c = lower_char(host.get_char(i));
        proof {
            assert(inner.take(i - 1 + 1).drop_last() =~= inner.take(i - 1));
            assert(inner.take(i - 1 + 1).last() == c);
        }
        if ok {
            let hex: Option<u32> = if '0' <= c && c <= '9' {
                Some((c as u32) - ('0' as u32))
            } else if 'a' <= c && c <= 'f' {
                Some((c as u32) - ('a' as u32) + 10)
            } else {
                None
            };
            match hex {
                Some(d) => {
                    if digits >= 4 || (colons == 1 && head.len() == 0 && !compressed) {
                        ok = false;
                    } else {
                        current = current * 16 + d;
                        digits = digits + 1;
                        colons = 0;
                    }
                },
                None => {
                    if c == ':' {
                        if digits > 0 {
                            if head.len() + tail.len() >= 7 {
                                ok = false;
                            } else if compressed {
                                let ghost prev = tail@;
                                tail.push(current);
                                proof {
                                    assert(group_views(tail@) =~= group_views(prev).push(
                                        current as nat,
                                    ));
                                }
                                current = 0;
                                digits = 0;
                                colons = 1;
                            } else {
                                let ghost prev = head@;
                                head.push(current);
                                proof {
                                    assert(group_views(head@) =~= group_views(prev).push(
                                        current as nat,
                                    ));
                                }
                                current = 0;
                                digits = 0;
                                colons = 1;
                            }
                        } else if colons == 1 && !compressed {
                            compressed = true;
                            colons = 2;
                        } else if colons == 0 && head.len() == 0 && !compressed {
                            colons = 1;
                        } else {
                            ok = false;
                        }
                    } else {
                        ok = false;
                    }
                },
            }
        }
        i = i + 1;
    }
    proof {
        assert(inner.take(n - 2) =~= inner);
        assert(host@.len() >= 2 && low[0] == '[' && low[low.len() - 1] == ']');
    }
    if !ok || (digits == 0 && colons != 2) {
        return None;
    }
    if digits > 0 {
        if compressed {
            let ghost prev = tail@;
            tail.push(current);
            proof {
                assert(group_views(tail@) =~= group_views(prev) + seq![current as nat]);
            }
        } else {
            let ghost prev = head@;
            head.push(current);
            proof {
                assert(group_views(head@) =~= group_views(prev) + seq![current as nat]);
            }
        }
    } else {
        proof {
            assert(group_views(tail@) =~= group_views(tail@) + Seq::<nat>::empty());
            assert(group_views(head@) =~= group_views(head@) + Seq::<nat>::empty());
        }
    }
    if compressed {
        if head.len() + tail.len() <= 7 {
            Some(ipv6_expand(&head, &tail))
        } else {
            None
        }
    } else if head.len() == 8 {
        Some(head)
    } else {
        None
    }
}

/// Whether `host` (ASCII-lower-cased) is a loopback, a cloud-metadata and a
/// private-network IPv6 address, in that order.
fn ipv6_verdicts(host: &str) -> (r: (bool, bool, bool))
    ensures
        r.0 == is_loopback_ipv6(ascii_lower(host@)),
        r.1 == is_metadata_ipv6(ascii_lower(host@)),
        r.2 == is_private_ipv6(ascii_lower(host@)),
{
    match ipv6_groups_of_host(host) {
        None => (false, false, false),
        Some(g) => {
            proof {
                lemma_ipv6_groups_len(ascii_lower(host@));
                assert(group_views(g@).len() == g@.len());
            }
            let zero_prefix = g[0] == 0 && g[1] == 0 && g[2] == 0 && g[3] == 0 && g[4] == 0;
            let mapped = zero_prefix && g[5] == 0xffff;
            let a: u32 = g[6] / 256;
            let b: u32 = g[6] % 256;
            let c: u32 = g[7] / 256;
            let d: u32 = g[7] % 256;
            let loopback = (zero_prefix && g[5] == 0 && g[6] == 0 && g[7] <= 1) || (mapped && (a
                == 127 || (a == 0 && b == 0 && c == 0 && d == 0)));
            let metadata = mapped && a == 169 && b == 254 && c == 169 && d == 254;
            let private = (0xfc00 <= g[0] && g[0] <= 0xfdff) || (mapped && (a == 10 || (a == 172
                && 16 <= b && b <= 31) || (a == 192 && b == 168)));
            (loopback, metadata, private)
        },
    }
}

/// Applies the navigation policy to what the parser reported of `url`.
pub fn check_url_parts(url: &str, parts: &UrlParts) -> (r: Result<(), BrowserError>)
    ensures
        url_refusal(parts@.0, parts@.1) is None ==> r is Ok,
        url_refusal(parts@.0, parts@.1) matches Some(reason) ==> (r matches Err(
            BrowserError::InvalidUrl { url: u, reason: m },
        ) && u@ == url@ && m@ == reason),
{
    if !(str_eq(parts.scheme.as_str(), "http") || str_eq(parts.scheme.as_str(), "https")) {
        let reason = String::from_str("scheme '").concat(parts.scheme.as_str()).concat(
            "' is not allowed; use http or https",
        );
        return Err(BrowserError::InvalidUrl { url: String::from_str(url), reason });
    }
    match &parts.host {
        Some(h) => {
            let host = h.as_str();
            let ipv4 = ipv4_leading_octets(host);
            let (loopback_ipv6, metadata_ipv6, private_ipv6) = ipv6_verdicts(host);
            let loopback_ipv4 = match ipv4 {
                Some((a, _)) => a == 127,
                None => false,
            };
            if eq_lower(host, "localhost") || ends_with_lower(host, ".localhost") || loopback_ipv4
                || eq_lower(host, "[::1]") || eq_lower(host, "0.0.0.0") || loopback_ipv6 {
                return Err(
                    BrowserError::InvalidUrl {
                        url: String::from_str(url),
                        reason: String::from_str("localhost/loopback addresses are not allowed"),
                    },
                );
            }
            if eq_lower(host, "169.254.169.254") || eq_lower(host, "metadata.google.internal")
                || metadata_ipv6 {
                return Err(
                    BrowserError::InvalidUrl {
                        url: String::from_str(url),
                        reason: String::from_str("cloud metadata endpoints are not allowed"),
                    },
                );
            }
            let private_ipv4 = match ipv4 {
                Some((a, b)) => a == 10 || (a == 172 && 16 <= b && b <= 31) || (a == 192 && b
                    == 168),
                None => false,
            };
            if private_ipv4 || private_ipv6 {
                return Err(
                    BrowserError::InvalidUrl {
                        url: String::from_str(url),
                        reason: String::from_str("private network addresses are not allowed"),
                    },
                );
            }
            Ok(())
        },
        None => Ok(()),
    }
}

/// Validates a URL for browser navigation: it must parse, use http or https,
/// and not point at
/// - a localhost or loopback host: `localhost` and its subdomains, 127.0.0.0/8,
///   `::1`, the unspecified addresses `0.0.0.0` and `::`, and IPv6 addresses
///   that map 127.0.0.0/8 or `0.0.0.0`;
/// - a cloud metadata endpoint: `169.254.169.254` (also in its IPv4-mapped
///   IPv6 form) and `metadata.google.internal`;
/// - a private-network address: 10.0.0.0/8, 172.16.0.0/12, 192.168.0.0/16,
///   their IPv4-mapped IPv6 forms, and unique local IPv6 addresses (fc00::/7).
pub fn validate_browser_url(url: &str) -> (r: Result<(), BrowserError>)
    ensures
        url_parse_outcome(url@) matches Err(text) ==> (r matches Err(
            BrowserError::InvalidUrl { url: u, reason: m },
        ) && u@ == url@ && m@ == text),
        url_parse_outcome(url@) matches Ok(p) ==> {
            &&& url_refusal(p.0, p.1) is None ==> r is Ok
            &&& url_refusal(p.0, p.1) matches Some(reason) ==> (r matches Err(
                BrowserError::InvalidUrl { url: u, reason: m },
            ) && u@ == url@ && m@ == reason)
        },
        r is Ok ==> (url_parse_outcome(url@) matches Ok(p) && is_web_scheme(p.0) && (p.1 matches Some(
            h,
        ) ==> !is_loopback_host(h) && !is_metadata_host(h) && !is_private_host(h))),
{
    match parse_url(url) {
        Ok(parts) => check_url_parts(url, &parts),
        Err(failure) => Err(
            BrowserError::InvalidUrl { url: String::from_str(url), reason: failure.message },
        ),
    }
}

/// The host checks ignore ASCII case: two hosts that differ only in the case
/// of ASCII letters are refused or allowed alike, for the same reason.
pub proof fn lemma_refusal_ignores_host_case(scheme: Seq<char>, h1: Seq<char>, h2: Seq<char>)
    requires
        ascii_lower(h1) == ascii_lower(h2),
    ensures
        url_refusal(scheme, Some(h1)) == url_refusal(scheme, Some(h2)),
{
}

/// Loopback (all of 127.0.0.0/8, `::1`, `::`) and private-network hosts, IPv4
/// or IPv6, and IPv6 addresses that map an IPv4 loopback, metadata or private
/// address, are always refused.
pub proof fn lemma_private_and_loopback_refused(scheme: Seq<char>, host: Seq<char>)
    requires
        is_loopback_ipv4(ascii_lower(host)) || is_loopback_ipv6(ascii_lower(host))
            || is_metadata_ipv6(ascii_lower(host)) || is_private_host(host),
    ensures
        url_refusal(scheme, Some(host)) is Some,
{
}

/// An IPv4-mapped IPv6 host that maps a loopback, metadata or private IPv4
/// address is refused; one that maps a loopback address is refused as a
/// loopback address.
pub proof fn lemma_mapped_ipv4_refused(scheme: Seq<char>, host: Seq<char>)
    requires
        is_web_scheme(scheme),
        ipv6_groups(ascii_lower(host)) matches Some(g) && ipv4_mapped_octets(g) is Some,
    ensures
        ({
            let o = ipv4_mapped_octets(ipv6_groups(ascii_lower(host))->0)->0;
            &&& (o[0] == 127 || (o[0] == 0 && o[1] == 0 && o[2] == 0 && o[3] == 0)) ==> url_refusal(
                scheme,
                Some(host),
            ) == Some("localhost/loopback addresses are not allowed"@)
            &&& (o[0] == 169 && o[1] == 254 && o[2] == 169 && o[3] == 254) ==> url_refusal(
                scheme,
                Some(host),
            ) is Some
            &&& private_octets(o) ==> url_refusal(scheme, Some(host)) is Some
        }),
{
}

/// Only http and https URLs are ever allowed, whatever their host.
pub proof fn lemma_only_web_schemes(scheme: Seq<char>, host: Option<Seq<char>>)
    ensures
        url_refusal(scheme, host) is None ==> is_web_scheme(scheme),
{
}

} // verus!
