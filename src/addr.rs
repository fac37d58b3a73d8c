//! Addresses and host names, and what the `url` crate parses.

use vstd::prelude::*;
use crate::text::{
    all_digits, decimal_value, digits_value, find_either, first_of, slice_of, string_of,
};

verus! {

/// An IP address: four octets, or eight 16-bit segments.
#[derive(Clone, Copy, Debug, PartialEq, Eq)]
pub enum IpAddress {
    V4([u8; 4]),
    V6([u16; 8]),
}

/// An IP address and a port.
#[derive(Clone, Copy, Debug, PartialEq, Eq)]
pub struct SocketAddress {
    pub ip: IpAddress,
    pub port: u16,
}

/// A host as a URL names it: a domain name or an IP literal.
#[derive(Clone, Debug)]
pub enum RemoteHost {
    Domain(String),
    Ipv4([u8; 4]),
    Ipv6([u16; 8]),
}

pub enum HostView {
    Domain(Seq<char>),
    Ipv4(Seq<u8>),
    Ipv6(Seq<u16>),
}

impl View for RemoteHost {
    type V = HostView;

    open spec fn view(&self) -> HostView {
        match self {
            RemoteHost::Domain(d) => HostView::Domain(d@),
            RemoteHost::Ipv4(a) => HostView::Ipv4(a@),
            RemoteHost::Ipv6(a) => HostView::Ipv6(a@),
        }
    }
}

pub open spec fn ip_view(ip: IpAddress) -> HostView {
    match ip {
        IpAddress::V4(a) => HostView::Ipv4(a@),
        IpAddress::V6(a) => HostView::Ipv6(a@),
    }
}

/// One octet of a dotted IPv4 address: one to three digits, no leading
/// zero, at most 255.
pub open spec fn octet_of(s: Seq<char>) -> Option<u8> {
    if 1 <= s.len() <= 3 && all_digits(s) && (s.len() == 1 || s[0] != '0')
        && decimal_value(s) <= 255 {
        Some(decimal_value(s) as u8)
    } else {
        None
    }
}

/// A dotted IPv4 address: exactly four octets separated by dots.
pub open spec fn ipv4_of(s: Seq<char>) -> Option<Seq<u8>> {
    let p1 = first_of(s, 0, '.', '.');
    let p2 = first_of(s, p1 + 1, '.', '.');
    let p3 = first_of(s, p2 + 1, '.', '.');
    if p3 < s.len() && first_of(s, p3 + 1, '.', '.') == s.len() {
        match (
            octet_of(s.subrange(0, p1)),
            octet_of(s.subrange(p1 + 1, p2)),
            octet_of(s.subrange(p2 + 1, p3)),
            octet_of(s.subrange(p3 + 1, s.len() as int)),
        ) {
            (Some(a), Some(b), Some(c), Some(d)) => Some(seq![a, b, c, d]),
            _ => None,
        }
    } else {
        None
    }
}

fn octet_at(v: &Vec<char>, lo: usize, hi: usize) -> (r: Option<u8>)
    requires
        lo <= hi <= v@.len(),
    ensures
        r == octet_of(v@.subrange(lo as int, hi as int)),
{
    let part = slice_of(v, lo, hi);
    if part.len() < 1 || part.len() > 3 || (part.len() > 1 && part[0] == '0') {
        return None;
    }
    assert(part@.subrange(0, part@.len() as int) =~= part@);
    match digits_value(&part, 0, 255) {
        Some(n) => Some(n as u8),
        None => None,
    }
}

/// Reads the characters `v[lo..hi]` as a dotted IPv4 address.
pub(crate) fn parse_ipv4_at(v: &Vec<char>, lo: usize, hi: usize) -> (r: Option<[u8; 4]>)
    requires
        lo <= hi <= v@.len(),
    ensures
        r matches Some(a) ==> ipv4_of(v@.subrange(lo as int, hi as int)) == Some(a@),
        r is None ==> ipv4_of(v@.subrange(lo as int, hi as int)) is None,
{
    let s = slice_of(v, lo, hi);
    let p1 = find_either(&s, 0, '.', '.');
    if p1 == s.len() {
        return None;
    }
    let p2 = find_either(&s, p1 + 1, '.', '.');
    if p2 == s.len() {
        return None;
    }
    let p3 = find_either(&s, p2 + 1, '.', '.');
    if p3 == s.len() {
        return None;
    }
    let p4 = find_either(&s, p3 + 1, '.', '.');
    if p4 != s.len() {
        return None;
    }
    let a = octet_at(&s, 0, p1);
    let b = octet_at(&s, p1 + 1, p2);
    let c = octet_at(&s, p2 + 1, p3);
    let d = octet_at(&s, p3 + 1, s.len());
    match (a, b, c, d) {
        (Some(a), Some(b), Some(c), Some(d)) => {
            let r = [a, b, c, d];
            assert(r@ =~= seq![a, b, c, d]);
            Some(r)
        },
        _ => None,
    }
}

/// What `url::Host::parse` makes of `[` + `s` + `]`: the segments of the
/// IPv6 address that `s` writes, if it writes one.
pub uninterp spec fn ipv6_of(s: Seq<char>) -> Option<Seq<u16>>;

/// Relies on `url::Host::parse`, whose bracketed form parses an IPv6 literal.
#[verifier::external_body]
fn parse_ipv6(s: &str) -> (r: Option<[u16; 8]>)
    ensures
        r matches Some(a) ==> ipv6_of(s@) == Some(a@),
        r is None ==> ipv6_of(s@) is None,
{
    match url::Host::parse(&format!("[{}]", s)) {
        Ok(url::Host::Ipv6(a)) => Some(a.segments()),
        _ => None,
    }
}

/// Reads the characters `v[lo..hi]` as an IPv6 address.
pub(crate) fn parse_ipv6_at(v: &Vec<char>, lo: usize, hi: usize) -> (r: Option<[u16; 8]>)
    requires
        lo <= hi <= v@.len(),
    ensures
        r matches Some(a) ==> ipv6_of(v@.subrange(lo as int, hi as int)) == Some(a@),
        r is None ==> ipv6_of(v@.subrange(lo as int, hi as int)) is None,
{
    let part = slice_of(v, lo, hi);
    let s = string_of(&part);
    parse_ipv6(s.as_str())
}

/// The parts of a parsed URL that this library reads.
#[derive(Clone, Debug)]
pub struct UrlParts {
    pub scheme: String,
    pub host: Option<RemoteHost>,
    pub port: Option<u16>,
    pub port_or_known_default: Option<u16>,
    pub query: Vec<(String, String)>,
}

pub struct UrlView {
    pub scheme: Seq<char>,
    pub host: Option<HostView>,
    pub port: Option<u16>,
    pub port_or_known_default: Option<u16>,
    pub query: Seq<(Seq<char>, Seq<char>)>,
}

pub open spec fn pairs_view(q: Seq<(String, String)>) -> Seq<(Seq<char>, Seq<char>)> {
    q.map_values(|p: (String, String)| (p.0@, p.1@))
}

pub open spec fn host_opt_view(h: Option<RemoteHost>) -> Option<HostView> {
    match h {
        Some(h) => Some(h@),
        None => None,
    }
}

impl View for UrlParts {
    type V = UrlView;

    open spec fn view(&self) -> UrlView {
        UrlView {
            scheme: self.scheme@,
            host: host_opt_view(self.host),
            port: self.port,
            port_or_known_default: self.port_or_known_default,
            query: pairs_view(self.query@),
        }
    }
}

/// What `url::Url::parse` makes of a string, as read through the URL's
/// scheme, host, port, port_or_known_default and query_pairs.
pub uninterp spec fn url_of(s: Seq<char>) -> Option<UrlView>;

/// Relies on `url::Url::parse` and the accessors named in `url_of`; the query
/// pairs are percent-decoded and kept in order.
#[verifier::external_body]
pub(crate) fn parse_url(s: &str) -> (r: Option<UrlParts>)
    ensures
        r matches Some(u) ==> url_of(s@) == Some(u@),
        r is None ==> url_of(s@) is None,
{
    let u = url::Url::parse(s).ok()?;
    let host = match u.host() {
        Some(url::Host::Domain(d)) => Some(RemoteHost::Domain(d.to_string())),
        Some(url::Host::Ipv4(a)) => Some(RemoteHost::Ipv4(a.octets())),
        Some(url::Host::Ipv6(a)) => Some(RemoteHost::Ipv6(a.segments())),
        None => None,
    };
    let query = u.query_pairs().into_owned().collect();
    let (port, port_or_known_default) = (u.port(), u.port_or_known_default());
    Some(UrlParts { scheme: u.scheme().to_string(), host, port, port_or_known_default, query })
}

} // verus!
