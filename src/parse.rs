//! Parsers for the values of the command surface: tunnel specifications,
//! durations, headers, credentials and the server URL.

use base64::Engine;
use vstd::prelude::*;
use crate::addr::{
    HostView, IpAddress, RemoteHost, SocketAddress, UrlParts, ip_view, ipv4_of, ipv6_of,
    pairs_view, parse_ipv4_at, parse_ipv6_at, parse_url, url_of,
};
use crate::config::{ConfigError, HostPort, LocalProtocol, LocalToRemote, TunnelView};
use crate::text::{i32_of, parse_i32, trim, trim_of};
use crate::text::{
    chars_of, find_either, first_of, parse_unsigned, push_str, skip_char, skip_run, slice_of,
    string_of, substring, unsigned_of,
};

verus! {

/// A number of seconds.
pub fn parse_duration_sec(arg: &str) -> (r: Result<u64, ConfigError>)
    ensures
        r matches Ok(n) ==> unsigned_of(arg@, u64::MAX as nat) == Some(n as nat),
        r is Err ==> unsigned_of(arg@, u64::MAX as nat) is None && r == Err::<u64, ConfigError>(
            ConfigError::InvalidDuration,
        ),
{
    match parse_unsigned(arg, u64::MAX) {
        Some(n) => Ok(n),
        None => Err(ConfigError::InvalidDuration),
    }
}

/// The address part of a bind: a bracketed IPv6 address, or an IPv4 address
/// followed by `:`; anything else starts with the port, and the address is
/// 127.0.0.1. Gives the address and what follows it.
pub open spec fn bind_address_of(s: Seq<char>) -> Result<(HostView, Seq<char>), ConfigError> {
    if s.len() > 0 && s[0] == '[' {
        let c = first_of(s, 1, ']', ']');
        if c >= s.len() {
            Err(ConfigError::InvalidIpv6Bind)
        } else {
            match ipv6_of(s.subrange(1, c)) {
                Some(a) => Ok((HostView::Ipv6(a), s.subrange(c + 1, s.len() as int))),
                None => Err(ConfigError::InvalidIpv6Bind),
            }
        }
    } else {
        let c = first_of(s, 0, ':', ':');
        if c < s.len() && ipv4_of(s.subrange(0, c)) is Some {
            Ok((HostView::Ipv4(ipv4_of(s.subrange(0, c))->0), s.subrange(c + 1, s.len() as int)))
        } else {
            Ok((HostView::Ipv4(seq![127u8, 0u8, 0u8, 1u8]), s))
        }
    }
}

/// The port part of a bind, after any leading `:`, up to the next `:` or
/// `?`. Gives the port and what follows that separator.
pub open spec fn bind_port_of(rest: Seq<char>) -> Result<(u16, Seq<char>), ConfigError> {
    let t = rest.subrange(skip_char(rest, 0, ':'), rest.len() as int);
    let e = first_of(t, 0, ':', '?');
    let tail = if e < t.len() {
        t.subrange(e + 1, t.len() as int)
    } else {
        Seq::empty()
    };
    match unsigned_of(t.subrange(0, e), 0xffff) {
        Some(p) => Ok((p as u16, tail)),
        None => Err(ConfigError::InvalidBindPort),
    }
}

/// A local bind `[ADDR:]PORT` at the start of a tunnel specification.
pub open spec fn local_bind_of(s: Seq<char>) -> Result<(HostView, u16, Seq<char>), ConfigError> {
    match bind_address_of(s) {
        Err(e) => Err(e),
        Ok((ip, rest)) => match bind_port_of(rest) {
            Err(e) => Err(e),
            Ok((port, tail)) => Ok((ip, port, tail)),
        },
    }
}

fn bind_address(v: &Vec<char>) -> (r: Result<(IpAddress, Vec<char>), ConfigError>)
    ensures
        match (r, bind_address_of(v@)) {
            (Ok((a, rest)), Ok((h, t))) => ip_view(a) == h && rest@ == t,
            (Err(e), Err(f)) => e == f,
            _ => false,
        },
{
    if v.len() > 0 && v[0] == '[' {
        let c = find_either(v, 1, ']', ']');
        if c >= v.len() {
            return Err(ConfigError::InvalidIpv6Bind);
        }
        match parse_ipv6_at(v, 1, c) {
            Some(a) => Ok((IpAddress::V6(a), slice_of(v, c + 1, v.len()))),
            None => Err(ConfigError::InvalidIpv6Bind),
        }
    } else {
        let c = find_either(v, 0, ':', ':');
        if c < v.len() {
            match parse_ipv4_at(v, 0, c) {
                Some(a) => {
                    return Ok((IpAddress::V4(a), slice_of(v, c + 1, v.len())));
                },
                None => {},
            }
        }
        let home: [u8; 4] = [127, 0, 0, 1];
        assert(home@ =~= seq![127u8, 0u8, 0u8, 1u8]);
        let all = slice_of(v, 0, v.len());
        assert(all@ =~= v@);
        Ok((IpAddress::V4(home), all))
    }
}

fn bind_port(rest: &Vec<char>) -> (r: Result<(u16, String), ConfigError>)
    ensures
        match (r, bind_port_of(rest@)) {
            (Ok((p, tail)), Ok((q, t))) => p == q && tail@ == t,
            (Err(e), Err(f)) => e == f,
            _ => false,
        },
{
    let k = skip_run(rest, 0, ':');
    let t = slice_of(rest, k, rest.len());
    let e = find_either(&t, 0, ':', '?');
    let tail = if e < t.len() {
        substring(&t, e + 1, t.len())
    } else {
        String::new()
    };
    let port_text = substring(&t, 0, e);
    match parse_unsigned(port_text.as_str(), 0xffff) {
        Some(p) => Ok((p as u16, tail)),
        None => Err(ConfigError::InvalidBindPort),
    }
}

/// Reads the local bind at the start of a tunnel specification and returns
/// it with what follows the port's separator.
pub fn parse_local_bind(arg: &str) -> (r: Result<(SocketAddress, String), ConfigError>)
    ensures
        match (r, local_bind_of(arg@)) {
            (Ok((a, tail)), Ok((h, p, t))) => ip_view(a.ip) == h && a.port == p && tail@ == t,
            (Err(e), Err(f)) => e == f,
            _ => false,
        },
{
    let v = chars_of(arg);
    let (ip, rest) = match bind_address(&v) {
        Ok(x) => x,
        Err(e) => return Err(e),
    };
    match bind_port(&rest) {
        Ok((port, tail)) => Ok((SocketAddress { ip, port }, tail)),
        Err(e) => Err(e),
    }
}

/// A destination `HOST:PORT[?opt=val&...]`, read as the authority and query
/// of a URL.
pub open spec fn tunnel_dest_of(s: Seq<char>) -> Result<
    (HostView, u16, Seq<(Seq<char>, Seq<char>)>),
    ConfigError,
> {
    match url_of("fake://"@ + s) {
        None => Err(ConfigError::InvalidRemote),
        Some(u) => match u.host {
            None => Err(ConfigError::MissingRemoteHost),
            Some(h) => match u.port {
                None => Err(ConfigError::MissingRemotePort),
                Some(p) => Ok((h, p, u.query)),
            },
        },
    }
}

/// Reads a tunnel's destination host, port and options.
pub fn parse_tunnel_dest(remaining: &str) -> (r: Result<
    (RemoteHost, u16, Vec<(String, String)>),
    ConfigError,
>)
    ensures
        match (r, tunnel_dest_of(remaining@)) {
            (Ok((h, p, q)), Ok((hv, pv, qv))) => h@ == hv && p == pv && pairs_view(q@) == qv,
            (Err(e), Err(f)) => e == f,
            _ => false,
        },
{
    let mut v: Vec<char> = Vec::new();
    push_str(&mut v, "fake://");
    push_str(&mut v, remaining);
    let text = string_of(&v);
    let parts: UrlParts = match parse_url(text.as_str()) {
        Some(u) => u,
        None => return Err(ConfigError::InvalidRemote),
    };
    let host = match parts.host {
        Some(h) => h,
        None => return Err(ConfigError::MissingRemoteHost),
    };
    match parts.port {
        Some(p) => Ok((host, p, parts.query)),
        None => Err(ConfigError::MissingRemotePort),
    }
}

/// The value of option `key`: the last pair that names it, as a map built
/// from the pairs in order keeps it.
pub open spec fn option_of(q: Seq<(Seq<char>, Seq<char>)>, key: Seq<char>) -> Option<Seq<char>>
    decreases q.len(),
{
    if q.len() == 0 {
        None
    } else if q.last().0 == key {
        Some(q.last().1)
    } else {
        option_of(q.drop_last(), key)
    }
}

fn lookup_option(q: &Vec<(String, String)>, key: &str) -> (r: Option<String>)
    ensures
        r matches Some(v) ==> option_of(pairs_view(q@), key@) == Some(v@),
        r is None ==> option_of(pairs_view(q@), key@) is None,
{
    let k = key.to_owned();
    let ghost pv = pairs_view(q@);
    let mut i: usize = q.len();
    assert(pv.take(q@.len() as int) =~= pv);
    while i > 0
        invariant
            i <= q@.len(),
            pv == pairs_view(q@),
            k@ == key@,
            option_of(pv, key@) == option_of(pv.take(i as int), key@),
        decreases i,
    {
        let ghost t = pv.take(i as int);
        assert(t.drop_last() =~= pv.take(i - 1));
        assert(t.last() == pv[i - 1]);
        if q[i - 1].0 == k {
            return Some(q[i - 1].1.clone());
        }
        i = i - 1;
    }
    None
}

/// The socket mark that the options ask for, where it reads as an `i32`.
pub open spec fn mark_of(q: Seq<(Seq<char>, Seq<char>)>) -> Option<i32> {
    match option_of(q, "socket_so_mark"@) {
        Some(t) => match i32_of(t) {
            Some(m) => Some(m as i32),
            None => None,
        },
        None => None,
    }
}

/// The idle timeout of a UDP tunnel: 30 seconds unless `timeout_sec` reads
/// as a number; none when that number is 0.
pub open spec fn udp_timeout_of(q: Seq<(Seq<char>, Seq<char>)>) -> Option<u64> {
    match option_of(q, "timeout_sec"@) {
        Some(t) => match unsigned_of(t, u64::MAX as nat) {
            Some(d) => if d == 0 {
                None
            } else {
                Some(d as u64)
            },
            None => Some(30),
        },
        None => Some(30),
    }
}

fn socket_mark(q: &Vec<(String, String)>) -> (r: Option<i32>)
    ensures
        r == mark_of(pairs_view(q@)),
{
    match lookup_option(q, "socket_so_mark") {
        Some(t) => parse_i32(t.as_str()),
        None => None,
    }
}

pub(crate) fn udp_timeout(q: &Vec<(String, String)>) -> (r: Option<u64>)
    ensures
        r == udp_timeout_of(pairs_view(q@)),
{
    match lookup_option(q, "timeout_sec") {
        Some(t) => match parse_unsigned(t.as_str(), u64::MAX) {
            Some(d) => if d == 0 {
                None
            } else {
                Some(d)
            },
            None => Some(30),
        },
        None => Some(30),
    }
}

pub open spec fn has_prefix(s: Seq<char>, p: Seq<char>) -> bool {
    s.len() >= p.len() && s.take(p.len() as int) == p
}

fn starts_with(v: &Vec<char>, p: &str) -> (r: bool)
    ensures
        r == has_prefix(v@, p@),
{
    let c = chars_of(p);
    if v.len() < c.len() {
        return false;
    }
    let mut i: usize = 0;
    while i < c.len()
        invariant
            i <= c@.len() <= v@.len(),
            c@ == p@,
            v@.take(i as int) == c@.take(i as int),
        decreases c@.len() - i,
    {
        if v[i] != c[i] {
            assert(v@.take(c@.len() as int)[i as int] != c@[i as int]);
            return false;
        }
        i = i + 1;
        assert(v@.take(i as int) =~= c@.take(i as int));
    }
    assert(c@.take(c@.len() as int) =~= c@);
    true
}

/// What a tunnel specification describes: its local bind and protocol,
/// its destination and its socket mark.
pub open spec fn tunnel_of(
    protocol: LocalProtocol,
    local: (HostView, u16),
    dest: (HostView, u16, Seq<(Seq<char>, Seq<char>)>),
) -> TunnelView {
    TunnelView {
        socket_so_mark: mark_of(dest.2),
        local_protocol: protocol,
        local: local,
        remote: (dest.0, dest.1),
    }
}

/// A tunnel specification `{tcp,udp}://[BIND:]PORT:HOST:PORT[?opts]`,
/// `socks5://[BIND:]PORT[?opts]` or `stdio://HOST:PORT[?opts]`.
pub open spec fn tunnel_arg_of(s: Seq<char>) -> Result<TunnelView, ConfigError> {
    if has_prefix(s, "tcp://"@) || has_prefix(s, "udp://"@) {
        match local_bind_of(s.skip(6)) {
            Err(e) => Err(e),
            Ok((ip, port, rest)) => match tunnel_dest_of(rest) {
                Err(e) => Err(e),
                Ok(d) => Ok(
                    tunnel_of(
                        if has_prefix(s, "tcp://"@) {
                            LocalProtocol::Tcp
                        } else {
                            LocalProtocol::Udp { timeout: udp_timeout_of(d.2) }
                        },
                        (ip, port),
                        d,
                    ),
                ),
            },
        }
    } else if has_prefix(s, "socks5://"@) {
        match local_bind_of(s.skip(9)) {
            Err(e) => Err(e),
            Ok((ip, port, rest)) => match tunnel_dest_of("0.0.0.0:0?"@ + rest) {
                Err(e) => Err(e),
                Ok(d) => Ok(tunnel_of(LocalProtocol::Socks5, (ip, port), d)),
            },
        }
    } else if has_prefix(s, "stdio://"@) {
        match tunnel_dest_of(s.skip(8)) {
            Err(e) => Err(e),
            Ok(d) => Ok(
                tunnel_of(LocalProtocol::Stdio, (HostView::Ipv4(seq![0u8, 0u8, 0u8, 0u8]), 0), d),
            ),
        }
    } else {
        Err(ConfigError::InvalidLocalProtocol)
    }
}

/// Reads a tunnel specification.
pub fn parse_tunnel_arg(arg: &str) -> (r: Result<LocalToRemote, ConfigError>)
    ensures
        match (r, tunnel_arg_of(arg@)) {
            (Ok(t), Ok(tv)) => t@ == tv,
            (Err(e), Err(f)) => e == f,
            _ => false,
        },
{
    let v = chars_of(arg);
    proof {
        reveal_strlit("tcp://");
        reveal_strlit("udp://");
        reveal_strlit("socks5://");
        reveal_strlit("stdio://");
    }
    let tcp = starts_with(&v, "tcp://");
    if tcp || starts_with(&v, "udp://") {
        let after = substring(&v, 6, v.len());
        let (local, rest) = match parse_local_bind(after.as_str()) {
            Ok(x) => x,
            Err(e) => return Err(e),
        };
        let (host, port, options) = match parse_tunnel_dest(rest.as_str()) {
            Ok(x) => x,
            Err(e) => return Err(e),
        };
        let local_protocol = if tcp {
            LocalProtocol::Tcp
        } else {
            LocalProtocol::Udp { timeout: udp_timeout(&options) }
        };
        Ok(LocalToRemote {
            socket_so_mark: socket_mark(&options),
            local_protocol,
            local,
            remote: HostPort { host, port },
        })
    } else if starts_with(&v, "socks5://") {
        let after = substring(&v, 9, v.len());
        let (local, rest) = match parse_local_bind(after.as_str()) {
            Ok(x) => x,
            Err(e) => return Err(e),
        };
        let mut d: Vec<char> = Vec::new();
        push_str(&mut d, "0.0.0.0:0?");
        push_str(&mut d, rest.as_str());
        let dest = string_of(&d);
        let (host, port, options) = match parse_tunnel_dest(dest.as_str()) {
            Ok(x) => x,
            Err(e) => return Err(e),
        };
        Ok(LocalToRemote {
            socket_so_mark: socket_mark(&options),
            local_protocol: LocalProtocol::Socks5,
            local,
            remote: HostPort { host, port },
        })
    } else if starts_with(&v, "stdio://") {
        let after = substring(&v, 8, v.len());
        let (host, port, options) = match parse_tunnel_dest(after.as_str()) {
            Ok(x) => x,
            Err(e) => return Err(e),
        };
        let any: [u8; 4] = [0, 0, 0, 0];
        assert(any@ =~= seq![0u8, 0u8, 0u8, 0u8]);
        Ok(LocalToRemote {
            socket_so_mark: socket_mark(&options),
            local_protocol: LocalProtocol::Stdio,
            local: SocketAddress { ip: IpAddress::V4(any), port: 0 },
            remote: HostPort { host, port },
        })
    } else {
        Err(ConfigError::InvalidLocalProtocol)
    }
}

/// `rustls`'s test of a DNS name that a TLS client may present.
pub uninterp spec fn is_dns_name(s: Seq<char>) -> bool;

/// Relies on `ServerName::try_from` of rustls, which gives a `DnsName`
/// exactly for the valid DNS names.
#[verifier::external_body]
fn dns_name_ok(s: &str) -> (r: bool)
    ensures
        r == is_dns_name(s@),
{
    matches!(
        tokio_rustls::rustls::ServerName::try_from(s),
        Ok(tokio_rustls::rustls::ServerName::DnsName(_))
    )
}

/// A domain name to present as SNI in place of the server's host.
pub fn parse_sni_override(arg: &str) -> (r: Result<String, ConfigError>)
    ensures
        r matches Ok(n) ==> n@ == arg@ && is_dns_name(arg@),
        r is Err ==> !is_dns_name(arg@) && r == Err::<String, ConfigError>(
            ConfigError::InvalidSniOverride,
        ),
{
    if dns_name_ok(arg) {
        Ok(arg.to_owned())
    } else {
        Err(ConfigError::InvalidSniOverride)
    }
}

/// A character that an HTTP header value may hold: a tab, or anything from
/// the space on but DEL.
pub open spec fn is_header_char(c: char) -> bool {
    c == '\t' || (' ' <= c && c != '\u{7f}')
}

pub open spec fn is_header_value(s: Seq<char>) -> bool {
    forall|i: int| 0 <= i < s.len() ==> #[trigger] is_header_char(s[i])
}

/// Relies on `HeaderValue::from_str` of http (through hyper), which accepts
/// a string whose UTF-8 bytes are each a tab, or at least 32 and not 127.
#[verifier::external_body]
fn header_value_ok(s: &str) -> (r: bool)
    ensures
        r == is_header_value(s@),
{
    hyper::http::HeaderValue::from_str(s).is_ok()
}

/// A header `NAME: VALUE`: the name before the first `:`, and the value
/// after it without surrounding white space.
pub open spec fn header_of(s: Seq<char>) -> Result<(Seq<char>, Seq<char>), ConfigError> {
    let c = first_of(s, 0, ':', ':');
    if c >= s.len() {
        Err(ConfigError::InvalidHeader)
    } else {
        let value = trim_of(s.subrange(c + 1, s.len() as int));
        if is_header_value(value) {
            Ok((s.subrange(0, c), value))
        } else {
            Err(ConfigError::InvalidHeaderValue)
        }
    }
}

/// Reads an extra header of the upgrade request.
pub fn parse_http_headers(arg: &str) -> (r: Result<(String, String), ConfigError>)
    ensures
        match (r, header_of(arg@)) {
            (Ok((k, v)), Ok((kv, vv))) => k@ == kv && v@ == vv,
            (Err(e), Err(f)) => e == f,
            _ => false,
        },
{
    let v = chars_of(arg);
    let c = find_either(&v, 0, ':', ':');
    if c >= v.len() {
        return Err(ConfigError::InvalidHeader);
    }
    let raw = slice_of(&v, c + 1, v.len());
    let value = string_of(&trim(&raw));
    if !header_value_ok(value.as_str()) {
        return Err(ConfigError::InvalidHeaderValue);
    }
    Ok((substring(&v, 0, c), value))
}

/// The standard base64 encoding, with padding, of the UTF-8 bytes of `s`.
pub uninterp spec fn base64_of(s: Seq<char>) -> Seq<char>;

pub open spec fn is_base64_char(c: char) -> bool {
    ('A' <= c && c <= 'Z') || ('a' <= c && c <= 'z') || ('0' <= c && c <= '9') || c == '+'
        || c == '/' || c == '='
}

/// Relies on base64's `STANDARD` engine: its output is drawn from the
/// standard alphabet and the padding character.
#[verifier::external_body]
fn base64_encode(s: &str) -> (r: String)
    ensures
        r@ == base64_of(s@),
        forall|i: int| 0 <= i < r@.len() ==> #[trigger] is_base64_char(r@[i]),
{
    base64::engine::general_purpose::STANDARD.encode(s.as_bytes())
}

/// The Basic authorization header value for `USER[:PASS]`.
pub fn parse_http_credentials(arg: &str) -> (r: Result<String, ConfigError>)
    ensures
        r matches Ok(h) && h@ == "Basic "@ + base64_of(trim_of(arg@)),
{
    let v = chars_of(arg);
    let user = string_of(&trim(&v));
    let encoded = base64_encode(user.as_str());
    let mut h: Vec<char> = Vec::new();
    push_str(&mut h, "Basic ");
    push_str(&mut h, encoded.as_str());
    let header = string_of(&h);
    proof {
        reveal_strlit("Basic ");
        assert forall|i: int| 0 <= i < header@.len() implies #[trigger] is_header_char(
            header@[i],
        ) by {
            if i >= 6 {
                assert(header@[i] == encoded@[i - 6]);
                assert(is_base64_char(encoded@[i - 6]));
            }
        }
    }
    if !header_value_ok(header.as_str()) {
        return Err(ConfigError::InvalidCredentials);
    }
    Ok(header)
}

/// The server URL: a `ws` or `wss` URL with a host.
pub open spec fn server_url_of(s: Seq<char>) -> Result<crate::addr::UrlView, ConfigError> {
    match url_of(s) {
        None => Err(ConfigError::InvalidServerUrl),
        Some(u) => if u.scheme != "ws"@ && u.scheme != "wss"@ {
            Err(ConfigError::InvalidScheme)
        } else if u.host is None {
            Err(ConfigError::MissingServerHost)
        } else {
            Ok(u)
        },
    }
}

/// Reads the URL of the tunnel server.
pub fn parse_server_url(arg: &str) -> (r: Result<UrlParts, ConfigError>)
    ensures
        match (r, server_url_of(arg@)) {
            (Ok(u), Ok(uv)) => u@ == uv,
            (Err(e), Err(f)) => e == f,
            _ => false,
        },
{
    let parts = match parse_url(arg) {
        Some(u) => u,
        None => return Err(ConfigError::InvalidServerUrl),
    };
    if parts.scheme != "ws".to_owned() && parts.scheme != "wss".to_owned() {
        return Err(ConfigError::InvalidScheme);
    }
    if parts.host.is_none() {
        return Err(ConfigError::MissingServerHost);
    }
    Ok(parts)
}

} // verus!
