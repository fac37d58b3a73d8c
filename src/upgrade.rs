//! The upgrade request: the path that carries a tunnel's destination, and
//! the server's answer to it.

use vstd::prelude::*;
use crate::addr::{HostView, RemoteHost};
use crate::config::{LocalProtocol, WsServerConfig, host_text, host_to_string};
use crate::parse::{has_prefix, parse_tunnel_dest, tunnel_dest_of, udp_timeout_of};
use crate::text::{
    chars_of, decimal_text, find_either, first_of, push_decimal, push_str, slice_of, string_of,
    substring,
};

verus! {

/// The HTTP status that the server answers an upgrade request with.
#[derive(Clone, Copy, Debug, PartialEq, Eq, Structural)]
pub enum HttpStatus {
    SwitchingProtocols,
    BadRequest,
    Forbidden,
    NotFound,
}

impl HttpStatus {
    pub open spec fn code_of(self) -> u16 {
        match self {
            HttpStatus::SwitchingProtocols => 101,
            HttpStatus::BadRequest => 400,
            HttpStatus::Forbidden => 403,
            HttpStatus::NotFound => 404,
        }
    }

    /// The numeric status code.
    pub fn code(&self) -> (r: u16)
        ensures
            r == self.code_of(),
    {
        match self {
            HttpStatus::SwitchingProtocols => 101,
            HttpStatus::BadRequest => 400,
            HttpStatus::Forbidden => 403,
            HttpStatus::NotFound => 404,
        }
    }
}

/// The destination that an accepted upgrade asks the server to open.
#[derive(Clone, Debug)]
pub struct TunnelRequest {
    pub protocol: LocalProtocol,
    pub host: RemoteHost,
    pub port: u16,
}

pub open spec fn request_view(r: TunnelRequest) -> (LocalProtocol, HostView, u16) {
    (r.protocol, r.host@, r.port)
}

/// `/PREFIX/`, which every upgrade path starts with.
pub open spec fn path_head(prefix: Seq<char>) -> Seq<char> {
    "/"@ + prefix + "/"@
}

/// The end of the host segment of `rest`: just past the `]` of a bracketed
/// IPv6 literal, else at the first `/`.
pub open spec fn host_end_of(rest: Seq<char>) -> int {
    if rest.len() > 0 && rest[0] == '[' {
        let c = first_of(rest, 1, ']', ']');
        if c < rest.len() {
            c + 1
        } else {
            rest.len() as int
        }
    } else {
        first_of(rest, 0, '/', '/')
    }
}

/// What the path `/PREFIX/PROTO/HOST/PORT[?opts]` asks for. A path that does
/// not start with `/PREFIX/` is not found; one that does but is otherwise
/// malformed is a bad request.
pub open spec fn path_request_of(path: Seq<char>, prefix: Seq<char>) -> Result<
    (LocalProtocol, HostView, u16),
    HttpStatus,
> {
    let head = path_head(prefix);
    if !has_prefix(path, head) {
        Err(HttpStatus::NotFound)
    } else {
        let tail = path.skip(head.len() as int);
        let s = first_of(tail, 0, '/', '/');
        let proto = tail.take(s);
        let rest = tail.skip(s + 1);
        let e = host_end_of(rest);
        if s >= tail.len() || e >= rest.len() || rest[e] != '/' {
            Err(HttpStatus::BadRequest)
        } else {
            match tunnel_dest_of(rest.take(e) + ":"@ + rest.skip(e + 1)) {
                Err(_) => Err(HttpStatus::BadRequest),
                Ok((h, p, q)) => if proto == "tcp"@ {
                    Ok((LocalProtocol::Tcp, h, p))
                } else if proto == "udp"@ {
                    Ok((LocalProtocol::Udp { timeout: udp_timeout_of(q) }, h, p))
                } else {
                    Err(HttpStatus::BadRequest)
                },
            }
        }
    }
}

fn same_text(v: &Vec<char>, s: &str) -> (r: bool)
    ensures
        r == (v@ == s@),
{
    let t = string_of(v);
    t == s.to_owned()
}

fn host_end(rest: &Vec<char>) -> (r: usize)
    ensures
        r as int == host_end_of(rest@),
        r <= rest@.len(),
{
    if rest.len() > 0 && rest[0] == '[' {
        let c = find_either(rest, 1, ']', ']');
        if c < rest.len() {
            c + 1
        } else {
            rest.len()
        }
    } else {
        find_either(rest, 0, '/', '/')
    }
}

/// Reads the destination out of an upgrade path.
pub fn parse_upgrade_path(path: &str, prefix: &str) -> (r: Result<TunnelRequest, HttpStatus>)
    ensures
        match (r, path_request_of(path@, prefix@)) {
            (Ok(t), Ok(tv)) => request_view(t) == tv,
            (Err(e), Err(f)) => e == f,
            _ => false,
        },
{
    let v = chars_of(path);
    let mut head: Vec<char> = Vec::new();
    push_str(&mut head, "/");
    push_str(&mut head, prefix);
    push_str(&mut head, "/");
    proof {
        reveal_strlit("/");
    }
    let hs = string_of(&head);
    if v.len() < head.len() || !same_text(&slice_of(&v, 0, head.len()), hs.as_str()) {
        return Err(HttpStatus::NotFound);
    }
    let tail = slice_of(&v, head.len(), v.len());
    assert(tail@ =~= path@.skip(head@.len() as int));
    let s = find_either(&tail, 0, '/', '/');
    if s >= tail.len() {
        return Err(HttpStatus::BadRequest);
    }
    let proto = slice_of(&tail, 0, s);
    let rest = slice_of(&tail, s + 1, tail.len());
    let e = host_end(&rest);
    if e >= rest.len() || rest[e] != '/' {
        return Err(HttpStatus::BadRequest);
    }
    let mut dest: Vec<char> = Vec::new();
    push_str(&mut dest, substring(&rest, 0, e).as_str());
    push_str(&mut dest, ":");
    push_str(&mut dest, substring(&rest, e + 1, rest.len()).as_str());
    assert(rest@.take(e as int) =~= rest@.subrange(0, e as int));
    let (host, port, options) = match parse_tunnel_dest(string_of(&dest).as_str()) {
        Ok(x) => x,
        Err(_) => return Err(HttpStatus::BadRequest),
    };
    let protocol = if same_text(&proto, "tcp") {
        LocalProtocol::Tcp
    } else if same_text(&proto, "udp") {
        LocalProtocol::Udp { timeout: crate::parse::udp_timeout(&options) }
    } else {
        return Err(HttpStatus::BadRequest);
    };
    Ok(TunnelRequest { protocol, host, port })
}

pub open spec fn strings_view(v: Seq<String>) -> Seq<Seq<char>> {
    v.map_values(|s: String| s@)
}

pub open spec fn restrict_view(r: Option<Vec<String>>) -> Option<Seq<Seq<char>>> {
    match r {
        Some(v) => Some(strings_view(v@)),
        None => None,
    }
}

/// `HOST:PORT` as a restriction list writes a destination.
pub open spec fn destination_text(h: HostView, port: u16) -> Seq<char> {
    host_text(h) + ":"@ + decimal_text(port as nat)
}

/// A destination is allowed when there is no restriction list, or when the
/// list holds it.
pub open spec fn allowed(restrict: Option<Seq<Seq<char>>>, dest: Seq<char>) -> bool {
    match restrict {
        None => true,
        Some(list) => list.contains(dest),
    }
}

/// The server's answer to an upgrade request: a bad request unless it is a
/// GET that asks for a websocket, then what its path asks for, refused when
/// the restriction list does not allow that destination.
pub open spec fn upgrade_decision_of(
    is_get: bool,
    is_websocket: bool,
    path: Seq<char>,
    prefix: Seq<char>,
    restrict: Option<Seq<Seq<char>>>,
) -> Result<(LocalProtocol, HostView, u16), HttpStatus> {
    if !is_get || !is_websocket {
        Err(HttpStatus::BadRequest)
    } else {
        match path_request_of(path, prefix) {
            Err(e) => Err(e),
            Ok(req) => if allowed(restrict, destination_text(req.1, req.2)) {
                Ok(req)
            } else {
                Err(HttpStatus::Forbidden)
            },
        }
    }
}

fn is_allowed(restrict: &Option<Vec<String>>, dest: &String) -> (r: bool)
    ensures
        r == allowed(restrict_view(*restrict), dest@),
{
    if restrict.is_none() {
        return true;
    }
    let list = restrict.as_ref().unwrap();
    let ghost sv = strings_view(list@);
    let mut i: usize = 0;
    while i < list.len()
        invariant
            i <= list@.len(),
            *restrict == Some(*list),
            sv == strings_view(list@),
            forall|j: int| 0 <= j < i ==> sv[j] != dest@,
        decreases list@.len() - i,
    {
        if list[i] == *dest {
            assert(sv[i as int] == dest@);
            assert(sv.contains(dest@));
            return true;
        }
        i = i + 1;
    }
    false
}

/// `HOST:PORT` of a destination.
fn destination_string(host: &RemoteHost, port: u16) -> (r: String)
    ensures
        r@ == destination_text(host@, port),
{
    let mut v: Vec<char> = Vec::new();
    push_str(&mut v, host_to_string(host).as_str());
    push_str(&mut v, ":");
    push_decimal(&mut v, port as u64);
    string_of(&v)
}

/// Decides an upgrade request on a server whose paths start with `prefix`:
/// the destination to open, or the status to answer with instead.
pub fn decide_upgrade(
    config: &WsServerConfig,
    prefix: &str,
    is_get: bool,
    is_websocket: bool,
    path: &str,
) -> (r: Result<TunnelRequest, HttpStatus>)
    ensures
        match (r, upgrade_decision_of(
            is_get,
            is_websocket,
            path@,
            prefix@,
            restrict_view(config.restrict_to),
        )) {
            (Ok(t), Ok(tv)) => request_view(t) == tv,
            (Err(e), Err(f)) => e == f,
            _ => false,
        },
{
    if !is_get || !is_websocket {
        return Err(HttpStatus::BadRequest);
    }
    let req = match parse_upgrade_path(path, prefix) {
        Ok(t) => t,
        Err(e) => return Err(e),
    };
    let dest = destination_string(&req.host, req.port);
    if is_allowed(&config.restrict_to, &dest) {
        Ok(req)
    } else {
        Err(HttpStatus::Forbidden)
    }
}

/// The path of the upgrade request that asks for `host:port` over
/// `protocol`: UDP tunnels say `udp` and carry their timeout (0 for none),
/// every other tunnel says `tcp`.
pub open spec fn upgrade_path_of(
    prefix: Seq<char>,
    protocol: LocalProtocol,
    host: HostView,
    port: u16,
) -> Seq<char> {
    let base = path_head(prefix) + (if protocol is Udp {
        "udp"@
    } else {
        "tcp"@
    }) + "/"@ + host_text(host) + "/"@ + decimal_text(port as nat);
    match protocol {
        LocalProtocol::Udp { timeout } => base + "?timeout_sec="@ + decimal_text(
            match timeout {
                Some(t) => t as nat,
                None => 0,
            },
        ),
        _ => base,
    }
}

/// Builds the path of the upgrade request for one flow.
pub fn upgrade_path(prefix: &str, protocol: LocalProtocol, host: &RemoteHost, port: u16) -> (r:
    String)
    ensures
        r@ == upgrade_path_of(prefix@, protocol, host@, port),
{
    let mut v: Vec<char> = Vec::new();
    push_str(&mut v, "/");
    push_str(&mut v, prefix);
    push_str(&mut v, "/");
    match protocol {
        LocalProtocol::Udp { .. } => push_str(&mut v, "udp"),
        _ => push_str(&mut v, "tcp"),
    }
    push_str(&mut v, "/");
    push_str(&mut v, host_to_string(host).as_str());
    push_str(&mut v, "/");
    push_decimal(&mut v, port as u64);
    match protocol {
        LocalProtocol::Udp { timeout } => {
            push_str(&mut v, "?timeout_sec=");
            match timeout {
                Some(t) => push_decimal(&mut v, t),
                None => push_decimal(&mut v, 0),
            }
        },
        _ => {},
    }
    string_of(&v)
}

/// A well-formed request for a destination that the restriction list does
/// not hold is refused with 403, and no destination is handed on to open.
pub proof fn lemma_restriction_refuses(
    path: Seq<char>,
    prefix: Seq<char>,
    list: Seq<Seq<char>>,
)
    requires
        path_request_of(path, prefix) is Ok,
        !list.contains(
            destination_text(
                path_request_of(path, prefix)->Ok_0.1,
                path_request_of(path, prefix)->Ok_0.2,
            ),
        ),
    ensures
        upgrade_decision_of(true, true, path, prefix, Some(list)) == Err::<
            (LocalProtocol, HostView, u16),
            HttpStatus,
        >(HttpStatus::Forbidden),
{
}

/// A websocket GET whose path does not start with `/PREFIX/` is answered
/// with 404, whatever the restriction list.
pub proof fn lemma_prefix_miss_not_found(
    path: Seq<char>,
    prefix: Seq<char>,
    restrict: Option<Seq<Seq<char>>>,
)
    requires
        !has_prefix(path, path_head(prefix)),
    ensures
        upgrade_decision_of(true, true, path, prefix, restrict) == Err::<
            (LocalProtocol, HostView, u16),
            HttpStatus,
        >(HttpStatus::NotFound),
        HttpStatus::NotFound.code_of() == 404,
{
}

} // verus!
