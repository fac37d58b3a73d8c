//! Configuration records of the tunnel client and server.

use vstd::prelude::*;
use crate::addr::{HostView, IpAddress, RemoteHost, SocketAddress, ip_view};
use crate::text::{decimal_text, push_decimal, push_str, string_of};

verus! {

/// Why a configuration value was refused.
#[derive(Clone, Copy, Debug, PartialEq, Eq, Structural)]
pub enum ConfigError {
    InvalidDuration,
    InvalidIpv6Bind,
    InvalidBindPort,
    InvalidRemote,
    MissingRemoteHost,
    MissingRemotePort,
    InvalidLocalProtocol,
    InvalidSniOverride,
    InvalidHeader,
    InvalidHeaderValue,
    InvalidCredentials,
    InvalidServerUrl,
    InvalidScheme,
    MissingServerHost,
}

/// How a local endpoint produces flows. A UDP timeout is in seconds;
/// `None` means that a flow never times out.
#[derive(Clone, Copy, Debug, PartialEq, Eq, Structural)]
pub enum LocalProtocol {
    Tcp,
    Udp { timeout: Option<u64> },
    Stdio,
    Socks5,
}

/// A host and a port.
#[derive(Clone, Debug)]
pub struct HostPort {
    pub host: RemoteHost,
    pub port: u16,
}

/// One tunnel: a local endpoint and the destination that its flows reach.
#[derive(Clone, Debug)]
pub struct LocalToRemote {
    pub socket_so_mark: Option<i32>,
    pub local_protocol: LocalProtocol,
    pub local: SocketAddress,
    pub remote: HostPort,
}

pub struct TunnelView {
    pub socket_so_mark: Option<i32>,
    pub local_protocol: LocalProtocol,
    pub local: (HostView, u16),
    pub remote: (HostView, u16),
}

impl View for LocalToRemote {
    type V = TunnelView;

    open spec fn view(&self) -> TunnelView {
        TunnelView {
            socket_so_mark: self.socket_so_mark,
            local_protocol: self.local_protocol,
            local: (ip_view(self.local.ip), self.local.port),
            remote: (self.remote.host@, self.remote.port),
        }
    }
}

impl LocalToRemote {
    /// The tunnel as one of its flows sees it: the same local side, with the
    /// destination that this flow asked for.
    pub fn for_flow(&self, dest: HostPort) -> (r: LocalToRemote)
        ensures
            r@ == (TunnelView { remote: (dest.host@, dest.port), ..self@ }),
    {
        LocalToRemote {
            socket_so_mark: self.socket_so_mark,
            local_protocol: self.local_protocol,
            local: self.local,
            remote: dest,
        }
    }
}

/// TLS settings of the client.
#[derive(Clone, Debug)]
pub struct TlsClientConfig {
    pub tls_sni_override: Option<String>,
    pub tls_verify_certificate: bool,
}

/// TLS material of the server: a chain of DER certificates and a DER key.
#[derive(Clone, Debug)]
pub struct TlsServerConfig {
    pub tls_certificate: Vec<Vec<u8>>,
    pub tls_key: Vec<u8>,
}

/// Settings of the tunnel server. Durations are in seconds.
#[derive(Clone, Debug)]
pub struct WsServerConfig {
    pub socket_so_mark: Option<i32>,
    pub bind: SocketAddress,
    pub restrict_to: Option<Vec<String>>,
    pub websocket_ping_frequency: Option<u64>,
    pub timeout_connect: u64,
    pub websocket_mask_frame: bool,
    pub tls: Option<TlsServerConfig>,
}

/// Settings of the tunnel client. Durations are in seconds; the header
/// values and the credential header hold only characters that an HTTP
/// header value accepts.
#[derive(Clone, Debug)]
pub struct WsClientConfig {
    pub remote_addr: HostPort,
    pub tls: Option<TlsClientConfig>,
    pub http_upgrade_path_prefix: String,
    pub http_upgrade_credentials: Option<String>,
    pub http_headers: Vec<(String, String)>,
    pub timeout_connect: u64,
    pub websocket_ping_frequency: u64,
    pub websocket_mask_frame: bool,
}

/// The name that the client presents in a TLS handshake.
#[derive(Clone, Debug)]
pub enum TlsServerName {
    DnsName(String),
    IpAddress(IpAddress),
}

/// How a host is written in a URL: a domain as it is, an IPv4 address in
/// dotted decimal, an IPv6 address in brackets.
pub uninterp spec fn host_text(h: HostView) -> Seq<char>;

/// Relies on the `Display` of `url::Host`, which writes a domain as it is.
#[verifier::external_body]
pub(crate) fn host_to_string(h: &RemoteHost) -> (r: String)
    ensures
        r@ == host_text(h@),
        h matches RemoteHost::Domain(d) ==> r@ == d@,
{
    match h {
        RemoteHost::Domain(d) => url::Host::Domain(d.clone()).to_string(),
        RemoteHost::Ipv4(a) => url::Host::<String>::Ipv4((*a).into()).to_string(),
        RemoteHost::Ipv6(a) => url::Host::<String>::Ipv6((*a).into()).to_string(),
    }
}

pub open spec fn tls_name_view(n: TlsServerName) -> HostView {
    match n {
        TlsServerName::DnsName(d) => HostView::Domain(d@),
        TlsServerName::IpAddress(ip) => ip_view(ip),
    }
}

/// The name a client presents: its SNI override if it has one, else its
/// server's host.
pub open spec fn server_name_of(c: WsClientConfig) -> HostView {
    match c.tls {
        Some(t) if t.tls_sni_override is Some => HostView::Domain(t.tls_sni_override->0@),
        _ => c.remote_addr.host@,
    }
}

/// With an SNI override, the name presented is the override, whatever host
/// the client dials: two clients with the same TLS settings present the same
/// name.
pub proof fn lemma_sni_override_wins(c: WsClientConfig, d: WsClientConfig, sni: String)
    requires
        c.tls matches Some(t) && t.tls_sni_override == Some(sni),
        d.tls == c.tls,
    ensures
        server_name_of(c) == HostView::Domain(sni@),
        server_name_of(d) == server_name_of(c),
{
}

impl WsClientConfig {
    /// `wss` when the client speaks TLS, `ws` otherwise.
    pub fn websocket_scheme(&self) -> (r: &'static str)
        ensures
            r@ == (if self.tls is Some {
                "wss"@
            } else {
                "ws"@
            }),
    {
        match self.tls {
            None => "ws",
            Some(_) => "wss",
        }
    }

    /// `HOST:PORT` of the server, as the `Host` header carries it.
    pub fn websocket_host_url(&self) -> (r: String)
        ensures
            r@ == host_text(self.remote_addr.host@) + ":"@ + decimal_text(
                self.remote_addr.port as nat,
            ),
    {
        let host = host_to_string(&self.remote_addr.host);
        let mut v: Vec<char> = Vec::new();
        push_str(&mut v, host.as_str());
        push_str(&mut v, ":");
        push_decimal(&mut v, self.remote_addr.port as u64);
        string_of(&v)
    }

    /// The name presented in the TLS handshake: the SNI override if there is
    /// one, else the server's host, a domain as a DNS name and an IP literal
    /// as an address.
    pub fn tls_server_name(&self) -> (r: TlsServerName)
        ensures
            tls_name_view(r) == server_name_of(*self),
    {
        match &self.tls {
            Some(t) => match &t.tls_sni_override {
                Some(name) => {
                    return TlsServerName::DnsName(name.clone());
                },
                None => {},
            },
            None => {},
        }
        match &self.remote_addr.host {
            RemoteHost::Domain(d) => TlsServerName::DnsName(d.clone()),
            RemoteHost::Ipv4(a) => TlsServerName::IpAddress(IpAddress::V4(*a)),
            RemoteHost::Ipv6(a) => TlsServerName::IpAddress(IpAddress::V6(*a)),
        }
    }
}

} // verus!
