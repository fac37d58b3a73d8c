use wstunnel::addr::{IpAddress, RemoteHost, SocketAddress};
use wstunnel::config::{
    HostPort, LocalProtocol, TlsClientConfig, TlsServerName, WsClientConfig, WsServerConfig,
};
use wstunnel::session::{
    frame_masked, udp_flow_expired, DatagramQueue, Keepalive, KeepaliveAction, Role,
};
use wstunnel::upgrade::{decide_upgrade, parse_upgrade_path, upgrade_path, HttpStatus};

fn client(host: RemoteHost, port: u16, tls: Option<TlsClientConfig>) -> WsClientConfig {
    WsClientConfig {
        remote_addr: HostPort { host, port },
        tls,
        http_upgrade_path_prefix: "morille".to_string(),
        http_upgrade_credentials: None,
        http_headers: vec![],
        timeout_connect: 10,
        websocket_ping_frequency: 30,
        websocket_mask_frame: false,
    }
}

fn server(restrict_to: Option<Vec<String>>) -> WsServerConfig {
    WsServerConfig {
        socket_so_mark: None,
        bind: SocketAddress { ip: IpAddress::V4([127, 0, 0, 1]), port: 8080 },
        restrict_to,
        websocket_ping_frequency: None,
        timeout_connect: 10,
        websocket_mask_frame: false,
        tls: None,
    }
}

#[test]
fn scheme_follows_tls() {
    let c = client(RemoteHost::Domain("a.b".to_string()), 80, None);
    assert_eq!(c.websocket_scheme(), "ws");
    let tls = TlsClientConfig { tls_sni_override: None, tls_verify_certificate: false };
    let c = client(RemoteHost::Domain("a.b".to_string()), 443, Some(tls));
    assert_eq!(c.websocket_scheme(), "wss");
}

#[test]
fn host_url() {
    let c = client(RemoteHost::Domain("example.com".to_string()), 443, None);
    assert_eq!(c.websocket_host_url(), "example.com:443");
    let c = client(RemoteHost::Ipv4([127, 0, 0, 1]), 8080, None);
    assert_eq!(c.websocket_host_url(), "127.0.0.1:8080");
    let c = client(RemoteHost::Ipv6([0, 0, 0, 0, 0, 0, 0, 1]), 0, None);
    assert_eq!(c.websocket_host_url(), "[::1]:0");
}

#[test]
fn tls_name_uses_sni_override() {
    let tls = TlsClientConfig {
        tls_sni_override: Some("override.test".to_string()),
        tls_verify_certificate: false,
    };
    let c = client(RemoteHost::Ipv4([127, 0, 0, 1]), 443, Some(tls));
    assert!(matches!(c.tls_server_name(), TlsServerName::DnsName(n) if n == "override.test"));
}

#[test]
fn tls_name_from_host() {
    let tls = TlsClientConfig { tls_sni_override: None, tls_verify_certificate: true };
    let c = client(RemoteHost::Domain("example.com".to_string()), 443, Some(tls.clone()));
    assert!(matches!(c.tls_server_name(), TlsServerName::DnsName(n) if n == "example.com"));
    let c = client(RemoteHost::Ipv4([10, 0, 0, 1]), 443, Some(tls));
    assert!(matches!(
        c.tls_server_name(),
        TlsServerName::IpAddress(IpAddress::V4([10, 0, 0, 1]))
    ));
}

#[test]
fn upgrade_paths() {
    let p = upgrade_path("morille", LocalProtocol::Tcp, &RemoteHost::Domain("127.0.0.1".into()), 9000);
    assert_eq!(p, "/morille/tcp/127.0.0.1/9000");
    let p = upgrade_path(
        "morille",
        LocalProtocol::Udp { timeout: Some(5) },
        &RemoteHost::Ipv4([1, 1, 1, 1]),
        53,
    );
    assert_eq!(p, "/morille/udp/1.1.1.1/53?timeout_sec=5");
    let p = upgrade_path("p", LocalProtocol::Udp { timeout: None }, &RemoteHost::Ipv6([0; 8]), 53);
    assert_eq!(p, "/p/udp/[::]/53?timeout_sec=0");
    let p = upgrade_path("p", LocalProtocol::Socks5, &RemoteHost::Domain("example.com".into()), 80);
    assert_eq!(p, "/p/tcp/example.com/80");
}

#[test]
fn upgrade_path_decodes() {
    let r = parse_upgrade_path("/morille/tcp/example.com/80", "morille").unwrap();
    assert_eq!(r.protocol, LocalProtocol::Tcp);
    assert!(matches!(&r.host, RemoteHost::Domain(d) if d == "example.com"));
    assert_eq!(r.port, 80);
    let r = parse_upgrade_path("/morille/udp/[::1]/53?timeout_sec=0", "morille").unwrap();
    assert_eq!(r.protocol, LocalProtocol::Udp { timeout: None });
    assert!(matches!(r.host, RemoteHost::Ipv6([0, 0, 0, 0, 0, 0, 0, 1])));
    let r = parse_upgrade_path("/morille/udp/h/53?x=1&timeout_sec=7", "morille").unwrap();
    assert_eq!(r.protocol, LocalProtocol::Udp { timeout: Some(7) });
}

#[test]
fn upgrade_path_errors() {
    assert_eq!(parse_upgrade_path("/other/tcp/x/1", "morille").unwrap_err(), HttpStatus::NotFound);
    assert_eq!(parse_upgrade_path("/morille", "morille").unwrap_err(), HttpStatus::NotFound);
    assert_eq!(parse_upgrade_path("/morille/ssh/x/1", "morille").unwrap_err(), HttpStatus::BadRequest);
    assert_eq!(parse_upgrade_path("/morille/tcp/x", "morille").unwrap_err(), HttpStatus::BadRequest);
    assert_eq!(parse_upgrade_path("/morille/tcp/x/", "morille").unwrap_err(), HttpStatus::BadRequest);
    assert_eq!(parse_upgrade_path("/morille/socks5/x/1", "morille").unwrap_err(), HttpStatus::BadRequest);
}

#[test]
fn restriction_list_refuses_other_destinations() {
    let cfg = server(Some(vec!["127.0.0.1:9000".to_string()]));
    let r = decide_upgrade(&cfg, "morille", true, true, "/morille/tcp/127.0.0.1/9001");
    assert_eq!(r.unwrap_err(), HttpStatus::Forbidden);
    assert_eq!(HttpStatus::Forbidden.code(), 403);
    let r = decide_upgrade(&cfg, "morille", true, true, "/morille/tcp/127.0.0.1/9000").unwrap();
    assert_eq!(r.port, 9000);
    let cfg = server(Some(vec!["a:1".to_string()]));
    let r = decide_upgrade(&cfg, "morille", true, true, "/morille/tcp/b/2");
    assert_eq!(r.unwrap_err(), HttpStatus::Forbidden);
    let r = decide_upgrade(&cfg, "morille", true, true, "/morille/tcp/a/1");
    assert!(r.is_ok());
}

#[test]
fn upgrade_statuses() {
    let cfg = server(None);
    let r = decide_upgrade(&cfg, "morille", true, true, "/wrong/tcp/a/1");
    assert_eq!(r.unwrap_err(), HttpStatus::NotFound);
    assert_eq!(HttpStatus::NotFound.code(), 404);
    let r = decide_upgrade(&cfg, "morille", false, true, "/morille/tcp/a/1");
    assert_eq!(r.unwrap_err(), HttpStatus::BadRequest);
    let r = decide_upgrade(&cfg, "morille", true, false, "/morille/tcp/a/1");
    assert_eq!(r.unwrap_err(), HttpStatus::BadRequest);
    assert_eq!(HttpStatus::BadRequest.code(), 400);
    assert_eq!(HttpStatus::SwitchingProtocols.code(), 101);
    assert!(decide_upgrade(&cfg, "morille", true, true, "/morille/udp/a/1").is_ok());
}

#[test]
fn masking() {
    assert!(frame_masked(Role::Client, false));
    assert!(frame_masked(Role::Client, true));
    assert!(!frame_masked(Role::Server, false));
    assert!(frame_masked(Role::Server, true));
}

#[test]
fn ping_timeout_after_three_missed() {
    let mut k = Keepalive::new();
    assert_eq!(k.on_tick(), KeepaliveAction::SendPing);
    assert_eq!(k.on_tick(), KeepaliveAction::SendPing);
    assert_eq!(k.on_tick(), KeepaliveAction::SendPing);
    assert_eq!(k.on_tick(), KeepaliveAction::Timeout);
    k.on_frame();
    assert_eq!(k.missed, 0);
    assert_eq!(k.on_tick(), KeepaliveAction::SendPing);
}

#[test]
fn udp_idle_expiry() {
    assert!(!udp_flow_expired(Some(5), 100, 104));
    assert!(udp_flow_expired(Some(5), 100, 105));
    assert!(udp_flow_expired(Some(5), 100, 106));
    assert!(!udp_flow_expired(None, 0, u64::MAX));
    assert!(!udp_flow_expired(Some(5), 100, 50));
}

#[test]
fn datagram_queue_keeps_boundaries() {
    let mut q = DatagramQueue::new(2);
    q.push(vec![1, 2, 3]);
    q.push(vec![4]);
    assert_eq!(q.len(), 2);
    q.push(vec![5, 6]);
    assert_eq!(q.len(), 2);
    assert_eq!(q.pop(), Some(vec![4]));
    assert_eq!(q.pop(), Some(vec![5, 6]));
    assert_eq!(q.pop(), None);
}

#[test]
fn flow_takes_its_own_destination() {
    let t = wstunnel::parse::parse_tunnel_arg("socks5://127.0.0.1:1080?socket_so_mark=3").unwrap();
    let f = t.for_flow(HostPort { host: RemoteHost::Domain("example.com".into()), port: 80 });
    assert_eq!(f.local_protocol, LocalProtocol::Socks5);
    assert_eq!(f.local.port, 1080);
    assert_eq!(f.socket_so_mark, Some(3));
    assert!(matches!(&f.remote.host, RemoteHost::Domain(d) if d == "example.com"));
    assert_eq!(f.remote.port, 80);
}
