use wstunnel::addr::{IpAddress, RemoteHost};
use wstunnel::config::{ConfigError, LocalProtocol};
use wstunnel::parse::{
    parse_duration_sec, parse_http_credentials, parse_http_headers, parse_local_bind,
    parse_server_url, parse_sni_override, parse_tunnel_arg, parse_tunnel_dest,
};

fn domain(h: &RemoteHost) -> String {
    match h {
        RemoteHost::Domain(d) => d.clone(),
        other => panic!("not a domain: {:?}", other),
    }
}

#[test]
fn duration_seconds() {
    assert_eq!(parse_duration_sec("30"), Ok(30));
    assert_eq!(parse_duration_sec("+5"), Ok(5));
    assert_eq!(parse_duration_sec("0"), Ok(0));
    assert_eq!(parse_duration_sec("18446744073709551615"), Ok(u64::MAX));
    assert_eq!(parse_duration_sec("18446744073709551616"), Err(ConfigError::InvalidDuration));
    assert_eq!(parse_duration_sec("abc"), Err(ConfigError::InvalidDuration));
    assert_eq!(parse_duration_sec(""), Err(ConfigError::InvalidDuration));
    assert_eq!(parse_duration_sec("-1"), Err(ConfigError::InvalidDuration));
}

#[test]
fn local_bind_port_only_defaults_to_loopback() {
    let (addr, rest) = parse_local_bind("7000:127.0.0.1:9000").unwrap();
    assert_eq!(addr.ip, IpAddress::V4([127, 0, 0, 1]));
    assert_eq!(addr.port, 7000);
    assert_eq!(rest, "127.0.0.1:9000");
}

#[test]
fn local_bind_ipv4_and_ipv6() {
    let (addr, rest) = parse_local_bind("0.0.0.0:1212:google.com:443").unwrap();
    assert_eq!(addr.ip, IpAddress::V4([0, 0, 0, 0]));
    assert_eq!(addr.port, 1212);
    assert_eq!(rest, "google.com:443");
    let (addr, rest) = parse_local_bind("[::1]:8080:localhost:22").unwrap();
    assert_eq!(addr.ip, IpAddress::V6([0, 0, 0, 0, 0, 0, 0, 1]));
    assert_eq!(addr.port, 8080);
    assert_eq!(rest, "localhost:22");
    let (addr, rest) = parse_local_bind("1080?socket_so_mark=2").unwrap();
    assert_eq!(addr.port, 1080);
    assert_eq!(rest, "socket_so_mark=2");
    let (addr, rest) = parse_local_bind("1080").unwrap();
    assert_eq!(addr.port, 1080);
    assert_eq!(rest, "");
}

#[test]
fn local_bind_errors() {
    assert_eq!(parse_local_bind("[::1").unwrap_err(), ConfigError::InvalidIpv6Bind);
    assert_eq!(parse_local_bind("[zz]:80").unwrap_err(), ConfigError::InvalidIpv6Bind);
    assert_eq!(parse_local_bind("abc").unwrap_err(), ConfigError::InvalidBindPort);
    assert_eq!(parse_local_bind("70000:x:1").unwrap_err(), ConfigError::InvalidBindPort);
    assert_eq!(parse_local_bind("1.2.3.4:x").unwrap_err(), ConfigError::InvalidBindPort);
}

#[test]
fn leading_zero_octet_is_not_an_address() {
    assert_eq!(parse_local_bind("01.2.3.4:80").unwrap_err(), ConfigError::InvalidBindPort);
    assert_eq!(parse_local_bind("256.0.0.1:80").unwrap_err(), ConfigError::InvalidBindPort);
}

#[test]
fn tunnel_dest_reads_host_port_and_options() {
    let (host, port, options) = parse_tunnel_dest("google.com:443?timeout_sec=10&a=b").unwrap();
    assert_eq!(domain(&host), "google.com");
    assert_eq!(port, 443);
    assert_eq!(
        options,
        vec![
            ("timeout_sec".to_string(), "10".to_string()),
            ("a".to_string(), "b".to_string()),
        ]
    );
    assert_eq!(parse_tunnel_dest("google.com").unwrap_err(), ConfigError::MissingRemotePort);
    assert_eq!(parse_tunnel_dest("host:99999").unwrap_err(), ConfigError::InvalidRemote);
}

#[test]
fn tcp_tunnel() {
    let t = parse_tunnel_arg("tcp://7000:127.0.0.1:9000").unwrap();
    assert_eq!(t.local_protocol, LocalProtocol::Tcp);
    assert_eq!(t.local.ip, IpAddress::V4([127, 0, 0, 1]));
    assert_eq!(t.local.port, 7000);
    assert_eq!(domain(&t.remote.host), "127.0.0.1");
    assert_eq!(t.remote.port, 9000);
    assert_eq!(t.socket_so_mark, None);
}

#[test]
fn udp_tunnel_timeouts() {
    let t = parse_tunnel_arg("udp://1212:1.1.1.1:53?timeout_sec=5").unwrap();
    assert_eq!(t.local_protocol, LocalProtocol::Udp { timeout: Some(5) });
    assert_eq!(t.local.port, 1212);
    assert_eq!(t.remote.port, 53);
    let t = parse_tunnel_arg("udp://1212:1.1.1.1:53").unwrap();
    assert_eq!(t.local_protocol, LocalProtocol::Udp { timeout: Some(30) });
    let t = parse_tunnel_arg("udp://1212:1.1.1.1:53?timeout_sec=0").unwrap();
    assert_eq!(t.local_protocol, LocalProtocol::Udp { timeout: None });
    let t = parse_tunnel_arg("udp://1212:1.1.1.1:53?timeout_sec=x").unwrap();
    assert_eq!(t.local_protocol, LocalProtocol::Udp { timeout: Some(30) });
}

#[test]
fn socks5_tunnel() {
    let t = parse_tunnel_arg("socks5://1080").unwrap();
    assert_eq!(t.local_protocol, LocalProtocol::Socks5);
    assert_eq!(t.local.ip, IpAddress::V4([127, 0, 0, 1]));
    assert_eq!(t.local.port, 1080);
    assert_eq!(t.remote.port, 0);
    let t = parse_tunnel_arg("socks5://1212?socket_so_mark=2").unwrap();
    assert_eq!(t.local.port, 1212);
    assert_eq!(t.socket_so_mark, Some(2));
    let t = parse_tunnel_arg("socks5://[::]:1080").unwrap();
    assert_eq!(t.local.ip, IpAddress::V6([0; 8]));
}

#[test]
fn stdio_tunnel() {
    let t = parse_tunnel_arg("stdio://google.com:443").unwrap();
    assert_eq!(t.local_protocol, LocalProtocol::Stdio);
    assert_eq!(t.local.ip, IpAddress::V4([0, 0, 0, 0]));
    assert_eq!(t.local.port, 0);
    assert_eq!(domain(&t.remote.host), "google.com");
    assert_eq!(t.remote.port, 443);
}

#[test]
fn socket_marks() {
    let t = parse_tunnel_arg("tcp://7000:host:22?socket_so_mark=-5").unwrap();
    assert_eq!(t.socket_so_mark, Some(-5));
    let t = parse_tunnel_arg("tcp://7000:host:22?socket_so_mark=x").unwrap();
    assert_eq!(t.socket_so_mark, None);
    let t = parse_tunnel_arg("tcp://7000:host:22?socket_so_mark=1&socket_so_mark=7").unwrap();
    assert_eq!(t.socket_so_mark, Some(7));
}

#[test]
fn tunnel_errors() {
    assert_eq!(parse_tunnel_arg("ftp://1:a:2").unwrap_err(), ConfigError::InvalidLocalProtocol);
    assert_eq!(parse_tunnel_arg("tcp").unwrap_err(), ConfigError::InvalidLocalProtocol);
    assert_eq!(parse_tunnel_arg("socks5:/1080").unwrap_err(), ConfigError::InvalidLocalProtocol);
    assert_eq!(parse_tunnel_arg("tcp://abc").unwrap_err(), ConfigError::InvalidBindPort);
    assert_eq!(parse_tunnel_arg("tcp://7000:host").unwrap_err(), ConfigError::MissingRemotePort);
}

#[test]
fn sni_override() {
    assert_eq!(parse_sni_override("x.example"), Ok("x.example".to_string()));
    assert_eq!(parse_sni_override("not a name"), Err(ConfigError::InvalidSniOverride));
}

#[test]
fn http_headers() {
    assert_eq!(
        parse_http_headers("X-Foo:  bar baz "),
        Ok(("X-Foo".to_string(), "bar baz".to_string()))
    );
    assert_eq!(parse_http_headers("Host: a:b"), Ok(("Host".to_string(), "a:b".to_string())));
    assert_eq!(parse_http_headers("nocolon"), Err(ConfigError::InvalidHeader));
    assert_eq!(parse_http_headers("A: b\u{7f}"), Err(ConfigError::InvalidHeaderValue));
    assert_eq!(parse_http_headers("A: b\u{1}c"), Err(ConfigError::InvalidHeaderValue));
}

#[test]
fn http_credentials() {
    assert_eq!(parse_http_credentials("user:pass"), Ok("Basic dXNlcjpwYXNz".to_string()));
    assert_eq!(parse_http_credentials("  user "), Ok("Basic dXNlcg==".to_string()));
    assert_eq!(parse_http_credentials(""), Ok("Basic ".to_string()));
}

#[test]
fn server_url() {
    let u = parse_server_url("wss://example.com").unwrap();
    assert_eq!(u.scheme, "wss");
    assert_eq!(domain(u.host.as_ref().unwrap()), "example.com");
    assert_eq!(u.port, None);
    assert_eq!(u.port_or_known_default, Some(443));
    let u = parse_server_url("ws://127.0.0.1:8080").unwrap();
    assert_eq!(u.port, Some(8080));
    assert!(matches!(u.host, Some(RemoteHost::Ipv4([127, 0, 0, 1]))));
    assert_eq!(parse_server_url("http://x").unwrap_err(), ConfigError::InvalidScheme);
    assert_eq!(parse_server_url("nope").unwrap_err(), ConfigError::InvalidServerUrl);
}
