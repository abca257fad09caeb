use connect_core::error::ConnectError;
use connect_core::route::{
    plan, plan_with, proxy_address, proxy_alpn, socks_host, target_port, DialOptions, DnsResolve,
    Path, Plan, Proxy, ProxyScheme, SocksPlan, SocksVersion, Target, TlsMode,
};

fn opts(mode: TlsMode, nodelay: bool, tls_info: bool) -> DialOptions {
    DialOptions { mode, nodelay, tls_info }
}

fn https(host: &str) -> Target {
    Target { https: true, host: Some(host.to_string()), port: None }
}

fn http(host: &str) -> Target {
    Target { https: false, host: Some(host.to_string()), port: None }
}

fn proxy(scheme: ProxyScheme) -> Option<Proxy> {
    Some(Proxy { scheme, has_raw_auth: false })
}

#[test]
fn scheme_parsing() {
    assert_eq!(ProxyScheme::parse("http"), Some(ProxyScheme::Http));
    assert_eq!(ProxyScheme::parse("https"), Some(ProxyScheme::Https));
    assert_eq!(ProxyScheme::parse("socks4"), Some(ProxyScheme::Socks4));
    assert_eq!(ProxyScheme::parse("socks4h"), Some(ProxyScheme::Socks4h));
    assert_eq!(ProxyScheme::parse("socks5"), Some(ProxyScheme::Socks5));
    assert_eq!(ProxyScheme::parse("socks5h"), Some(ProxyScheme::Socks5h));
    assert_eq!(ProxyScheme::parse("socks"), None);
    assert_eq!(ProxyScheme::parse("HTTP"), None);
    assert_eq!(ProxyScheme::parse(""), None);
}

#[test]
fn default_ports() {
    assert_eq!(target_port(Some(8080), true), 8080);
    assert_eq!(target_port(None, true), 443);
    assert_eq!(target_port(None, false), 80);
}

#[test]
fn direct_https_toggles_nodelay() {
    let p = plan(opts(TlsMode::Rustls, false, true), &https("example.com"), None).unwrap();
    assert_eq!(
        p,
        Plan {
            path: Path::Direct,
            proxy_tls: false,
            target_tls: true,
            is_proxy: false,
            tls_info: true,
            dial_nodelay: true,
            restore_nodelay: true,
        }
    );
}

#[test]
fn direct_with_nodelay_configured_leaves_it_on() {
    let p = plan(opts(TlsMode::Native, true, false), &https("example.com"), None).unwrap();
    assert!(p.dial_nodelay);
    assert!(!p.restore_nodelay);
}

#[test]
fn direct_http_has_no_tls() {
    let p = plan(opts(TlsMode::Native, false, true), &http("example.com"), None).unwrap();
    assert!(!p.target_tls);
    assert!(!p.tls_info);
    assert!(!p.dial_nodelay);
    assert!(!p.restore_nodelay);
}

#[test]
fn plain_http_through_proxy_is_marked_proxy() {
    let p = plan(opts(TlsMode::Rustls, false, false), &http("example.com"), proxy(ProxyScheme::Http))
        .unwrap();
    assert_eq!(p.path, Path::Forward);
    assert!(p.is_proxy);
    assert!(!p.proxy_tls);
}

#[test]
fn plain_http_through_https_proxy_uses_proxy_tls() {
    let p = plan(opts(TlsMode::Rustls, false, true), &http("example.com"), proxy(ProxyScheme::Https))
        .unwrap();
    assert_eq!(p.path, Path::Forward);
    assert!(p.is_proxy);
    assert!(p.proxy_tls);
    assert!(p.dial_nodelay);
    assert!(p.restore_nodelay);
    assert!(p.tls_info);
}

#[test]
fn https_through_proxy_tunnels() {
    let t = Target { https: true, host: Some("example.com".to_string()), port: Some(8443) };
    let p = plan(opts(TlsMode::Native, false, false), &t, proxy(ProxyScheme::Https)).unwrap();
    assert_eq!(p.path, Path::Tunnel(8443));
    assert!(!p.is_proxy);
    assert!(p.proxy_tls);
    assert!(p.target_tls);
}

#[test]
fn tunnel_port_defaults_to_443() {
    let p = plan(opts(TlsMode::Rustls, true, false), &https("example.com"), proxy(ProxyScheme::Http))
        .unwrap();
    assert_eq!(p.path, Path::Tunnel(443));
    assert!(!p.proxy_tls);
}

#[test]
fn https_through_proxy_without_tls_backend_forwards() {
    let p = plan(opts(TlsMode::Plain, false, false), &https("example.com"), proxy(ProxyScheme::Http))
        .unwrap();
    assert_eq!(p.path, Path::Forward);
    assert!(p.is_proxy);
    assert!(!p.target_tls);
}

#[test]
fn tunnel_without_host_fails() {
    let t = Target { https: true, host: None, port: None };
    assert_eq!(
        plan(opts(TlsMode::Native, false, false), &t, proxy(ProxyScheme::Http)),
        Err(ConnectError::NoHost)
    );
}

#[test]
fn socks_without_host_fails() {
    let t = Target { https: false, host: None, port: None };
    assert_eq!(
        plan(opts(TlsMode::Plain, false, false), &t, proxy(ProxyScheme::Socks5)),
        Err(ConnectError::NoHost)
    );
}

#[test]
fn rustls_rejects_invalid_server_name() {
    let bad = https("not a host name!");
    assert_eq!(
        plan(opts(TlsMode::Rustls, false, false), &bad, proxy(ProxyScheme::Http)),
        Err(ConnectError::InvalidServerName)
    );
    assert_eq!(
        plan(opts(TlsMode::Rustls, false, false), &bad, proxy(ProxyScheme::Socks5h)),
        Err(ConnectError::InvalidServerName)
    );
}

#[test]
fn rustls_accepts_dns_names_and_addresses() {
    for host in ["example.com", "127.0.0.1", "localhost"] {
        let p = plan(opts(TlsMode::Rustls, false, false), &https(host), proxy(ProxyScheme::Http));
        assert_eq!(p.map(|p| p.path), Ok(Path::Tunnel(443)), "{host}");
    }
}

#[test]
fn native_tls_does_not_check_server_name() {
    let p = plan(opts(TlsMode::Native, false, false), &https("not a host name!"), proxy(ProxyScheme::Http));
    assert_eq!(p.map(|p| p.path), Ok(Path::Tunnel(443)));
}

#[test]
fn plan_with_given_name_answer() {
    let t = https("example.com");
    let o = opts(TlsMode::Rustls, false, false);
    assert_eq!(plan_with(o, &t, proxy(ProxyScheme::Http), false), Err(ConnectError::InvalidServerName));
    assert_eq!(plan_with(o, &t, proxy(ProxyScheme::Http), true).map(|p| p.path), Ok(Path::Tunnel(443)));
    assert_eq!(plan_with(o, &t, None, false).map(|p| p.path), Ok(Path::Direct));
}

#[test]
fn socks_paths() {
    let t = Target { https: true, host: Some("example.com".to_string()), port: None };
    let p = plan(
        opts(TlsMode::Native, false, true),
        &t,
        Some(Proxy { scheme: ProxyScheme::Socks5, has_raw_auth: true }),
    )
    .unwrap();
    assert_eq!(
        p,
        Plan {
            path: Path::Socks(SocksPlan {
                version: SocksVersion::V5,
                dns: DnsResolve::Local,
                port: 443,
                password: true,
            }),
            proxy_tls: false,
            target_tls: true,
            is_proxy: false,
            tls_info: true,
            dial_nodelay: false,
            restore_nodelay: false,
        }
    );
    let p = plan(
        opts(TlsMode::Plain, false, false),
        &http("example.com"),
        Some(Proxy { scheme: ProxyScheme::Socks4h, has_raw_auth: true }),
    )
    .unwrap();
    assert_eq!(
        p.path,
        Path::Socks(SocksPlan { version: SocksVersion::V4, dns: DnsResolve::Proxy, port: 80, password: false })
    );
    assert!(!p.target_tls);
}

#[test]
fn socks5h_end_to_end_keeps_host_name() {
    let t = http("example.test");
    let p = plan(opts(TlsMode::Rustls, false, false), &t, proxy(ProxyScheme::Socks5h)).unwrap();
    let Path::Socks(s) = p.path else { panic!("expected a SOCKS path") };
    assert_eq!(s.dns, DnsResolve::Proxy);
    assert!(!s.dns.resolves_target());
    assert_eq!(s.port, 80);
    assert_eq!(socks_host("example.test", s.dns, None), "example.test");
    assert_eq!(socks_host("example.test", s.dns, Some("10.0.0.1".to_string())), "example.test");
}

#[test]
fn socks5_resolves_locally() {
    let p = plan(opts(TlsMode::Plain, false, false), &http("example.test"), proxy(ProxyScheme::Socks5)).unwrap();
    let Path::Socks(s) = p.path else { panic!("expected a SOCKS path") };
    assert!(s.dns.resolves_target());
    assert_eq!(socks_host("example.test", s.dns, Some("10.0.0.1".to_string())), "10.0.0.1");
    assert_eq!(socks_host("example.test", s.dns, None), "example.test");
}

#[test]
fn proxy_address_empty_fails() {
    assert_eq!(proxy_address::<u32>(None), Err(ConnectError::ProxyDnsEmpty));
    assert_eq!(proxy_address(Some(9u32)), Ok(9));
}

#[test]
fn proxy_alpn_is_cleared_with_proxies() {
    let target = vec![b"h2".to_vec(), b"http/1.1".to_vec()];
    assert!(proxy_alpn(target.clone(), true).is_empty());
    assert_eq!(proxy_alpn(target.clone(), false), target);
}
