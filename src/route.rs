//! How a destination is reached: directly, through a SOCKS proxy, or through an
//! HTTP(S) proxy that either forwards requests or opens a CONNECT tunnel; and
//! where TLS is laid over the chosen path.
use vstd::prelude::*;
use vstd::string::StringSliceAdditionalSpecFns;
use crate::bytes::same_bytes;
use crate::error::ConnectError;

verus! {

/// The TLS backend that the dialer was built with, if any.
#[derive(Debug, Clone, Copy, PartialEq, Eq, Structural)]
pub enum TlsMode {
    /// No TLS backend: only plaintext connections.
    Plain,
    /// The system TLS stack.
    Native,
    /// Rustls, with a second configuration for proxies whose ALPN list is empty.
    Rustls,
}

/// The scheme of a proxy that matched the destination.
#[derive(Debug, Clone, Copy, PartialEq, Eq, Structural)]
pub enum ProxyScheme {
    Http,
    Https,
    Socks4,
    Socks4h,
    Socks5,
    Socks5h,
}

/// Who resolves the target's host name on a SOCKS path.
#[derive(Debug, Clone, Copy, PartialEq, Eq, Structural)]
pub enum DnsResolve {
    /// This side resolves it and hands the proxy an address.
    Local,
    /// The proxy gets the host name as written and resolves it.
    Proxy,
}

#[derive(Debug, Clone, Copy, PartialEq, Eq, Structural)]
pub enum SocksVersion {
    V4,
    V5,
}

/// The parts of the destination that decide the route.
#[derive(Debug, Clone, PartialEq, Eq)]
pub struct Target {
    /// The scheme is `https`.
    pub https: bool,
    pub host: Option<String>,
    /// The port written in the destination, if any.
    pub port: Option<u16>,
}

/// The proxy that matched the destination.
#[derive(Debug, Clone, Copy, PartialEq, Eq, Structural)]
pub struct Proxy {
    pub scheme: ProxyScheme,
    /// A username and password are configured (used by SOCKS5).
    pub has_raw_auth: bool,
}

/// The dialer's per-connection settings.
#[derive(Debug, Clone, Copy, PartialEq, Eq, Structural)]
pub struct DialOptions {
    pub mode: TlsMode,
    /// TCP_NODELAY as configured.
    pub nodelay: bool,
    /// Peer-certificate information is attached to TLS connections.
    pub tls_info: bool,
}

/// A SOCKS handshake to run with the proxy.
#[derive(Debug, Clone, Copy, PartialEq, Eq, Structural)]
pub struct SocksPlan {
    pub version: SocksVersion,
    pub dns: DnsResolve,
    /// The target port asked of the proxy.
    pub port: u16,
    /// Username and password authentication (SOCKS5 only).
    pub password: bool,
}

/// The way to the target.
#[derive(Debug, Clone, Copy, PartialEq, Eq, Structural)]
pub enum Path {
    /// The inner dialer connects to the target.
    Direct,
    /// The inner dialer connects to the HTTP(S) proxy, which receives the
    /// requests in absolute form.
    Forward,
    /// A SOCKS proxy connects to the target.
    Socks(SocksPlan),
    /// The inner dialer connects to the HTTP(S) proxy, and a CONNECT tunnel to
    /// the target port is opened through it.
    Tunnel(u16),
}

/// Everything the dialer decides before it touches the network.
#[derive(Debug, Clone, Copy, PartialEq, Eq, Structural)]
pub struct Plan {
    pub path: Path,
    /// A TLS session with the proxy itself, made with the proxy configuration.
    pub proxy_tls: bool,
    /// A TLS session with the target, made with the target configuration.
    pub target_tls: bool,
    /// The transport speaks to a plaintext HTTP proxy.
    pub is_proxy: bool,
    /// Peer-certificate information is attached to the transport.
    pub tls_info: bool,
    /// TCP_NODELAY while the inner dialer connects and runs its handshake.
    pub dial_nodelay: bool,
    /// TCP_NODELAY is switched off again once that handshake is done.
    pub restore_nodelay: bool,
}

/// The proxy scheme written as `s`, if it is one of the six known ones.
pub open spec fn scheme_of(s: Seq<u8>) -> Option<ProxyScheme> {
    if s == "http".spec_bytes() {
        Some(ProxyScheme::Http)
    } else if s == "https".spec_bytes() {
        Some(ProxyScheme::Https)
    } else if s == "socks4".spec_bytes() {
        Some(ProxyScheme::Socks4)
    } else if s == "socks4h".spec_bytes() {
        Some(ProxyScheme::Socks4h)
    } else if s == "socks5".spec_bytes() {
        Some(ProxyScheme::Socks5)
    } else if s == "socks5h".spec_bytes() {
        Some(ProxyScheme::Socks5h)
    } else {
        None
    }
}

impl ProxyScheme {
    /// Reads a proxy URI's scheme.
    pub fn parse(s: &str) -> (r: Option<ProxyScheme>)
        ensures
            r == scheme_of(s.spec_bytes()),
    {
        let b = s.as_bytes();
        if same_bytes(b, "http".as_bytes()) {
            Some(ProxyScheme::Http)
        } else if same_bytes(b, "https".as_bytes()) {
            Some(ProxyScheme::Https)
        } else if same_bytes(b, "socks4".as_bytes()) {
            Some(ProxyScheme::Socks4)
        } else if same_bytes(b, "socks4h".as_bytes()) {
            Some(ProxyScheme::Socks4h)
        } else if same_bytes(b, "socks5".as_bytes()) {
            Some(ProxyScheme::Socks5)
        } else if same_bytes(b, "socks5h".as_bytes()) {
            Some(ProxyScheme::Socks5h)
        } else {
            None
        }
    }

    pub open spec fn spec_is_socks(self) -> bool {
        !(self is Http || self is Https)
    }

    /// The proxy speaks SOCKS rather than HTTP.
    #[verifier::when_used_as_spec(spec_is_socks)]
    pub fn is_socks(self) -> (r: bool)
        ensures
            r == self.spec_is_socks(),
    {
        !matches!(self, ProxyScheme::Http | ProxyScheme::Https)
    }

    pub open spec fn spec_dns(self) -> DnsResolve {
        match self {
            ProxyScheme::Socks4h | ProxyScheme::Socks5h => DnsResolve::Proxy,
            _ => DnsResolve::Local,
        }
    }

    /// Who resolves the target's name: the proxy for `socks4h` and `socks5h`,
    /// this side for `socks4` and `socks5`.
    #[verifier::when_used_as_spec(spec_dns)]
    pub fn dns(self) -> (r: DnsResolve)
        requires
            self.spec_is_socks(),
        ensures
            r == self.spec_dns(),
    {
        match self {
            ProxyScheme::Socks4h | ProxyScheme::Socks5h => DnsResolve::Proxy,
            _ => DnsResolve::Local,
        }
    }
}

/// The port to connect to: the one written in the destination, else 443 for
/// `https`, else 80.
pub open spec fn port_or_default(port: Option<u16>, https: bool) -> u16 {
    match port {
        Some(p) => p,
        None => if https {
            443
        } else {
            80
        },
    }
}

/// Port selection for a target.
pub fn target_port(port: Option<u16>, https: bool) -> (r: u16)
    ensures
        r == port_or_default(port, https),
{
    match port {
        Some(p) => p,
        None => if https {
            443
        } else {
            80
        },
    }
}

/// The plan for a destination, given whether its host is a valid TLS server
/// name (`name_ok`; only the Rustls backend checks it).
pub open spec fn route(
    opts: DialOptions,
    target: Target,
    proxy: Option<Proxy>,
    name_ok: bool,
) -> Result<Plan, ConnectError> {
    let tls = !(opts.mode is Plain);
    match proxy {
        None => {
            let target_tls = tls && target.https;
            Ok(
                Plan {
                    path: Path::Direct,
                    proxy_tls: false,
                    target_tls,
                    is_proxy: false,
                    tls_info: opts.tls_info && target_tls,
                    dial_nodelay: opts.nodelay || target_tls,
                    restore_nodelay: !opts.nodelay && target_tls,
                },
            )
        },
        Some(p) => if p.scheme.spec_is_socks() {
            let target_tls = tls && target.https;
            if target.host is None {
                Err(ConnectError::NoHost)
            } else if target_tls && opts.mode is Rustls && !name_ok {
                Err(ConnectError::InvalidServerName)
            } else {
                Ok(
                    Plan {
                        path: Path::Socks(
                            SocksPlan {
                                version: if p.scheme is Socks4 || p.scheme is Socks4h {
                                    SocksVersion::V4
                                } else {
                                    SocksVersion::V5
                                },
                                dns: p.scheme.spec_dns(),
                                port: port_or_default(target.port, target.https),
                                password: !(p.scheme is Socks4 || p.scheme is Socks4h)
                                    && p.has_raw_auth,
                            },
                        ),
                        proxy_tls: false,
                        target_tls,
                        is_proxy: false,
                        tls_info: opts.tls_info && target_tls,
                        dial_nodelay: opts.nodelay,
                        restore_nodelay: false,
                    },
                )
            }
        } else if tls && target.https {
            if target.host is None {
                Err(ConnectError::NoHost)
            } else if opts.mode is Rustls && !name_ok {
                Err(ConnectError::InvalidServerName)
            } else {
                Ok(
                    Plan {
                        path: Path::Tunnel(port_or_default(target.port, true)),
                        proxy_tls: p.scheme is Https,
                        target_tls: true,
                        is_proxy: false,
                        tls_info: opts.tls_info,
                        dial_nodelay: opts.nodelay,
                        restore_nodelay: false,
                    },
                )
            }
        } else {
            let proxy_tls = tls && p.scheme is Https;
            Ok(
                Plan {
                    path: Path::Forward,
                    proxy_tls,
                    target_tls: false,
                    is_proxy: true,
                    tls_info: opts.tls_info && proxy_tls,
                    dial_nodelay: opts.nodelay || proxy_tls,
                    restore_nodelay: !opts.nodelay && proxy_tls,
                },
            )
        },
    }
}

/// Whether rustls accepts `s` as a server name (a DNS name or an IP address).
pub uninterp spec fn is_server_name(s: Seq<char>) -> bool;

/// Relies on `rustls_pki_types::ServerName::try_from(String)`: it accepts a
/// DNS name or an IP address literal, and its answer depends on the text alone.
#[verifier::external_body]
fn server_name_ok(host: &str) -> (r: bool)
    ensures
        r == is_server_name(host@),
{
    rustls_pki_types::ServerName::try_from(host.to_owned()).is_ok()
}

/// The plan for a destination when `name_ok` tells whether its host is a
/// valid TLS server name.
pub fn plan_with(opts: DialOptions, target: &Target, proxy: Option<Proxy>, name_ok: bool) -> (r:
    Result<Plan, ConnectError>)
    ensures
        r == route(opts, *target, proxy, name_ok),
{
    let tls = !matches!(opts.mode, TlsMode::Plain);
    match proxy {
        None => {
            let target_tls = tls && target.https;
            Ok(
                Plan {
                    path: Path::Direct,
                    proxy_tls: false,
                    target_tls,
                    is_proxy: false,
                    tls_info: opts.tls_info && target_tls,
                    dial_nodelay: opts.nodelay || target_tls,
                    restore_nodelay: !opts.nodelay && target_tls,
                },
            )
        },
        Some(p) => if p.scheme.is_socks() {
            let target_tls = tls && target.https;
            if target.host.is_none() {
                Err(ConnectError::NoHost)
            } else if target_tls && matches!(opts.mode, TlsMode::Rustls) && !name_ok {
                Err(ConnectError::InvalidServerName)
            } else {
                let v4 = matches!(p.scheme, ProxyScheme::Socks4 | ProxyScheme::Socks4h);
                Ok(
                    Plan {
                        path: Path::Socks(
                            SocksPlan {
                                version: if v4 {
                                    SocksVersion::V4
                                } else {
                                    SocksVersion::V5
                                },
                                dns: p.scheme.dns(),
                                port: target_port(target.port, target.https),
                                password: !v4 && p.has_raw_auth,
                            },
                        ),
                        proxy_tls: false,
                        target_tls,
                        is_proxy: false,
                        tls_info: opts.tls_info && target_tls,
                        dial_nodelay: opts.nodelay,
                        restore_nodelay: false,
                    },
                )
            }
        } else if tls && target.https {
            if target.host.is_none() {
                Err(ConnectError::NoHost)
            } else if matches!(opts.mode, TlsMode::Rustls) && !name_ok {
                Err(ConnectError::InvalidServerName)
            } else {
                Ok(
                    Plan {
                        path: Path::Tunnel(target_port(target.port, true)),
                        proxy_tls: matches!(p.scheme, ProxyScheme::Https),
                        target_tls: true,
                        is_proxy: false,
                        tls_info: opts.tls_info,
                        dial_nodelay: opts.nodelay,
                        restore_nodelay: false,
                    },
                )
            }
        } else {
            let proxy_tls = tls && matches!(p.scheme, ProxyScheme::Https);
            Ok(
                Plan {
                    path: Path::Forward,
                    proxy_tls,
                    target_tls: false,
                    is_proxy: true,
                    tls_info: opts.tls_info && proxy_tls,
                    dial_nodelay: opts.nodelay || proxy_tls,
                    restore_nodelay: !opts.nodelay && proxy_tls,
                },
            )
        },
    }
}

/// The host is a valid server name, as far as the plan for `target` asks.
pub open spec fn host_name_ok(target: Target) -> bool {
    match target.host {
        Some(h) => is_server_name(h@),
        None => false,
    }
}

/// Decides how to reach `target` given the proxy that matched it, if any.
/// With the Rustls backend a TLS session to the target needs a valid server
/// name, which is checked before any connection is made.
pub fn plan(opts: DialOptions, target: &Target, proxy: Option<Proxy>) -> (r: Result<
    Plan,
    ConnectError,
>)
    ensures
        r == route(opts, *target, proxy, host_name_ok(*target)),
{
    let name_ok = match &target.host {
        Some(h) => if matches!(opts.mode, TlsMode::Rustls) && target.https {
            server_name_ok(h.as_str())
        } else {
            true
        },
        None => false,
    };
    plan_with(opts, target, proxy, name_ok)
}

impl DnsResolve {
    pub open spec fn spec_resolves_target(self) -> bool {
        self is Local
    }

    /// The target's host name is looked up on this side before the SOCKS request.
    #[verifier::when_used_as_spec(spec_resolves_target)]
    pub fn resolves_target(self) -> (r: bool)
        ensures
            r == self.spec_resolves_target(),
    {
        matches!(self, DnsResolve::Local)
    }
}

/// The host asked of a SOCKS proxy: the first address found for the target when
/// this side resolves and found one, else the host name as written.
pub open spec fn socks_host_of(original: Seq<char>, dns: DnsResolve, resolved: Option<String>) -> Seq<
    char,
> {
    match resolved {
        Some(addr) if dns is Local => addr@,
        _ => original,
    }
}

/// The host to put in the SOCKS request; `resolved` is the text of the first
/// address that the local lookup gave, if one was made and found one.
pub fn socks_host(original: &str, dns: DnsResolve, resolved: Option<String>) -> (r: String)
    ensures
        r@ == socks_host_of(original@, dns, resolved),
{
    match resolved {
        Some(addr) if dns.resolves_target() => addr,
        _ => original.to_owned(),
    }
}

/// The SOCKS proxy's address: the first that resolving its host gave.
pub fn proxy_address<A>(first: Option<A>) -> (r: Result<A, ConnectError>)
    ensures
        first is Some ==> r == Ok::<A, ConnectError>(first->Some_0),
        first is None ==> r == Err::<A, ConnectError>(ConnectError::ProxyDnsEmpty),
{
    match first {
        Some(a) => Ok(a),
        None => Err(ConnectError::ProxyDnsEmpty),
    }
}

/// The ALPN list of the TLS configuration used with proxies: empty as soon as
/// any proxy is configured, so that HTTP/2 is never offered to a proxy; the
/// target's list otherwise (that configuration then serves no proxy).
pub fn proxy_alpn(target_alpn: Vec<Vec<u8>>, has_proxies: bool) -> (r: Vec<Vec<u8>>)
    ensures
        has_proxies ==> r@.len() == 0,
        !has_proxies ==> r@ == target_alpn@,
{
    if has_proxies {
        Vec::new()
    } else {
        target_alpn
    }
}

/// With TCP_NODELAY off in the settings and a TLS backend, a direct
/// connection to an `https` target has TCP_NODELAY on while the handshake runs
/// and off again once the connection is handed out.
pub proof fn lemma_nodelay_restored(opts: DialOptions, target: Target, name_ok: bool)
    requires
        !opts.nodelay,
        !(opts.mode is Plain),
        target.https,
    ensures
        route(opts, target, None, name_ok) is Ok,
        route(opts, target, None, name_ok)->Ok_0.target_tls,
        route(opts, target, None, name_ok)->Ok_0.dial_nodelay,
        route(opts, target, None, name_ok)->Ok_0.restore_nodelay,
{
}

/// Only a plaintext request forwarded to an HTTP(S) proxy is marked as
/// speaking to a proxy: CONNECT tunnels, SOCKS paths and direct connections are
/// not.
pub proof fn lemma_is_proxy_only_when_forwarding(
    opts: DialOptions,
    target: Target,
    proxy: Option<Proxy>,
    name_ok: bool,
)
    requires
        route(opts, target, proxy, name_ok) is Ok,
    ensures
        route(opts, target, proxy, name_ok)->Ok_0.is_proxy <==> route(
            opts,
            target,
            proxy,
            name_ok,
        )->Ok_0.path is Forward,
        route(opts, target, proxy, name_ok)->Ok_0.path is Forward <==> (proxy is Some
            && !proxy->Some_0.scheme.spec_is_socks() && !(!(opts.mode is Plain) && target.https)),
{
}

/// A `socks5` proxy has this side resolve the target before the SOCKS request;
/// a `socks5h` proxy gets the host name exactly as written.
pub proof fn lemma_socks_dns_mode(
    opts: DialOptions,
    target: Target,
    has_raw_auth: bool,
    name_ok: bool,
    resolved: Option<String>,
)
    requires
        target.host is Some,
        (opts.mode is Rustls && target.https) ==> name_ok,
    ensures
        route(opts, target, Some(Proxy { scheme: ProxyScheme::Socks5, has_raw_auth }), name_ok)
            == Ok::<Plan, ConnectError>(
            Plan {
                path: Path::Socks(
                    SocksPlan {
                        version: SocksVersion::V5,
                        dns: DnsResolve::Local,
                        port: port_or_default(target.port, target.https),
                        password: has_raw_auth,
                    },
                ),
                proxy_tls: false,
                target_tls: !(opts.mode is Plain) && target.https,
                is_proxy: false,
                tls_info: opts.tls_info && !(opts.mode is Plain) && target.https,
                dial_nodelay: opts.nodelay,
                restore_nodelay: false,
            },
        ),
        route(opts, target, Some(Proxy { scheme: ProxyScheme::Socks5h, has_raw_auth }), name_ok)
            == Ok::<Plan, ConnectError>(
            Plan {
                path: Path::Socks(
                    SocksPlan {
                        version: SocksVersion::V5,
                        dns: DnsResolve::Proxy,
                        port: port_or_default(target.port, target.https),
                        password: has_raw_auth,
                    },
                ),
                proxy_tls: false,
                target_tls: !(opts.mode is Plain) && target.https,
                is_proxy: false,
                tls_info: opts.tls_info && !(opts.mode is Plain) && target.https,
                dial_nodelay: opts.nodelay,
                restore_nodelay: false,
            },
        ),
        DnsResolve::Local.spec_resolves_target(),
        !DnsResolve::Proxy.spec_resolves_target(),
        socks_host_of(target.host->Some_0@, DnsResolve::Proxy, resolved) == target.host->Some_0@,
{
}

} // verus!
