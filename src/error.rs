//! The failure kinds of a connection attempt.
use vstd::prelude::*;

verus! {

/// Why a connection attempt failed. Every failure ends the attempt; nothing is
/// retried here.
#[derive(Debug, Clone, PartialEq, Eq)]
pub enum ConnectError {
    /// The destination has no host.
    NoHost,
    /// The host is not a name that the TLS backend accepts as a server name.
    InvalidServerName,
    /// Resolving the SOCKS proxy's own address gave no address.
    ProxyDnsEmpty,
    /// The SOCKS handshake failed; holds the proxy library's message.
    ProxyConnect(String),
    /// The proxy answered the CONNECT request with `407`.
    TunnelAuthRequired,
    /// The proxy answered the CONNECT request with something other than `200`.
    TunnelBadResponse,
    /// The proxy's headers did not end within the tunnel buffer.
    TunnelHeadersTooLong,
    /// The proxy closed the connection before the tunnel was established.
    TunnelEof,
    /// The TLS backend failed the handshake; holds its message.
    TlsHandshake(String),
    /// The connect timeout elapsed.
    TimedOut,
    /// The underlying socket failed; holds its message.
    Transport(String),
}

/// The text of each failure.
pub open spec fn message_of(e: ConnectError) -> Seq<char> {
    match e {
        ConnectError::NoHost => "no host in url"@,
        ConnectError::InvalidServerName => "Invalid Server Name"@,
        ConnectError::ProxyDnsEmpty => "proxy dns resolve is empty"@,
        ConnectError::ProxyConnect(m) => "socks connect error: "@ + m@,
        ConnectError::TunnelAuthRequired => "proxy authentication required"@,
        ConnectError::TunnelBadResponse => "unsuccessful tunnel"@,
        ConnectError::TunnelHeadersTooLong => "proxy headers too long for tunnel"@,
        ConnectError::TunnelEof => "unexpected eof while tunneling"@,
        ConnectError::TlsHandshake(m) => m@,
        ConnectError::TimedOut => "operation timed out"@,
        ConnectError::Transport(m) => m@,
    }
}

impl ConnectError {
    /// The text of this failure, as shown to a user.
    pub fn message(&self) -> (r: String)
        ensures
            r@ == message_of(*self),
    {
        match self {
            ConnectError::NoHost => String::from_str("no host in url"),
            ConnectError::InvalidServerName => String::from_str("Invalid Server Name"),
            ConnectError::ProxyDnsEmpty => String::from_str("proxy dns resolve is empty"),
            ConnectError::ProxyConnect(m) => String::from_str("socks connect error: ").concat(
                m.as_str(),
            ),
            ConnectError::TunnelAuthRequired => String::from_str("proxy authentication required"),
            ConnectError::TunnelBadResponse => String::from_str("unsuccessful tunnel"),
            ConnectError::TunnelHeadersTooLong => String::from_str(
                "proxy headers too long for tunnel",
            ),
            ConnectError::TunnelEof => String::from_str("unexpected eof while tunneling"),
            ConnectError::TlsHandshake(m) => m.clone(),
            ConnectError::TimedOut => String::from_str("operation timed out"),
            ConnectError::Transport(m) => m.clone(),
        }
    }
}

} // verus!
