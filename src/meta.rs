//! The connection metadata handed to the HTTP engine with each transport.
use vstd::prelude::*;
use vstd::string::StringSliceAdditionalSpecFns;
use crate::bytes::{append_bytes, same_bytes};

verus! {

/// What the TLS layer exposes about a session.
#[derive(Debug, Clone, PartialEq, Eq)]
pub struct TlsInfo {
    /// The first certificate the peer presented, in DER form.
    pub peer_certificate: Option<Vec<u8>>,
}

/// What the HTTP engine learns about a transport.
#[derive(Debug, Clone, PartialEq, Eq)]
pub struct Connected {
    /// The peer is a plaintext HTTP proxy: requests go in absolute form.
    pub is_proxy: bool,
    /// ALPN settled on HTTP/2.
    pub negotiated_h2: bool,
    /// TLS information, when its capture is enabled and a TLS layer gave it.
    pub tls_info: Option<TlsInfo>,
}

impl Connected {
    /// The metadata of a fresh socket: no proxy, no HTTP/2, no TLS information.
    pub fn new() -> (r: Connected)
        ensures
            !r.is_proxy,
            !r.negotiated_h2,
            r.tls_info is None,
    {
        Connected { is_proxy: false, negotiated_h2: false, tls_info: None }
    }
}

/// The protocol that ALPN settled on is `h2`.
pub open spec fn is_h2(alpn: Option<Seq<u8>>) -> bool {
    alpn == Some("h2".spec_bytes())
}

/// The metadata of a TLS session laid over `base`, where `alpn` is the
/// protocol that the handshake settled on, if any: marked HTTP/2 exactly when
/// that protocol is `h2`, otherwise as it was.
pub fn with_alpn(base: Connected, alpn: Option<&[u8]>) -> (r: Connected)
    ensures
        r.is_proxy == base.is_proxy,
        r.tls_info == base.tls_info,
        r.negotiated_h2 == (base.negotiated_h2 || is_h2(
            match alpn {
                Some(p) => Some(p@),
                None => None,
            },
        )),
{
    let h2 = match alpn {
        Some(p) => same_bytes(p, "h2".as_bytes()),
        None => false,
    };
    Connected { is_proxy: base.is_proxy, negotiated_h2: base.negotiated_h2 || h2, tls_info: base.tls_info }
}

/// The TLS information of a session whose peer presented `certs` (none at all
/// when `None`): the first certificate, if there is one.
pub fn tls_info_from(certs: Option<&Vec<Vec<u8>>>) -> (r: TlsInfo)
    ensures
        match certs {
            Some(c) if c@.len() > 0 => r.peer_certificate is Some && r.peer_certificate->Some_0@
                == c@[0]@,
            _ => r.peer_certificate is None,
        },
{
    match certs {
        Some(c) => if c.len() > 0 {
            let mut der: Vec<u8> = Vec::new();
            append_bytes(&mut der, c[0].as_slice());
            assert(der@ =~= c@[0]@);
            TlsInfo { peer_certificate: Some(der) }
        } else {
            TlsInfo { peer_certificate: None }
        },
        None => TlsInfo { peer_certificate: None },
    }
}

/// The metadata of a finished transport: the innermost layer's `base`, marked
/// with whether it speaks to a plaintext HTTP proxy, and carrying `info` when
/// TLS information is enabled and the TLS layer gave some.
pub fn adorn(base: Connected, is_proxy: bool, tls_info_enabled: bool, info: Option<TlsInfo>) -> (r:
    Connected)
    ensures
        r.is_proxy == is_proxy,
        r.negotiated_h2 == base.negotiated_h2,
        r.tls_info == if tls_info_enabled && info is Some {
            info
        } else {
            base.tls_info
        },
{
    let tls_info = if tls_info_enabled && info.is_some() {
        info
    } else {
        base.tls_info
    };
    Connected { is_proxy, negotiated_h2: base.negotiated_h2, tls_info }
}

} // verus!
