use connect_core::compose::{shape, Shape};
use connect_core::error::ConnectError;

#[test]
fn error_messages() {
    assert_eq!(ConnectError::NoHost.message(), "no host in url");
    assert_eq!(ConnectError::InvalidServerName.message(), "Invalid Server Name");
    assert_eq!(ConnectError::ProxyDnsEmpty.message(), "proxy dns resolve is empty");
    assert_eq!(
        ConnectError::ProxyConnect("general SOCKS server failure".to_string()).message(),
        "socks connect error: general SOCKS server failure"
    );
    assert_eq!(ConnectError::TunnelAuthRequired.message(), "proxy authentication required");
    assert_eq!(ConnectError::TunnelBadResponse.message(), "unsuccessful tunnel");
    assert_eq!(
        ConnectError::TunnelHeadersTooLong.message(),
        "proxy headers too long for tunnel"
    );
    assert_eq!(ConnectError::TunnelEof.message(), "unexpected eof while tunneling");
    assert_eq!(ConnectError::TlsHandshake("bad cert".to_string()).message(), "bad cert");
    assert_eq!(ConnectError::TimedOut.message(), "operation timed out");
    assert_eq!(ConnectError::Transport("refused".to_string()).message(), "refused");
}

#[test]
fn no_layers_is_simple_shape() {
    assert_eq!(shape(0, Some(30u64)), Shape::Simple(Some(30)));
    assert_eq!(shape::<u64>(0, None), Shape::Simple(None));
}

#[test]
fn layers_give_layered_shape() {
    assert_eq!(shape(2, Some(5u64)), Shape::Layered(Some(5)));
    assert_eq!(shape::<u64>(1, None), Shape::Layered(None));
}
