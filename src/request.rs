//! The CONNECT request that opens a tunnel through an HTTP(S) proxy.
use vstd::prelude::*;
use vstd::string::StringSliceAdditionalSpecFns;
use crate::bytes::append_bytes;

verus! {

/// ASCII decimal rendering of `n`, most significant digit first, no leading zeros.
pub open spec fn decimal(n: nat) -> Seq<u8>
    decreases n,
{
    if n < 10 {
        seq![(48 + n) as u8]
    } else {
        decimal(n / 10).push((48 + n % 10) as u8)
    }
}


/// Appends the decimal digits of `n` to `out`.
pub fn append_decimal(out: &mut Vec<u8>, n: u16)
    ensures
        final(out)@ == old(out)@ + decimal(n as nat),
    decreases n,
{
    if n >= 10 {
        append_decimal(out, n / 10);
    }
    out.push(48 + (n % 10) as u8);
    proof {
        if n >= 10 {
            assert(old(out)@ + decimal(n as nat) =~= old(out)@ + decimal((n / 10) as nat) + seq![
                (48 + n % 10) as u8,
            ]);
        } else {
            assert(old(out)@ + decimal(n as nat) =~= old(out)@.push((48 + n % 10) as u8));
        }
    }
}

/// One header line `name` `value` CRLF, or nothing when the value is absent;
/// `name` carries its own `": "`.
pub open spec fn optional_header(name: Seq<u8>, value: Option<Seq<u8>>) -> Seq<u8> {
    match value {
        Some(v) => name + v + "\r\n".spec_bytes(),
        None => Seq::empty(),
    }
}

/// `host:port` as written in the request line and in the `Host` header.
pub open spec fn authority(host: Seq<u8>, port: u16) -> Seq<u8> {
    host + ":".spec_bytes() + decimal(port as nat)
}

/// The bytes of a CONNECT request for `host:port`: the request line, the `Host`
/// header, then `User-Agent` and `Proxy-Authorization` when given, then the empty
/// line that ends the headers.
pub open spec fn connect_request_bytes(
    host: Seq<u8>,
    port: u16,
    user_agent: Option<Seq<u8>>,
    auth: Option<Seq<u8>>,
) -> Seq<u8> {
    "CONNECT ".spec_bytes() + authority(host, port) + " HTTP/1.1\r\n".spec_bytes()
        + "Host: ".spec_bytes() + authority(host, port) + "\r\n".spec_bytes()
        + optional_header("User-Agent: ".spec_bytes(), user_agent)
        + optional_header("Proxy-Authorization: ".spec_bytes(), auth) + "\r\n".spec_bytes()
}

/// The bytes of an optional header value.
pub open spec fn opt_view(v: Option<&[u8]>) -> Option<Seq<u8>> {
    match v {
        Some(b) => Some(b@),
        None => None,
    }
}

/// Appends `host:port`.
fn append_authority(out: &mut Vec<u8>, host: &str, port: u16)
    ensures
        final(out)@ == old(out)@ + authority(host.spec_bytes(), port),
{
    append_bytes(out, host.as_bytes());
    append_bytes(out, ":".as_bytes());
    append_decimal(out, port);
    assert(final(out)@ =~= old(out)@ + authority(host.spec_bytes(), port));
}

/// Appends a header line when its value is given.
fn append_optional_header(out: &mut Vec<u8>, name: &str, value: Option<&[u8]>)
    ensures
        final(out)@ == old(out)@ + optional_header(name.spec_bytes(), opt_view(value)),
{
    match value {
        Some(v) => {
            append_bytes(out, name.as_bytes());
            append_bytes(out, v);
            append_bytes(out, "\r\n".as_bytes());
            assert(final(out)@ =~= old(out)@ + optional_header(name.spec_bytes(), opt_view(value)));
        },
        None => {
            assert(final(out)@ =~= old(out)@ + optional_header(name.spec_bytes(), opt_view(value)));
        },
    }
}

/// The CONNECT request that asks a proxy to open a tunnel to `host:port`, with
/// the given `User-Agent` and `Proxy-Authorization` header values.
pub fn connect_request(host: &str, port: u16, user_agent: Option<&[u8]>, auth: Option<&[u8]>) -> (r:
    Vec<u8>)
    ensures
        r@ == connect_request_bytes(host.spec_bytes(), port, opt_view(user_agent), opt_view(auth)),
{
    let mut out: Vec<u8> = Vec::new();
    append_bytes(&mut out, "CONNECT ".as_bytes());
    append_authority(&mut out, host, port);
    append_bytes(&mut out, " HTTP/1.1\r\n".as_bytes());
    append_bytes(&mut out, "Host: ".as_bytes());
    append_authority(&mut out, host, port);
    append_bytes(&mut out, "\r\n".as_bytes());
    append_optional_header(&mut out, "User-Agent: ", user_agent);
    append_optional_header(&mut out, "Proxy-Authorization: ", auth);
    append_bytes(&mut out, "\r\n".as_bytes());
    assert(out@ =~= connect_request_bytes(
        host.spec_bytes(),
        port,
        opt_view(user_agent),
        opt_view(auth),
    ));
    out
}

} // verus!
