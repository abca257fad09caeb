//! The shape of the connector service and the settings it is built from.
use vstd::prelude::*;
use crate::route::{DialOptions, TlsMode};
use crate::trace::Wrapper;
use core::time::Duration;

verus! {

/// How the dialer is composed with the user's middleware layers; `D` is a
/// duration.
#[derive(Debug, Clone, PartialEq, Eq)]
pub enum Shape<D> {
    /// No layers: the dialer itself, with the timeout applied inside each dial.
    Simple(Option<D>),
    /// The dialer behind the layers (the first layer innermost), with the
    /// timeout as an outermost layer.
    Layered(Option<D>),
}

/// The composition for `n_layers` user layers and the connect timeout.
pub fn shape<D>(n_layers: usize, timeout: Option<D>) -> (r: Shape<D>)
    ensures
        n_layers == 0 ==> r == Shape::Simple(timeout),
        n_layers > 0 ==> r == Shape::Layered(timeout),
{
    if n_layers == 0 {
        Shape::Simple(timeout)
    } else {
        Shape::Layered(timeout)
    }
}

/// The destination URI as user middleware layers see it: wrapped, so that no
/// layer comes to depend on the URI type.
#[verifier::external_type_specification]
#[verifier::external_body]
pub struct ExUri(http::Uri);

#[derive(Debug)]
pub struct Unnameable(pub http::Uri);

impl Unnameable {
    /// The destination inside.
    pub fn into_uri(self) -> (r: http::Uri)
        ensures
            r == self.0,
    {
        self.0
    }
}

/// The plain settings of a connector, beside the outside dialers and TLS
/// connectors that it drives.
#[derive(Debug, Clone)]
pub struct ConnectorSettings {
    pub options: DialOptions,
    pub verbose: Wrapper,
    /// The connect timeout.
    pub timeout: Option<Duration>,
    /// The `User-Agent` value sent with CONNECT requests.
    pub user_agent: Option<Vec<u8>>,
}

impl ConnectorSettings {
    /// Settings with the tap off and no timeout.
    pub fn new(mode: TlsMode, nodelay: bool, tls_info: bool, user_agent: Option<Vec<u8>>) -> (r:
        ConnectorSettings)
        ensures
            r.options == (DialOptions { mode, nodelay, tls_info }),
            r.verbose == Wrapper(false),
            r.timeout is None,
            r.user_agent == user_agent,
    {
        ConnectorSettings {
            options: DialOptions { mode, nodelay, tls_info },
            verbose: Wrapper(false),
            timeout: None,
            user_agent,
        }
    }

    pub fn set_timeout(&mut self, timeout: Option<Duration>)
        ensures
            final(self).timeout == timeout,
            final(self).options == old(self).options,
            final(self).verbose == old(self).verbose,
            final(self).user_agent == old(self).user_agent,
    {
        self.timeout = timeout;
    }

    pub fn set_verbose(&mut self, enabled: bool)
        ensures
            final(self).verbose == Wrapper(enabled),
            final(self).options == old(self).options,
            final(self).timeout == old(self).timeout,
            final(self).user_agent == old(self).user_agent,
    {
        self.verbose = Wrapper(enabled);
    }

    /// The composition for `n_layers` user layers, carrying the connect timeout.
    pub fn shape(&self, n_layers: usize) -> (r: Shape<Duration>)
        ensures
            n_layers == 0 ==> r == Shape::Simple(self.timeout),
            n_layers > 0 ==> r == Shape::Layered(self.timeout),
    {
        shape(n_layers, self.timeout)
    }
}

} // verus!
