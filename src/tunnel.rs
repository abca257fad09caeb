//! Reading the proxy's answer to a CONNECT request.
//!
//! The caller performs the reads; [`TunnelReader`] keeps what has arrived and
//! decides after each read whether the tunnel stands, has failed, or needs more.
use vstd::prelude::*;
use vstd::string::StringSliceAdditionalSpecFns;
use crate::bytes::{ends_with, has_prefix, has_suffix, starts_with};
use crate::error::ConnectError;

verus! {

/// Size of the buffer that holds the proxy's answer.
pub const TUNNEL_BUFFER_SIZE: usize = 8192;

/// What the answer received so far decides.
#[derive(Debug, Clone, PartialEq, Eq)]
pub enum Progress {
    /// The proxy accepted: the stream is now a tunnel to the target.
    Established,
    /// The status line accepts, but the headers have not ended yet.
    NeedMore,
    /// The tunnel cannot be had.
    Failed(ConnectError),
}

/// The status-line prefixes of an accepting answer.
pub open spec fn accepts(recvd: Seq<u8>) -> bool {
    starts_with(recvd, "HTTP/1.1 200".spec_bytes()) || starts_with(recvd, "HTTP/1.0 200".spec_bytes())
}

/// The decision on a non-empty answer `recvd` that fills `recvd.len()` bytes
/// of the buffer.
pub open spec fn classify(recvd: Seq<u8>) -> Progress {
    if accepts(recvd) {
        if ends_with(recvd, "\r\n\r\n".spec_bytes()) {
            Progress::Established
        } else if recvd.len() == TUNNEL_BUFFER_SIZE {
            Progress::Failed(ConnectError::TunnelHeadersTooLong)
        } else {
            Progress::NeedMore
        }
    } else if starts_with(recvd, "HTTP/1.1 407".spec_bytes()) {
        Progress::Failed(ConnectError::TunnelAuthRequired)
    } else {
        Progress::Failed(ConnectError::TunnelBadResponse)
    }
}

/// The error of a proxy that closed before the tunnel was established.
pub fn tunnel_eof() -> (e: ConnectError)
    ensures
        e == ConnectError::TunnelEof,
{
    ConnectError::TunnelEof
}

/// The answer received so far to a CONNECT request.
pub struct TunnelReader {
    buf: Vec<u8>,
}

impl View for TunnelReader {
    type V = Seq<u8>;

    closed spec fn view(&self) -> Seq<u8> {
        self.buf@
    }
}

impl TunnelReader {
    /// A reader can take more bytes: its buffer is not full.
    pub open spec fn wf(&self) -> bool {
        self@.len() < TUNNEL_BUFFER_SIZE
    }

    /// A reader that has received nothing yet.
    pub fn new() -> (r: TunnelReader)
        ensures
            r@ == Seq::<u8>::empty(),
            r.wf(),
    {
        TunnelReader { buf: Vec::new() }
    }

    /// How many bytes the next read may bring.
    pub fn room(&self) -> (r: usize)
        requires
            self.wf(),
        ensures
            r == TUNNEL_BUFFER_SIZE - self@.len(),
            r > 0,
    {
        TUNNEL_BUFFER_SIZE - self.buf.len()
    }

    /// Takes the bytes of one read. A read of nothing means that the proxy
    /// closed the connection. Otherwise the bytes are appended and the whole
    /// answer so far is judged again.
    pub fn on_read(&mut self, chunk: &[u8]) -> (r: Progress)
        requires
            old(self).wf(),
            chunk@.len() <= TUNNEL_BUFFER_SIZE - old(self)@.len(),
        ensures
            chunk@.len() == 0 ==> r == Progress::Failed(ConnectError::TunnelEof) && final(self)@
                == old(self)@,
            chunk@.len() > 0 ==> final(self)@ == old(self)@ + chunk@ && r == classify(final(self)@),
            r == Progress::NeedMore ==> final(self).wf(),
    {
        if chunk.len() == 0 {
            return Progress::Failed(tunnel_eof());
        }
        let mut i: usize = 0;
        let ghost before = self.buf@;
        while i < chunk.len()
            invariant
                i <= chunk@.len(),
                before.len() + chunk@.len() <= TUNNEL_BUFFER_SIZE,
                self.buf@ == before + chunk@.subrange(0, i as int),
            decreases chunk@.len() - i,
        {
            self.buf.push(chunk[i]);
            i = i + 1;
            assert(chunk@.subrange(0, i as int) =~= chunk@.subrange(0, i - 1 as int).push(
                chunk@[i - 1],
            ));
        }
        assert(chunk@.subrange(0, i as int) =~= chunk@);
        let recvd = self.buf.as_slice();
        if has_prefix(recvd, "HTTP/1.1 200".as_bytes()) || has_prefix(
            recvd,
            "HTTP/1.0 200".as_bytes(),
        ) {
            if has_suffix(recvd, "\r\n\r\n".as_bytes()) {
                Progress::Established
            } else if recvd.len() == TUNNEL_BUFFER_SIZE {
                Progress::Failed(ConnectError::TunnelHeadersTooLong)
            } else {
                Progress::NeedMore
            }
        } else if has_prefix(recvd, "HTTP/1.1 407".as_bytes()) {
            Progress::Failed(ConnectError::TunnelAuthRequired)
        } else {
            Progress::Failed(ConnectError::TunnelBadResponse)
        }
    }
}

/// Ends the handshake on `conn`, the stream the request was written to: on an
/// established tunnel the very same stream comes back, otherwise the failure.
pub fn finish<T>(progress: Progress, conn: T) -> (r: Result<T, ConnectError>)
    requires
        progress != Progress::NeedMore,
    ensures
        progress == Progress::Established ==> r == Ok::<T, ConnectError>(conn),
        forall|e: ConnectError| progress == Progress::Failed(e) ==> r == Err::<T, ConnectError>(e),
{
    match progress {
        Progress::Failed(e) => Err(e),
        _ => Ok(conn),
    }
}

/// An answer that opens with an accepting status line and ends with the empty
/// line establishes the tunnel.
pub proof fn lemma_accepting_answer_establishes(recvd: Seq<u8>)
    requires
        starts_with(recvd, "HTTP/1.1 200".spec_bytes()) || starts_with(
            recvd,
            "HTTP/1.0 200".spec_bytes(),
        ),
        ends_with(recvd, "\r\n\r\n".spec_bytes()),
    ensures
        classify(recvd) == Progress::Established,
{
}

/// An accepting status line whose headers have not ended, with room left in
/// the buffer, asks for more; if the proxy then closes, the reader reports the
/// end of stream (see [`TunnelReader::on_read`]).
pub proof fn lemma_unterminated_answer_needs_more(recvd: Seq<u8>)
    requires
        accepts(recvd),
        !ends_with(recvd, "\r\n\r\n".spec_bytes()),
        recvd.len() < TUNNEL_BUFFER_SIZE,
    ensures
        classify(recvd) == Progress::NeedMore,
{
}

/// An answer that opens with `HTTP/1.1 407` fails as "proxy authentication
/// required".
pub proof fn lemma_407_requires_auth(recvd: Seq<u8>)
    requires
        starts_with(recvd, "HTTP/1.1 407".spec_bytes()),
    ensures
        classify(recvd) == Progress::Failed(ConnectError::TunnelAuthRequired),
        crate::error::message_of(ConnectError::TunnelAuthRequired)
            == "proxy authentication required"@,
{
    reveal_strlit("HTTP/1.1 407");
    reveal_strlit("HTTP/1.1 200");
    reveal_strlit("HTTP/1.0 200");
    broadcast use vstd::string::is_ascii_spec_bytes;

    assert(vstd::string::is_ascii("HTTP/1.1 407"));
    assert(vstd::string::is_ascii("HTTP/1.1 200"));
    assert(vstd::string::is_ascii("HTTP/1.0 200"));
    assert(recvd.subrange(0, 12)[9] == "HTTP/1.1 407".spec_bytes()[9]);
}

/// An answer that opens with neither an accepting status line nor
/// `HTTP/1.1 407` fails as an unsuccessful tunnel.
pub proof fn lemma_other_answer_is_bad(recvd: Seq<u8>)
    requires
        !accepts(recvd),
        !starts_with(recvd, "HTTP/1.1 407".spec_bytes()),
    ensures
        classify(recvd) == Progress::Failed(ConnectError::TunnelBadResponse),
{
}

} // verus!
