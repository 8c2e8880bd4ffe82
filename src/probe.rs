use vstd::prelude::*;
use crate::text::{decimal, port_text};

verus! {

/// Read and write timeout of a single probe, in milliseconds.
pub const PROBE_TIMEOUT_MS: u64 = 300;

/// Size of the buffer a probe reads the reply into.
pub const PROBE_BUFFER_LEN: usize = 512;

/// The loopback address, as text.
pub open spec fn loopback_text() -> Seq<char> {
    seq!['1', '2', '7', '.', '0', '.', '0', '.', '1']
}

/// `127.0.0.1:<port>`.
pub open spec fn probe_target(port: nat) -> Seq<char> {
    loopback_text() + seq![':'] + decimal(port)
}

/// A request for the liveness endpoint that asks the server to close the connection.
pub open spec fn health_request_text() -> Seq<char> {
    "GET /health HTTP/1.1\r\nHost: "@ + loopback_text() + "\r\nConnection: close\r\n\r\n"@
}

/// How a single probe went.
#[derive(Clone, Copy, Debug, PartialEq, Eq, Structural)]
pub enum ProbeOutcome {
    /// No connection could be made.
    Unreachable,
    /// The request could not be written.
    SendFailed,
    /// Reading the reply failed or timed out.
    ReadFailed,
    /// This many bytes of reply were read.
    Received(usize),
}

/// The loopback address, as text.
pub fn loopback() -> (r: String)
    ensures
        r@ == loopback_text(),
{
    proof {
        reveal_strlit("127.0.0.1");
    }
    String::from_str("127.0.0.1")
}

/// The address a probe connects to.
pub fn probe_address(port: u16) -> (r: String)
    ensures
        r@ == probe_target(port as nat),
{
    proof {
        reveal_strlit(":");
    }
    let mut r = loopback();
    r.append(":");
    let digits = port_text(port);
    r.append(digits.as_str());
    proof {
        assert(r@ =~= probe_target(port as nat));
    }
    r
}

/// The bytes of the request a probe sends.
pub fn health_request() -> (r: String)
    ensures
        r@ == health_request_text(),
{
    let mut r = String::from_str("GET /health HTTP/1.1\r\nHost: ");
    let host = loopback();
    r.append(host.as_str());
    r.append("\r\nConnection: close\r\n\r\n");
    proof {
        assert(r@ =~= health_request_text());
    }
    r
}

/// A probe counts as healthy exactly when a non-empty reply was read; every
/// failure only means "not ready yet".
pub fn is_healthy(outcome: ProbeOutcome) -> (r: bool)
    ensures
        r == (outcome matches ProbeOutcome::Received(n) && n > 0),
{
    match outcome {
        ProbeOutcome::Received(n) => n > 0,
        _ => false,
    }
}

} // verus!
