//! The per-request connection service: one decision pipeline from a decoded
//! request to either a forwarding plan — rewritten URI, dial path, connect
//! address, SNI host, TLS context — or the error that names the canned
//! response to send. The surrounding engine performs the I/O the plan calls
//! for and reports what happened; the listener's accept-loop decisions stand
//! here as well.

use vstd::prelude::*;

use crate::dialer::{plan_tls_context, select_dial_path, spec_dial_path, DialPath, HttpVersion,
    TlsContextPlan};
use crate::errors::GatewayError;
use crate::rewrite::{build_rewritten_uri, get_host_and_port_from_request, rewrite_parts,
    spec_request_key, spec_rewrite_builds, spec_rewritten_parts};
use crate::routing::{default_port_of_scheme, spec_effective_port, RoutingEntryView, RoutingTable};
use crate::text::{host_port_string, spec_host_port};
use crate::uri::{opt_view, UriParts, UriPartsView};

verus! {

/// Everything the outside relay needs to forward one request: the outgoing
/// request URI, the dial path, the address to connect to, the host name for
/// SNI, and the TLS client context decision.
pub struct ForwardPlan {
    pub uri: http::Uri,
    pub dial: DialPath,
    pub sni_host: String,
    pub connect_authority: String,
    pub tls: TlsContextPlan,
}

/// The error the planning stage of a request produces, if any: no routing
/// key, a routing miss, or rewritten parts that do not reassemble.
pub open spec fn spec_plan_error(
    req_uri: UriPartsView,
    host_header: Option<Seq<char>>,
    table: Map<Seq<char>, RoutingEntryView>,
) -> Option<GatewayError> {
    match spec_request_key(req_uri, host_header) {
        None => Some(GatewayError::RoutingKeyMissing),
        Some(k) => if !table.contains_key(k) {
            Some(GatewayError::RoutingMiss)
        } else if !spec_rewrite_builds(
            spec_rewritten_parts(table[k].upstream, req_uri.path_and_query),
        ) {
            Some(GatewayError::RewriteFailed)
        } else {
            None
        },
    }
}

/// Plans one request: derives its routing key, resolves the entry, rewrites
/// the URI around the client's path-and-query, and selects the dial path and
/// TLS context. Fails with exactly the error of the first failing step.
pub fn plan_request(
    version: HttpVersion,
    req_uri: &UriParts,
    host_header: &Option<String>,
    table: &RoutingTable,
) -> (r: Result<ForwardPlan, GatewayError>)
    ensures
        match r {
            Ok(p) => ({
                let key = spec_request_key(req_uri@, opt_view(*host_header));
                let entry = table@[key->Some_0];
                let rw = spec_rewritten_parts(entry.upstream, req_uri@.path_and_query);
                &&& spec_plan_error(req_uri@, opt_view(*host_header), table@) is None
                &&& p.dial == spec_dial_path(version, rw.scheme)
                &&& p.tls.accept_invalid_certs == entry.dangerous
                &&& rw.host matches Some(h) && p.sni_host@ == h && p.connect_authority@
                    == spec_host_port(h, spec_effective_port(rw))
            }),
            Err(e) => spec_plan_error(req_uri@, opt_view(*host_header), table@) == Some(e),
        },
{
    let key = match get_host_and_port_from_request(req_uri, host_header) {
        Some(k) => k,
        None => {
            return Err(GatewayError::RoutingKeyMissing);
        },
    };
    let entry = match table.lookup(&key) {
        Some(e) => e,
        None => {
            return Err(GatewayError::RoutingMiss);
        },
    };
    let rw = rewrite_parts(&entry.upstream, &req_uri.path_and_query);
    let uri = match build_rewritten_uri(&rw) {
        Some(u) => u,
        None => {
            return Err(GatewayError::RewriteFailed);
        },
    };
    let sni_host = match &rw.host {
        Some(h) => h.clone(),
        None => {
            return Err(GatewayError::RewriteFailed);
        },
    };
    let port: u16 = match rw.port {
        Some(p) => p,
        None => default_port_of_scheme(&rw.scheme),
    };
    let connect_authority = host_port_string(sni_host.as_str(), port);
    let dial = select_dial_path(version, &rw.scheme);
    let tls = plan_tls_context(entry.dangerous);
    Ok(ForwardPlan { uri, dial, sni_host, connect_authority, tls })
}

/// For every request whose routing key resolves to an entry `(U, d)` and
/// whose client path-and-query is `P`, the outgoing URI's parts are exactly
/// `U`'s — scheme (`http` when `U` names none), host and port — with the
/// path-and-query replaced by `P`, kept absent when `P` is absent; nothing
/// else changes.
pub proof fn lemma_forward_rewrites_exactly(
    req_uri: UriPartsView,
    host_header: Option<Seq<char>>,
    table: Map<Seq<char>, RoutingEntryView>,
)
    requires
        spec_request_key(req_uri, host_header) matches Some(k) && table.contains_key(k),
    ensures
        ({
            let entry = table[spec_request_key(req_uri, host_header)->Some_0];
            let rw = spec_rewritten_parts(entry.upstream, req_uri.path_and_query);
            &&& rw.host == entry.upstream.host
            &&& rw.port == entry.upstream.port
            &&& rw.path_and_query == req_uri.path_and_query
            &&& (entry.upstream.scheme is Some ==> rw.scheme == entry.upstream.scheme)
            &&& (entry.upstream.scheme is None ==> rw.scheme == Some("http"@))
        }),
{
}

/// What the outside relay reports about one forwarding attempt, step by
/// step, once a plan is in hand.
#[derive(Clone, Copy, Debug, PartialEq, Eq, Structural)]
pub enum RelayEvent {
    /// The TCP connection to the upstream could not be opened.
    DialTcpFailed,
    /// Building the TLS client context or running its handshake failed.
    DialTlsFailed,
    /// The HTTP client handshake on the established stream failed.
    HandshakeFailed,
    /// Sending the request or receiving the response head failed.
    SendFailed,
    /// The upstream produced a response; it streams back verbatim.
    ResponseReceived,
}

/// The error each relay event maps to; a received response maps to none.
pub open spec fn spec_relay_error(e: RelayEvent) -> Option<GatewayError> {
    match e {
        RelayEvent::DialTcpFailed => Some(GatewayError::UpstreamDialFailed),
        RelayEvent::DialTlsFailed => Some(GatewayError::UpstreamTlsFailed),
        RelayEvent::HandshakeFailed => Some(GatewayError::UpstreamHandshakeFailed),
        RelayEvent::SendFailed => Some(GatewayError::UpstreamIoFailed),
        RelayEvent::ResponseReceived => None,
    }
}

/// Classifies a relay event: the error to answer with, or nothing when the
/// upstream's own response is to be returned verbatim.
pub fn relay_outcome(e: &RelayEvent) -> (r: Option<GatewayError>)
    ensures
        r == spec_relay_error(*e),
{
    match *e {
        RelayEvent::DialTcpFailed => Some(GatewayError::UpstreamDialFailed),
        RelayEvent::DialTlsFailed => Some(GatewayError::UpstreamTlsFailed),
        RelayEvent::HandshakeFailed => Some(GatewayError::UpstreamHandshakeFailed),
        RelayEvent::SendFailed => Some(GatewayError::UpstreamIoFailed),
        RelayEvent::ResponseReceived => None,
    }
}

/// What one turn of the accept loop observed.
#[derive(Clone, Copy, Debug, PartialEq, Eq, Structural)]
pub enum AcceptEvent {
    /// Accepting a TCP connection failed; no socket was obtained.
    AcceptFailed,
    /// The server-side TLS handshake failed; the socket is dropped.
    TlsHandshakeFailed,
    /// A TLS connection is established and ready to serve.
    ConnectionReady,
    /// A spawned per-connection task ended with an error.
    ConnectionTaskFailed,
}

/// The listener's next move; stopping is not among its moves.
#[derive(Clone, Copy, Debug, PartialEq, Eq, Structural)]
pub enum ListenerStep {
    /// Drop whatever the event left behind and accept the next connection.
    ContinueAccepting,
    /// Serve the established connection on a spawned task, and keep
    /// accepting meanwhile.
    ServeAndContinue,
}

/// The step each accept-loop event selects.
pub open spec fn spec_listener_step(e: AcceptEvent) -> ListenerStep {
    match e {
        AcceptEvent::ConnectionReady => ListenerStep::ServeAndContinue,
        _ => ListenerStep::ContinueAccepting,
    }
}

/// Decides the listener's next move. Whatever the event — an accept error,
/// a TLS handshake error, a failed connection task — the listener keeps
/// accepting: serving happens only on an established connection, and no
/// event maps to stopping.
pub fn listener_step(e: &AcceptEvent) -> (r: ListenerStep)
    ensures
        r == spec_listener_step(*e),
        *e is ConnectionReady <==> r is ServeAndContinue,
{
    match *e {
        AcceptEvent::ConnectionReady => ListenerStep::ServeAndContinue,
        AcceptEvent::AcceptFailed => ListenerStep::ContinueAccepting,
        AcceptEvent::TlsHandshakeFailed => ListenerStep::ContinueAccepting,
        AcceptEvent::ConnectionTaskFailed => ListenerStep::ContinueAccepting,
    }
}

} // verus!
