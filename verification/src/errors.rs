//! The gateway's failure taxonomy: every error a request can run into, the
//! status code it maps to, and the canned body the client sees. An error
//! value carries no text, so nothing internal — no I/O errno string, no TLS
//! library message, no upstream diagnostic — can reach a response body.

use vstd::prelude::*;

verus! {

/// Why one request failed, from the gateway's point of view.
#[derive(Clone, Copy, Debug, PartialEq, Eq, Structural)]
pub enum GatewayError {
    /// The request yields no routing key: no host in its URI and none in a
    /// parseable `Host` header.
    RoutingKeyMissing,
    /// The routing key is not in the table.
    RoutingMiss,
    /// The rewritten URI's parts do not reassemble into a URI.
    RewriteFailed,
    /// The upstream TCP connection could not be established.
    UpstreamDialFailed,
    /// The upstream TLS context or handshake failed.
    UpstreamTlsFailed,
    /// The upstream HTTP client handshake failed.
    UpstreamHandshakeFailed,
    /// Sending the request or receiving the response failed.
    UpstreamIoFailed,
}

/// The status code each error maps to.
pub open spec fn spec_status_of(e: GatewayError) -> u16 {
    match e {
        GatewayError::RoutingKeyMissing => 400,
        GatewayError::RoutingMiss => 404,
        GatewayError::RewriteFailed => 500,
        GatewayError::UpstreamDialFailed => 503,
        GatewayError::UpstreamTlsFailed => 503,
        GatewayError::UpstreamHandshakeFailed => 503,
        GatewayError::UpstreamIoFailed => 502,
    }
}

/// The canned body each error maps to.
pub open spec fn spec_canned_body(e: GatewayError) -> Seq<char> {
    match e {
        GatewayError::RoutingKeyMissing => "failed to find upstream URI from request"@,
        GatewayError::RoutingMiss => "failed to find upstream URI from request"@,
        GatewayError::RewriteFailed => "failed to update request with upstream URI"@,
        GatewayError::UpstreamDialFailed => "failed to establish connection to upstream server"@,
        GatewayError::UpstreamTlsFailed => "failed to establish TLS connection"@,
        GatewayError::UpstreamHandshakeFailed => "upstream handshake failed"@,
        GatewayError::UpstreamIoFailed => "failed to process request"@,
    }
}

/// The status code of an error response.
pub fn status_code_of_error(e: &GatewayError) -> (r: u16)
    ensures
        r == spec_status_of(*e),
{
    match *e {
        GatewayError::RoutingKeyMissing => 400,
        GatewayError::RoutingMiss => 404,
        GatewayError::RewriteFailed => 500,
        GatewayError::UpstreamDialFailed => 503,
        GatewayError::UpstreamTlsFailed => 503,
        GatewayError::UpstreamHandshakeFailed => 503,
        GatewayError::UpstreamIoFailed => 502,
    }
}

/// The canned body of an error response.
pub fn canned_body_of_error(e: &GatewayError) -> (r: &'static str)
    ensures
        r@ == spec_canned_body(*e),
{
    match *e {
        GatewayError::RoutingKeyMissing => "failed to find upstream URI from request",
        GatewayError::RoutingMiss => "failed to find upstream URI from request",
        GatewayError::RewriteFailed => "failed to update request with upstream URI",
        GatewayError::UpstreamDialFailed => "failed to establish connection to upstream server",
        GatewayError::UpstreamTlsFailed => "failed to establish TLS connection",
        GatewayError::UpstreamHandshakeFailed => "upstream handshake failed",
        GatewayError::UpstreamIoFailed => "failed to process request",
    }
}

/// The content type of every error response.
pub fn error_content_type() -> (r: &'static str)
    ensures
        r@ == "text/html; charset=utf-8"@,
{
    "text/html; charset=utf-8"
}

/// The canned bodies form a closed, fixed set: whatever the error, its body
/// is one of the six short strings below, chosen by the error kind alone.
/// Since an error value holds no text, no internal diagnostic can appear in
/// a client-visible body.
pub proof fn lemma_canned_bodies_closed(e: GatewayError)
    ensures
        spec_canned_body(e) == "failed to find upstream URI from request"@
            || spec_canned_body(e) == "failed to update request with upstream URI"@
            || spec_canned_body(e) == "failed to establish connection to upstream server"@
            || spec_canned_body(e) == "failed to establish TLS connection"@
            || spec_canned_body(e) == "upstream handshake failed"@
            || spec_canned_body(e) == "failed to process request"@,
{
}

} // verus!
