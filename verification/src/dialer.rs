//! Upstream dial-path selection: the four-way fan-out over the request's
//! HTTP version and the upstream scheme, and the per-dial TLS client context
//! decision. Opening sockets and running handshakes stay outside the
//! library; they follow the values chosen here.

use vstd::prelude::*;
use vstd::string::StringExecFns;

use crate::uri::opt_view;

verus! {

/// The HTTP protocol family of a request.
#[derive(Clone, Copy, Debug, PartialEq, Eq, Structural)]
pub enum HttpVersion {
    Http1,
    Http2,
}

/// One of the four upstream dial paths.
#[derive(Clone, Copy, Debug, PartialEq, Eq, Structural)]
pub enum DialPath {
    /// HTTP/1.x over plain TCP.
    Http1Tcp,
    /// HTTP/1.x over a TLS client connection.
    Http1Tls,
    /// HTTP/2 over plain TCP.
    Http2Tcp,
    /// HTTP/2 over a TLS client connection.
    Http2Tls,
}

/// The dial path a `(version, scheme)` pair selects: TLS exactly under the
/// `https` scheme, the HTTP/2 client exactly for an HTTP/2 request; a
/// missing scheme counts as `http`.
pub open spec fn spec_dial_path(version: HttpVersion, scheme: Option<Seq<char>>) -> DialPath {
    if version == HttpVersion::Http2 {
        if scheme == Some("https"@) {
            DialPath::Http2Tls
        } else {
            DialPath::Http2Tcp
        }
    } else {
        if scheme == Some("https"@) {
            DialPath::Http1Tls
        } else {
            DialPath::Http1Tcp
        }
    }
}

/// Whether a dial path wraps the TCP connection in a TLS client handshake.
pub open spec fn spec_dial_uses_tls(d: DialPath) -> bool {
    d == DialPath::Http1Tls || d == DialPath::Http2Tls
}

/// Selects the dial path for a request's version and the upstream scheme.
pub fn select_dial_path(version: HttpVersion, scheme: &Option<String>) -> (r: DialPath)
    ensures
        r == spec_dial_path(version, opt_view(*scheme)),
{
    let https = String::from_str("https");
    let is_tls = match scheme {
        Some(s) => *s == https,
        None => false,
    };
    match (version, is_tls) {
        (HttpVersion::Http2, true) => DialPath::Http2Tls,
        (HttpVersion::Http2, false) => DialPath::Http2Tcp,
        (HttpVersion::Http1, true) => DialPath::Http1Tls,
        (HttpVersion::Http1, false) => DialPath::Http1Tcp,
    }
}

/// Whether a dial path needs a TLS client connection.
pub fn dial_uses_tls(d: &DialPath) -> (r: bool)
    ensures
        r == spec_dial_uses_tls(*d),
{
    match *d {
        DialPath::Http1Tls => true,
        DialPath::Http2Tls => true,
        DialPath::Http1Tcp => false,
        DialPath::Http2Tcp => false,
    }
}

/// How the TLS client context of one dial is to be configured. The decision
/// is per dial, never process-global: the table may mix safe and dangerous
/// entries.
#[derive(Clone, Copy, Debug, PartialEq, Eq, Structural)]
pub struct TlsContextPlan {
    /// Certificate validation is switched off for this one dial.
    pub accept_invalid_certs: bool,
}

/// Plans the TLS client context for an entry: validation is disabled exactly
/// when the entry is marked dangerous, and stays at its default otherwise.
pub fn plan_tls_context(dangerous: bool) -> (r: TlsContextPlan)
    ensures
        r.accept_invalid_certs == dangerous,
{
    TlsContextPlan { accept_invalid_certs: dangerous }
}

} // verus!
