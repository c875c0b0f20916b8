//! Request rewriting: deriving the routing key from a live request, and
//! producing the outgoing request URI whose scheme and authority come from
//! the upstream base URI while the client's path-and-query is kept as it is.

use vstd::prelude::*;
use vstd::string::StringExecFns;

use crate::routing::{get_host_and_port, spec_routing_key};
use crate::text::{host_port_string, spec_host_port};
use crate::uri::{
    build_uri, clone_opt_string, opt_view, parse_uri, uri_build_ok, uri_parse, UriParts,
    UriPartsView,
};

verus! {

/// The routing key a request yields: from the request URI when it names a
/// host (as the HTTP/2 `:authority` pseudo-header does), otherwise from the
/// `Host` header parsed as a URI; nothing when neither names a host.
pub open spec fn spec_request_key(
    req_uri: UriPartsView,
    host_header: Option<Seq<char>>,
) -> Option<Seq<char>> {
    if spec_routing_key(req_uri) is Some {
        spec_routing_key(req_uri)
    } else {
        match host_header {
            Some(h) => match uri_parse(h) {
                Some(p) => spec_routing_key(p),
                None => None,
            },
            None => None,
        }
    }
}

/// Derives the routing key of a request from its URI and its `Host` header.
pub fn get_host_and_port_from_request(req_uri: &UriParts, host_header: &Option<String>) -> (r:
    Option<String>)
    ensures
        opt_view(r) == spec_request_key(req_uri@, opt_view(*host_header)),
{
    if let Some(key) = get_host_and_port(req_uri) {
        return Some(key);
    }
    let header = match host_header {
        Some(h) => h,
        None => {
            return None;
        },
    };
    let parts = match parse_uri(header.as_str()) {
        Some(p) => p,
        None => {
            return None;
        },
    };
    get_host_and_port(&parts)
}

/// The components of the rewritten URI: the upstream's scheme (defaulted to
/// `http` when it names none), the upstream's host and port, and the
/// client's path-and-query, kept absent when the client sent none.
pub open spec fn spec_rewritten_parts(
    upstream: UriPartsView,
    client_pq: Option<Seq<char>>,
) -> UriPartsView {
    UriPartsView {
        scheme: match upstream.scheme {
            Some(s) => Some(s),
            None => Some("http"@),
        },
        host: upstream.host,
        port: upstream.port,
        path_and_query: client_pq,
    }
}

/// Rewrites the upstream base URI's components around the client's
/// path-and-query.
pub fn rewrite_parts(upstream: &UriParts, client_pq: &Option<String>) -> (r: UriParts)
    ensures
        r@ == spec_rewritten_parts(upstream@, opt_view(*client_pq)),
{
    let scheme = match &upstream.scheme {
        Some(s) => Some(s.clone()),
        None => Some(String::from_str("http")),
    };
    UriParts {
        scheme,
        host: clone_opt_string(&upstream.host),
        port: upstream.port,
        path_and_query: clone_opt_string(client_pq),
    }
}

/// The authority component a `UriParts` writes back into a URI: the host,
/// with the port appended only when the parts carry an explicit port.
pub open spec fn spec_authority_of(p: UriPartsView) -> Option<Seq<char>> {
    match p.host {
        None => None,
        Some(h) => match p.port {
            Some(pt) => Some(spec_host_port(h, pt)),
            None => Some(h),
        },
    }
}

/// Renders the authority component of a `UriParts`.
pub fn authority_string(parts: &UriParts) -> (r: Option<String>)
    ensures
        opt_view(r) == spec_authority_of(parts@),
{
    let host = match &parts.host {
        Some(h) => h,
        None => {
            return None;
        },
    };
    match parts.port {
        Some(p) => Some(host_port_string(host.as_str(), p)),
        None => Some(host.clone()),
    }
}

/// Whether the rewritten parts reassemble into a URI: they must name a host,
/// and the `http` crate must accept the combination of components.
pub open spec fn spec_rewrite_builds(rw: UriPartsView) -> bool {
    &&& rw.host is Some
    &&& uri_build_ok(rw.scheme, spec_authority_of(rw), rw.path_and_query)
}

/// Builds the outgoing request URI from the rewritten parts: `None` exactly
/// when the parts name no host or the components do not form a URI.
pub fn build_rewritten_uri(rw: &UriParts) -> (r: Option<http::Uri>)
    ensures
        r is Some <==> spec_rewrite_builds(rw@),
{
    let authority = authority_string(rw);
    if authority.is_none() {
        return None;
    }
    build_uri(&rw.scheme, &authority, &rw.path_and_query)
}

/// The rewrite touches nothing but the URI's parts, and of those exactly as
/// stated: the outgoing scheme, host and port are the upstream's (with
/// `http` for an absent upstream scheme), and the outgoing path-and-query is
/// the client's, absent when the client's was absent.
pub proof fn lemma_rewrite_exact(upstream: UriPartsView, client_pq: Option<Seq<char>>)
    ensures
        spec_rewritten_parts(upstream, client_pq).host == upstream.host,
        spec_rewritten_parts(upstream, client_pq).port == upstream.port,
        upstream.scheme is Some ==> spec_rewritten_parts(upstream, client_pq).scheme
            == upstream.scheme,
        upstream.scheme is None ==> spec_rewritten_parts(upstream, client_pq).scheme == Some(
            "http"@,
        ),
        spec_rewritten_parts(upstream, client_pq).path_and_query == client_pq,
{
}

/// Routing-key derivation is idempotent: a key names a host `h` and an
/// explicit port `p`, so whatever URI the key string parses back to, as long
/// as that URI carries the same host and explicit port, deriving a key from
/// it returns the key `h:p` itself.
pub proof fn lemma_routing_key_idempotent(parsed: UriPartsView, h: Seq<char>, p: u16)
    requires
        parsed.host == Some(h),
        parsed.port == Some(p),
    ensures
        spec_routing_key(parsed) == Some(spec_host_port(h, p)),
{
}

} // verus!
