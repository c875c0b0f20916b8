use gateway::config::{create_address_map, error, Config, ConfigError, TargetAddress};
use gateway::dialer::{plan_tls_context, select_dial_path, DialPath, HttpVersion};
use gateway::errors::{canned_body_of_error, error_content_type, status_code_of_error, GatewayError};
use gateway::rewrite::{authority_string, build_rewritten_uri, get_host_and_port_from_request, rewrite_parts};
use gateway::routing::{default_port_of_scheme, get_host_and_port, RoutingEntry, RoutingTable};
use gateway::service::{listener_step, plan_request, relay_outcome, AcceptEvent, ListenerStep, RelayEvent};
use gateway::text::{host_port_string, u16_to_decimal};
use gateway::uri::UriParts;

fn parts(
    scheme: Option<&str>,
    host: Option<&str>,
    port: Option<u16>,
    path_and_query: Option<&str>,
) -> UriParts {
    UriParts {
        scheme: scheme.map(|s| s.to_string()),
        host: host.map(|s| s.to_string()),
        port,
        path_and_query: path_and_query.map(|s| s.to_string()),
    }
}

fn config_with(
    addresses: Vec<(&str, &str)>,
    dangerous: Option<Vec<(&str, &str)>>,
) -> Config {
    Config {
        host_and_port: "0.0.0.0:443".to_string(),
        key_filepath: "key.pem".to_string(),
        cert_filepath: "cert.pem".to_string(),
        addresses: addresses
            .into_iter()
            .map(|(a, d)| (a.to_string(), d.to_string()))
            .collect(),
        dangerous_self_signed_addresses: dangerous.map(|v| {
            v.into_iter()
                .map(|(a, d)| (a.to_string(), d.to_string()))
                .collect()
        }),
    }
}

#[test]
fn u16_decimal_formats() {
    assert_eq!(u16_to_decimal(0).as_str(), "0");
    assert_eq!(u16_to_decimal(7).as_str(), "7");
    assert_eq!(u16_to_decimal(80).as_str(), "80");
    assert_eq!(u16_to_decimal(443).as_str(), "443");
    assert_eq!(u16_to_decimal(8080).as_str(), "8080");
    assert_eq!(u16_to_decimal(65535).as_str(), "65535");
}

#[test]
fn host_port_joins() {
    assert_eq!(host_port_string("example.com", 443).as_str(), "example.com:443");
    assert_eq!(host_port_string("10.0.0.1", 8443).as_str(), "10.0.0.1:8443");
}

#[test]
fn default_ports_follow_scheme() {
    assert_eq!(default_port_of_scheme(&Some("https".to_string())), 443);
    assert_eq!(default_port_of_scheme(&Some("http".to_string())), 80);
    assert_eq!(default_port_of_scheme(&Some("ftp".to_string())), 80);
    assert_eq!(default_port_of_scheme(&None), 80);
}

#[test]
fn routing_key_derivation() {
    let k = get_host_and_port(&parts(Some("https"), Some("example.com"), None, None));
    assert_eq!(k.unwrap().as_str(), "example.com:443");

    let k = get_host_and_port(&parts(None, Some("example.com"), None, None));
    assert_eq!(k.unwrap().as_str(), "example.com:80");

    let k = get_host_and_port(&parts(Some("https"), Some("example.com"), Some(8443), None));
    assert_eq!(k.unwrap().as_str(), "example.com:8443");

    assert!(get_host_and_port(&parts(Some("http"), None, None, Some("/x"))).is_none());
}

#[test]
fn routing_key_idempotent_through_reparse() {
    // Derive a key, hand it back as a Host-header value, and derive again:
    // the same key comes out.
    let key = get_host_and_port(&parts(None, Some("example.com"), Some(8080), None)).unwrap();
    assert_eq!(key.as_str(), "example.com:8080");
    let again =
        get_host_and_port_from_request(&parts(None, None, None, None), &Some(key.clone()));
    assert_eq!(again.unwrap(), key);
}

#[test]
fn request_key_prefers_request_uri() {
    // A host in the request URI (HTTP/2 `:authority`) wins over the header.
    let key = get_host_and_port_from_request(
        &parts(Some("https"), Some("a.example"), None, Some("/")),
        &Some("b.example".to_string()),
    );
    assert_eq!(key.unwrap().as_str(), "a.example:443");

    // Without a URI host the Host header decides.
    let key = get_host_and_port_from_request(
        &parts(None, None, None, Some("/")),
        &Some("b.example:444".to_string()),
    );
    assert_eq!(key.unwrap().as_str(), "b.example:444");

    // No URI host and no header: no key.
    assert!(get_host_and_port_from_request(&parts(None, None, None, Some("/")), &None).is_none());

    // An unparseable header yields no key.
    assert!(get_host_and_port_from_request(
        &parts(None, None, None, Some("/")),
        &Some("bad header value".to_string()),
    )
    .is_none());
}

#[test]
fn address_map_resolves_safe_entry() {
    let config = config_with(vec![("http://example.com", "http://127.0.0.1:8080")], None);
    let table = match create_address_map(&config) {
        Ok(t) => t,
        Err(_) => panic!("expected the address map to build"),
    };
    let entry = table.lookup(&"example.com:80".to_string()).expect("entry");
    assert!(!entry.dangerous);
    assert_eq!(entry.upstream.scheme.as_deref(), Some("http"));
    assert_eq!(entry.upstream.host.as_deref(), Some("127.0.0.1"));
    assert_eq!(entry.upstream.port, Some(8080));
    assert!(table.lookup(&"unknown.example:80".to_string()).is_none());
}

#[test]
fn address_map_dangerous_section_overrides() {
    // The same key in both sections resolves as dangerous.
    let config = config_with(
        vec![("https://secure.test", "https://10.0.0.1:8443")],
        Some(vec![("https://secure.test", "https://10.0.0.2:9443")]),
    );
    let table = create_address_map(&config).ok().expect("map builds");
    let entry = table.lookup(&"secure.test:443".to_string()).expect("entry");
    assert!(entry.dangerous);
    assert_eq!(entry.upstream.host.as_deref(), Some("10.0.0.2"));
}

#[test]
fn address_map_missing_dangerous_section_is_empty() {
    let config = config_with(vec![("http://example.com", "http://127.0.0.1:8080")], None);
    let table = create_address_map(&config).ok().expect("map builds");
    assert_eq!(table.entry_count(), 1);
}

#[test]
fn address_map_rejects_bad_arrival_uri() {
    let config = config_with(vec![("http://ex ample.com", "http://127.0.0.1:8080")], None);
    assert!(matches!(create_address_map(&config), Err(ConfigError::UriInvalid)));
}

#[test]
fn address_map_rejects_arrival_without_host() {
    let config = config_with(vec![("/just/a/path", "http://127.0.0.1:8080")], None);
    assert!(matches!(create_address_map(&config), Err(ConfigError::MissingHost)));
}

#[test]
fn address_map_rejects_bad_destination_uri() {
    let config = config_with(vec![("http://example.com", "http://bad host")], None);
    assert!(matches!(create_address_map(&config), Err(ConfigError::UriInvalid)));
}

#[test]
fn address_map_error_in_dangerous_section() {
    let config = config_with(
        vec![("http://example.com", "http://127.0.0.1:8080")],
        Some(vec![("no host here", "http://127.0.0.1:9090")]),
    );
    assert!(create_address_map(&config).is_err());
}

#[test]
fn target_address_flags() {
    assert!(!TargetAddress::Safe.is_dangerous());
    assert!(TargetAddress::Dangerous.is_dangerous());
}

#[test]
fn dial_path_table() {
    let https = Some("https".to_string());
    let http = Some("http".to_string());
    assert_eq!(select_dial_path(HttpVersion::Http1, &http), DialPath::Http1Tcp);
    assert_eq!(select_dial_path(HttpVersion::Http1, &https), DialPath::Http1Tls);
    assert_eq!(select_dial_path(HttpVersion::Http2, &http), DialPath::Http2Tcp);
    assert_eq!(select_dial_path(HttpVersion::Http2, &https), DialPath::Http2Tls);
    // A missing scheme counts as http.
    assert_eq!(select_dial_path(HttpVersion::Http1, &None), DialPath::Http1Tcp);
    assert_eq!(select_dial_path(HttpVersion::Http2, &None), DialPath::Http2Tcp);
}

#[test]
fn tls_context_follows_dangerous_flag() {
    assert!(plan_tls_context(true).accept_invalid_certs);
    assert!(!plan_tls_context(false).accept_invalid_certs);
}

#[test]
fn rewrite_keeps_client_path_and_upstream_authority() {
    let upstream = parts(Some("http"), Some("127.0.0.1"), Some(8080), Some("/ignored"));
    let rewritten = rewrite_parts(&upstream, &Some("/a?b=1".to_string()));
    assert_eq!(rewritten.scheme.as_deref(), Some("http"));
    assert_eq!(rewritten.host.as_deref(), Some("127.0.0.1"));
    assert_eq!(rewritten.port, Some(8080));
    assert_eq!(rewritten.path_and_query.as_deref(), Some("/a?b=1"));

    // An absent client path-and-query stays absent.
    let rewritten = rewrite_parts(&upstream, &None);
    assert_eq!(rewritten.path_and_query, None);

    // An upstream without a scheme is rewritten under http.
    let bare = parts(None, Some("10.1.1.1"), None, None);
    let rewritten = rewrite_parts(&bare, &Some("/".to_string()));
    assert_eq!(rewritten.scheme.as_deref(), Some("http"));
}

#[test]
fn authority_keeps_explicit_port_only() {
    let a = authority_string(&parts(Some("http"), Some("h.example"), Some(81), None));
    assert_eq!(a.unwrap().as_str(), "h.example:81");
    let a = authority_string(&parts(Some("http"), Some("h.example"), None, None));
    assert_eq!(a.unwrap().as_str(), "h.example");
    assert!(authority_string(&parts(Some("http"), None, None, Some("/"))).is_none());
}

#[test]
fn plan_request_forwards_and_rewrites() {
    let config = config_with(vec![("http://example.com", "http://127.0.0.1:8080")], None);
    let table = create_address_map(&config).ok().expect("map builds");
    let req_uri = parts(None, None, None, Some("/a?b=1"));
    let plan = plan_request(
        HttpVersion::Http1,
        &req_uri,
        &Some("example.com".to_string()),
        &table,
    )
    .ok()
    .expect("plan");
    assert_eq!(plan.dial, DialPath::Http1Tcp);
    assert_eq!(plan.connect_authority.as_str(), "127.0.0.1:8080");
    assert_eq!(plan.sni_host.as_str(), "127.0.0.1");
    assert!(!plan.tls.accept_invalid_certs);
    // Re-parsing the outgoing URI yields the upstream's scheme, host and
    // port, and the client's path-and-query.
    assert_eq!(plan.uri.scheme_str(), Some("http"));
    assert_eq!(plan.uri.host(), Some("127.0.0.1"));
    assert_eq!(plan.uri.port_u16(), Some(8080));
    assert_eq!(plan.uri.path_and_query().map(|p| p.as_str()), Some("/a?b=1"));
}

#[test]
fn plan_request_dangerous_https_upstream() {
    let config = config_with(
        vec![],
        Some(vec![("https://secure.test", "https://10.0.0.1:8443")]),
    );
    let table = create_address_map(&config).ok().expect("map builds");
    let req_uri = parts(None, None, None, Some("/"));
    let plan = plan_request(
        HttpVersion::Http1,
        &req_uri,
        &Some("secure.test:443".to_string()),
        &table,
    )
    .ok()
    .expect("plan");
    assert_eq!(plan.dial, DialPath::Http1Tls);
    assert!(plan.tls.accept_invalid_certs);
    assert_eq!(plan.sni_host.as_str(), "10.0.0.1");
    assert_eq!(plan.connect_authority.as_str(), "10.0.0.1:8443");

    // The same route in the safe section keeps validation on.
    let config = config_with(vec![("https://secure.test", "https://10.0.0.1:8443")], None);
    let table = create_address_map(&config).ok().expect("map builds");
    let plan = plan_request(
        HttpVersion::Http1,
        &parts(None, None, None, Some("/")),
        &Some("secure.test:443".to_string()),
        &table,
    )
    .ok()
    .expect("plan");
    assert_eq!(plan.dial, DialPath::Http1Tls);
    assert!(!plan.tls.accept_invalid_certs);
}

#[test]
fn plan_request_http2_uses_http2_paths() {
    let config = config_with(vec![("http://example.com", "http://127.0.0.1:8080")], None);
    let table = create_address_map(&config).ok().expect("map builds");
    // HTTP/2 carries the authority in the request URI.
    let req_uri = parts(Some("https"), Some("example.com"), Some(80), Some("/"));
    let plan = plan_request(HttpVersion::Http2, &req_uri, &None, &table).ok().expect("plan");
    assert_eq!(plan.dial, DialPath::Http2Tcp);
}

#[test]
fn plan_request_unknown_host_is_a_miss() {
    let config = config_with(vec![("http://example.com", "http://127.0.0.1:8080")], None);
    let table = create_address_map(&config).ok().expect("map builds");
    let r = plan_request(
        HttpVersion::Http1,
        &parts(None, None, None, Some("/")),
        &Some("unknown.example".to_string()),
        &table,
    );
    let e = r.err().expect("a routing miss");
    assert_eq!(e, GatewayError::RoutingMiss);
    assert_eq!(status_code_of_error(&e), 404);
    assert_eq!(canned_body_of_error(&e), "failed to find upstream URI from request");
}

#[test]
fn plan_request_without_host_is_rejected() {
    let config = config_with(vec![("http://example.com", "http://127.0.0.1:8080")], None);
    let table = create_address_map(&config).ok().expect("map builds");
    let r = plan_request(HttpVersion::Http1, &parts(None, None, None, Some("/")), &None, &table);
    let e = r.err().expect("no routing key");
    assert_eq!(e, GatewayError::RoutingKeyMissing);
    assert_eq!(status_code_of_error(&e), 400);
}

#[test]
fn plan_request_rewrite_failure_maps_to_500() {
    // A destination URI without a host cannot be reassembled at request time.
    let config = config_with(vec![("http://example.com", "/no/host")], None);
    let table = create_address_map(&config).ok().expect("map builds");
    let r = plan_request(
        HttpVersion::Http1,
        &parts(None, None, None, Some("/")),
        &Some("example.com".to_string()),
        &table,
    );
    let e = r.err().expect("rewrite failure");
    assert_eq!(e, GatewayError::RewriteFailed);
    assert_eq!(status_code_of_error(&e), 500);
    assert_eq!(canned_body_of_error(&e), "failed to update request with upstream URI");
}

#[test]
fn status_codes_and_bodies_are_canned() {
    let cases = [
        (GatewayError::RoutingKeyMissing, 400, "failed to find upstream URI from request"),
        (GatewayError::RoutingMiss, 404, "failed to find upstream URI from request"),
        (GatewayError::RewriteFailed, 500, "failed to update request with upstream URI"),
        (
            GatewayError::UpstreamDialFailed,
            503,
            "failed to establish connection to upstream server",
        ),
        (GatewayError::UpstreamTlsFailed, 503, "failed to establish TLS connection"),
        (GatewayError::UpstreamHandshakeFailed, 503, "upstream handshake failed"),
        (GatewayError::UpstreamIoFailed, 502, "failed to process request"),
    ];
    for (e, status, body) in cases {
        assert_eq!(status_code_of_error(&e), status);
        assert_eq!(canned_body_of_error(&e), body);
        // No internal diagnostic ever reaches a body: each body is a fixed
        // short ASCII string.
        assert!(body.is_ascii() && body.len() < 64);
    }
    assert_eq!(error_content_type(), "text/html; charset=utf-8");
}

#[test]
fn relay_events_map_to_errors() {
    assert_eq!(relay_outcome(&RelayEvent::DialTcpFailed), Some(GatewayError::UpstreamDialFailed));
    assert_eq!(relay_outcome(&RelayEvent::DialTlsFailed), Some(GatewayError::UpstreamTlsFailed));
    assert_eq!(
        relay_outcome(&RelayEvent::HandshakeFailed),
        Some(GatewayError::UpstreamHandshakeFailed)
    );
    assert_eq!(relay_outcome(&RelayEvent::SendFailed), Some(GatewayError::UpstreamIoFailed));
    assert_eq!(relay_outcome(&RelayEvent::ResponseReceived), None);
}

#[test]
fn listener_keeps_accepting_after_failures() {
    assert_eq!(listener_step(&AcceptEvent::AcceptFailed), ListenerStep::ContinueAccepting);
    assert_eq!(listener_step(&AcceptEvent::TlsHandshakeFailed), ListenerStep::ContinueAccepting);
    assert_eq!(
        listener_step(&AcceptEvent::ConnectionTaskFailed),
        ListenerStep::ContinueAccepting
    );
    assert_eq!(listener_step(&AcceptEvent::ConnectionReady), ListenerStep::ServeAndContinue);
}

#[test]
fn combine_pathbuf_joins_paths() {
    assert_eq!(gateway::config::combine_pathbuf("/etc/gw", "tls/key.pem").as_str(), "/etc/gw/tls/key.pem");
    assert_eq!(gateway::config::combine_pathbuf("/etc/gw/", "key.pem").as_str(), "/etc/gw/key.pem");
    assert_eq!(gateway::config::combine_pathbuf("/etc/gw", "/abs/key.pem").as_str(), "/abs/key.pem");
    assert_eq!(gateway::config::combine_pathbuf("", "key.pem").as_str(), "key.pem");
}

#[test]
fn config_error_carries_message() {
    match error("identity file missing".to_string()) {
        ConfigError::Message(m) => assert_eq!(m.as_str(), "identity file missing"),
        _ => panic!("expected a message error"),
    }
    assert_eq!(ConfigError::UriInvalid.message(), "failed to parse address as URI");
    assert_eq!(
        ConfigError::MissingHost.message(),
        "could not parse host and port from address"
    );
}

#[test]
fn routing_table_insert_and_overwrite() {
    let mut table = RoutingTable::new();
    table.insert(
        "h.example:80".to_string(),
        RoutingEntry { upstream: parts(Some("http"), Some("one"), None, None), dangerous: false },
    );
    table.insert(
        "h.example:80".to_string(),
        RoutingEntry { upstream: parts(Some("http"), Some("two"), None, None), dangerous: true },
    );
    let entry = table.lookup(&"h.example:80".to_string()).expect("entry");
    assert_eq!(entry.upstream.host.as_deref(), Some("two"));
    assert!(entry.dangerous);
}

#[test]
fn build_rewritten_uri_edges() {
    // A full set of parts builds, and absent components are rejected as the
    // URI forms demand: a scheme needs an authority and a path.
    let ok = build_rewritten_uri(&parts(Some("http"), Some("h.example"), Some(81), Some("/x")));
    assert_eq!(ok.expect("uri").to_string(), "http://h.example:81/x");

    // No host: nothing to dial, no URI.
    assert!(build_rewritten_uri(&parts(Some("http"), None, None, Some("/"))).is_none());

    // A scheme without a path-and-query does not reassemble.
    assert!(build_rewritten_uri(&parts(Some("http"), Some("h.example"), None, None)).is_none());
}

#[test]
fn plan_request_without_path_is_a_rewrite_failure() {
    // A client request with no path-and-query cannot be reassembled under
    // the upstream's scheme; it maps to the rewrite failure, not a panic.
    let config = config_with(vec![("http://example.com", "http://127.0.0.1:8080")], None);
    let table = create_address_map(&config).ok().expect("map builds");
    let r = plan_request(
        HttpVersion::Http1,
        &parts(None, None, None, None),
        &Some("example.com".to_string()),
        &table,
    );
    assert_eq!(r.err().expect("rewrite failure"), GatewayError::RewriteFailed);
}
