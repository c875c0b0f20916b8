//! A TLS-terminating HTTP reverse proxy ("gateway"), verified at its core.
//!
//! The library holds the per-request pipeline of the gateway: routing-key
//! derivation, routing-table construction and lookup, request-URI rewriting,
//! upstream dial-path selection, and the mapping of every failure to a fixed
//! client-visible status and body. Network I/O, TLS handshakes and the HTTP
//! engine live outside the library; they hand it plain values and take plain
//! values back.

pub mod config;
pub mod dialer;
pub mod errors;
pub mod rewrite;
pub mod routing;
pub mod service;
pub mod text;
pub mod uri;
