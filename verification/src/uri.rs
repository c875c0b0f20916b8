//! The gateway's model of a URI: the four components its logic reads, each as
//! a plain value, together with the trusted boundary to the `http` crate's
//! `Uri` type (parsing a string into components, and building a `Uri` back
//! from components).

use vstd::prelude::*;

verus! {

/// The components of a URI that the gateway reads: scheme, host, port, and
/// the combined path-and-query. A component the URI does not carry is `None`.
pub struct UriParts {
    pub scheme: Option<String>,
    pub host: Option<String>,
    pub port: Option<u16>,
    pub path_and_query: Option<String>,
}

/// The mathematical value of a `UriParts`: each textual component as a
/// sequence of characters.
pub ghost struct UriPartsView {
    pub scheme: Option<Seq<char>>,
    pub host: Option<Seq<char>>,
    pub port: Option<u16>,
    pub path_and_query: Option<Seq<char>>,
}

/// The view of an optional string: the character sequence it holds, if any.
pub open spec fn opt_view(s: Option<String>) -> Option<Seq<char>> {
    match s {
        Some(x) => Some(x@),
        None => None,
    }
}

impl View for UriParts {
    type V = UriPartsView;

    open spec fn view(&self) -> UriPartsView {
        UriPartsView {
            scheme: opt_view(self.scheme),
            host: opt_view(self.host),
            port: self.port,
            path_and_query: opt_view(self.path_and_query),
        }
    }
}

impl Clone for UriParts {
    fn clone(&self) -> (r: Self)
        ensures
            r@ == self@,
    {
        UriParts {
            scheme: clone_opt_string(&self.scheme),
            host: clone_opt_string(&self.host),
            port: self.port,
            path_and_query: clone_opt_string(&self.path_and_query),
        }
    }
}

/// Clones an optional string, keeping its view.
pub fn clone_opt_string(s: &Option<String>) -> (r: Option<String>)
    ensures
        opt_view(r) == opt_view(*s),
{
    match s {
        Some(x) => Some(x.clone()),
        None => None,
    }
}

/// What parsing a string as a URI yields: `None` when the string is not a
/// syntactically valid URI, otherwise the components of the parse.
pub uninterp spec fn uri_parse(s: Seq<char>) -> Option<UriPartsView>;

/// Relies on `<http::Uri as TryFrom<&str>>::try_from` and the accessors
/// `Uri::scheme_str`, `Uri::host`, `Uri::port_u16`, `Uri::path_and_query`:
/// whether the string parses, and the components of the parse, depend on the
/// string alone.
#[verifier::external_body]
pub(crate) fn parse_uri(s: &str) -> (r: Option<UriParts>)
    ensures
        r is Some <==> uri_parse(s@) is Some,
        r matches Some(p) ==> uri_parse(s@) == Some(p@),
{
    let u = match http::Uri::try_from(s) {
        Ok(u) => u,
        Err(_) => return None,
    };
    Some(UriParts {
        scheme: u.scheme_str().map(|x| x.to_string()),
        host: u.host().map(|x| x.to_string()),
        port: u.port_u16(),
        path_and_query: u.path_and_query().map(|x| x.as_str().to_string()),
    })
}

#[verifier::external_type_specification]
#[verifier::external_body]
pub struct ExUri(http::Uri);

/// Whether building an `http::Uri` from the given scheme, authority and
/// path-and-query strings succeeds.
pub uninterp spec fn uri_build_ok(
    scheme: Option<Seq<char>>,
    authority: Option<Seq<char>>,
    path_and_query: Option<Seq<char>>,
) -> bool;

/// Relies on `http::Uri::builder` and `Uri::from_parts`: whether the build
/// succeeds depends on the three component strings alone (a component that
/// fails to parse, or a combination of parts that no URI form admits, is
/// rejected; an absent path-and-query is left absent).
#[verifier::external_body]
pub(crate) fn build_uri(
    scheme: &Option<String>,
    authority: &Option<String>,
    path_and_query: &Option<String>,
) -> (r: Option<http::Uri>)
    ensures
        r is Some <==> uri_build_ok(opt_view(*scheme), opt_view(*authority), opt_view(*path_and_query)),
{
    let mut b = http::Uri::builder();
    if let Some(s) = scheme {
        b = b.scheme(s.as_str());
    }
    if let Some(a) = authority {
        b = b.authority(a.as_str());
    }
    if let Some(p) = path_and_query {
        b = b.path_and_query(p.as_str());
    }
    b.build().ok()
}

} // verus!
