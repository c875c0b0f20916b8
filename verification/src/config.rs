//! The configuration surface of the gateway: the loaded configuration as
//! plain values, and the construction of the routing table from its two
//! address sections. Reading the file, JSON decoding and filesystem checks
//! stay outside the library; they hand a `Config` in.

use vstd::prelude::*;
use vstd::string::{StrSliceExecFns, StringExecFns};

use crate::routing::{
    get_host_and_port, spec_routing_key, RoutingEntry, RoutingEntryView, RoutingTable,
};
use crate::uri::{parse_uri, uri_parse, UriParts};

verus! {

/// Which section of the configuration an address pair came from: the safe
/// section, or the `dangerous_self_signed_addresses` section whose upstream
/// TLS certificates go unvalidated.
pub enum TargetAddress {
    Safe,
    Dangerous,
}

impl TargetAddress {
    /// Whether entries of this section skip upstream certificate validation.
    pub open spec fn spec_is_dangerous(&self) -> bool {
        match *self {
            TargetAddress::Safe => false,
            TargetAddress::Dangerous => true,
        }
    }

    /// Whether entries of this section skip upstream certificate validation.
    pub fn is_dangerous(&self) -> (r: bool)
        ensures
            r == self.spec_is_dangerous(),
    {
        match *self {
            TargetAddress::Safe => false,
            TargetAddress::Dangerous => true,
        }
    }
}

/// The gateway's configuration, as plain values: the bind address, the two
/// identity file paths, and the two address sections, each an ordered list of
/// `(arrival URI, destination URI)` string pairs.
pub struct Config {
    pub host_and_port: String,
    pub key_filepath: String,
    pub cert_filepath: String,
    pub addresses: Vec<(String, String)>,
    pub dangerous_self_signed_addresses: Option<Vec<(String, String)>>,
}

/// Why resolving a configuration failed.
pub enum ConfigError {
    /// An address string failed to parse as a URI.
    UriInvalid,
    /// An arrival URI yields no routing key because it names no host.
    MissingHost,
    /// A failure outside the address sections, carried as its diagnostic.
    Message(String),
}

impl ConfigError {
    /// A one-line diagnostic for the operator.
    pub fn message(&self) -> (r: &'static str)
        requires
            !(*self is Message),
        ensures
            *self is UriInvalid ==> r@ == "failed to parse address as URI"@,
            *self is MissingHost ==> r@ == "could not parse host and port from address"@,
    {
        match *self {
            ConfigError::UriInvalid => "failed to parse address as URI",
            ConfigError::MissingHost => "could not parse host and port from address",
            ConfigError::Message(_) => "",
        }
    }
}

/// Wraps a diagnostic text as a configuration error.
pub fn error(err: String) -> (r: ConfigError)
    ensures
        r matches ConfigError::Message(m) && m@ == err@,
{
    ConfigError::Message(err)
}

/// The views of a list of string pairs.
pub open spec fn pairs_view(s: Seq<(String, String)>) -> Seq<(Seq<char>, Seq<char>)> {
    Seq::new(s.len(), |i: int| (s[i].0@, s[i].1@))
}

/// The error one `(arrival, destination)` pair produces, if any: the arrival
/// must parse as a URI and yield a routing key, and the destination must
/// parse as a URI.
pub open spec fn spec_pair_error(arrival: Seq<char>, dest: Seq<char>) -> Option<ConfigError> {
    match uri_parse(arrival) {
        None => Some(ConfigError::UriInvalid),
        Some(a) => match spec_routing_key(a) {
            None => Some(ConfigError::MissingHost),
            Some(_) => match uri_parse(dest) {
                None => Some(ConfigError::UriInvalid),
                Some(_) => None,
            },
        },
    }
}

/// The first error a list of pairs produces, in order, if any.
pub open spec fn spec_pairs_error(pairs: Seq<(Seq<char>, Seq<char>)>) -> Option<ConfigError>
    decreases pairs.len(),
{
    if pairs.len() == 0 {
        None
    } else if spec_pair_error(pairs.first().0, pairs.first().1) is Some {
        spec_pair_error(pairs.first().0, pairs.first().1)
    } else {
        spec_pairs_error(pairs.drop_first())
    }
}

/// The map after inserting a list of pairs in order, stopping at the first
/// erroneous pair: each sound pair maps its arrival's routing key to its
/// destination's components and the section's dangerous flag.
pub open spec fn spec_insert_pairs(
    m: Map<Seq<char>, RoutingEntryView>,
    pairs: Seq<(Seq<char>, Seq<char>)>,
    dangerous: bool,
) -> Map<Seq<char>, RoutingEntryView>
    decreases pairs.len(),
{
    if pairs.len() == 0 {
        m
    } else if spec_pair_error(pairs.first().0, pairs.first().1) is Some {
        m
    } else {
        let m2 = match (uri_parse(pairs.first().0), uri_parse(pairs.first().1)) {
            (Some(a), Some(d)) => match spec_routing_key(a) {
                Some(k) => m.insert(k, RoutingEntryView { upstream: d, dangerous }),
                None => m,
            },
            _ => m,
        };
        spec_insert_pairs(m2, pairs.drop_first(), dangerous)
    }
}

/// The pairs of the safe section.
pub open spec fn spec_safe_pairs(c: &Config) -> Seq<(Seq<char>, Seq<char>)> {
    pairs_view(c.addresses@)
}

/// The pairs of the dangerous section; an absent section is empty.
pub open spec fn spec_dangerous_pairs(c: &Config) -> Seq<(Seq<char>, Seq<char>)> {
    match c.dangerous_self_signed_addresses {
        Some(v) => pairs_view(v@),
        None => Seq::empty(),
    }
}

/// The routing table a configuration denotes: the safe section inserted
/// first, the dangerous section after it, so a key listed in both sections
/// resolves as dangerous.
pub open spec fn spec_address_map(c: &Config) -> Map<Seq<char>, RoutingEntryView> {
    spec_insert_pairs(
        spec_insert_pairs(Map::empty(), spec_safe_pairs(c), false),
        spec_dangerous_pairs(c),
        true,
    )
}

/// Parses one section's pairs into the table in order. Construction stops at
/// the first pair whose arrival or destination fails to parse, or whose
/// arrival names no host.
pub fn add_addresses_to_map(
    table: &mut RoutingTable,
    addresses: &Vec<(String, String)>,
    section: TargetAddress,
) -> (r: Result<(), ConfigError>)
    ensures
        final(table)@ == spec_insert_pairs(
            old(table)@,
            pairs_view(addresses@),
            section.spec_is_dangerous(),
        ),
        match r {
            Ok(_) => spec_pairs_error(pairs_view(addresses@)) is None,
            Err(e) => spec_pairs_error(pairs_view(addresses@)) == Some(e),
        },
{
    let ghost pv = pairs_view(addresses@);
    let ghost dangerous = section.spec_is_dangerous();
    let is_dangerous = section.is_dangerous();
    let n = addresses.len();
    let mut i: usize = 0;
    proof {
        assert(pv.skip(0) =~= pv);
    }
    while i < n
        invariant
            i <= n,
            n == addresses.len(),
            pv == pairs_view(addresses@),
            dangerous == is_dangerous,
            dangerous == section.spec_is_dangerous(),
            spec_insert_pairs(old(table)@, pv, dangerous) == spec_insert_pairs(
                table@,
                pv.skip(i as int),
                dangerous,
            ),
            spec_pairs_error(pv) == spec_pairs_error(pv.skip(i as int)),
        decreases n - i,
    {
        proof {
            assert(pv.skip(i as int).first() == pv[i as int]);
            assert(pv.skip(i as int).drop_first() =~= pv.skip(i as int + 1));
        }
        let arrival_parts = match parse_uri(addresses[i].0.as_str()) {
            Some(p) => p,
            None => {
                proof {
                    assert(spec_pair_error(pv[i as int].0, pv[i as int].1) == Some(
                        ConfigError::UriInvalid,
                    ));
                    assert(spec_insert_pairs(table@, pv.skip(i as int), dangerous) == table@);
                }
                return Err(ConfigError::UriInvalid);
            },
        };
        let key = match get_host_and_port(&arrival_parts) {
            Some(k) => k,
            None => {
                proof {
                    assert(spec_pair_error(pv[i as int].0, pv[i as int].1) == Some(
                        ConfigError::MissingHost,
                    ));
                    assert(spec_insert_pairs(table@, pv.skip(i as int), dangerous) == table@);
                }
                return Err(ConfigError::MissingHost);
            },
        };
        let dest_parts = match parse_uri(addresses[i].1.as_str()) {
            Some(p) => p,
            None => {
                proof {
                    assert(spec_pair_error(pv[i as int].0, pv[i as int].1) == Some(
                        ConfigError::UriInvalid,
                    ));
                    assert(spec_insert_pairs(table@, pv.skip(i as int), dangerous) == table@);
                }
                return Err(ConfigError::UriInvalid);
            },
        };
        table.insert(key, RoutingEntry { upstream: dest_parts, dangerous: is_dangerous });
        i = i + 1;
    }
    proof {
        assert(pv.skip(n as int) =~= Seq::<(Seq<char>, Seq<char>)>::empty());
    }
    Ok(())
}

/// Builds the routing table from a configuration: safe addresses first, then
/// dangerous ones, a later insertion overwriting an earlier one. Fails with
/// the first error of the first failing section, and only when one of the
/// sections holds an erroneous pair.
pub fn create_address_map(config: &Config) -> (r: Result<RoutingTable, ConfigError>)
    ensures
        match r {
            Ok(t) => {
                &&& spec_pairs_error(spec_safe_pairs(config)) is None
                &&& spec_pairs_error(spec_dangerous_pairs(config)) is None
                &&& t@ == spec_address_map(config)
            },
            Err(e) => match spec_pairs_error(spec_safe_pairs(config)) {
                Some(e1) => e == e1,
                None => spec_pairs_error(spec_dangerous_pairs(config)) == Some(e),
            },
        },
{
    let mut table = RoutingTable::new();
    match add_addresses_to_map(&mut table, &config.addresses, TargetAddress::Safe) {
        Ok(_) => {},
        Err(e) => {
            return Err(e);
        },
    }
    match &config.dangerous_self_signed_addresses {
        Some(self_signed) => {
            match add_addresses_to_map(&mut table, self_signed, TargetAddress::Dangerous) {
                Ok(_) => {},
                Err(e) => {
                    return Err(e);
                },
            }
        },
        None => {
            proof {
                assert(spec_dangerous_pairs(config) =~= Seq::<(Seq<char>, Seq<char>)>::empty());
            }
        },
    }
    Ok(table)
}

/// A key already resolving to a dangerous entry still does so after further
/// dangerous-section insertions: each step either leaves the key alone or
/// overwrites it with another dangerous entry.
proof fn lemma_insert_pairs_keeps_dangerous(
    m: Map<Seq<char>, RoutingEntryView>,
    pairs: Seq<(Seq<char>, Seq<char>)>,
    k: Seq<char>,
)
    requires
        m.contains_key(k),
        m[k].dangerous,
    ensures
        spec_insert_pairs(m, pairs, true).contains_key(k),
        spec_insert_pairs(m, pairs, true)[k].dangerous,
    decreases pairs.len(),
{
    if pairs.len() == 0 {
    } else if spec_pair_error(pairs.first().0, pairs.first().1) is Some {
    } else {
        let m2 = match (uri_parse(pairs.first().0), uri_parse(pairs.first().1)) {
            (Some(a), Some(d)) => match spec_routing_key(a) {
                Some(key) => m.insert(key, RoutingEntryView { upstream: d, dangerous: true }),
                None => m,
            },
            _ => m,
        };
        lemma_insert_pairs_keeps_dangerous(m2, pairs.drop_first(), k);
    }
}

/// After inserting an error-free dangerous section, the routing key of its
/// pair `i` resolves to a dangerous entry.
proof fn lemma_insert_pairs_hits_dangerous(
    m: Map<Seq<char>, RoutingEntryView>,
    pairs: Seq<(Seq<char>, Seq<char>)>,
    i: int,
)
    requires
        0 <= i < pairs.len(),
        spec_pairs_error(pairs) is None,
    ensures
        ({
            let k = spec_routing_key(uri_parse(pairs[i].0)->Some_0)->Some_0;
            &&& spec_insert_pairs(m, pairs, true).contains_key(k)
            &&& spec_insert_pairs(m, pairs, true)[k].dangerous
        }),
    decreases pairs.len(),
{
    let m2 = match (uri_parse(pairs.first().0), uri_parse(pairs.first().1)) {
        (Some(a), Some(d)) => match spec_routing_key(a) {
            Some(key) => m.insert(key, RoutingEntryView { upstream: d, dangerous: true }),
            None => m,
        },
        _ => m,
    };
    if i == 0 {
        let k = spec_routing_key(uri_parse(pairs[0].0)->Some_0)->Some_0;
        lemma_insert_pairs_keeps_dangerous(m2, pairs.drop_first(), k);
    } else {
        lemma_insert_pairs_hits_dangerous(m2, pairs.drop_first(), i - 1);
        assert(pairs.drop_first()[i - 1] == pairs[i]);
    }
}

/// A key listed in the dangerous section resolves as dangerous in the table
/// a configuration denotes — in particular a key present in both sections,
/// since the dangerous section is inserted after the safe one and a later
/// insertion overwrites an earlier one.
pub proof fn lemma_dangerous_section_wins(c: &Config, i: int)
    requires
        spec_pairs_error(spec_dangerous_pairs(c)) is None,
        0 <= i < spec_dangerous_pairs(c).len(),
    ensures
        ({
            let k = spec_routing_key(uri_parse(spec_dangerous_pairs(c)[i].0)->Some_0)->Some_0;
            &&& spec_address_map(c).contains_key(k)
            &&& spec_address_map(c)[k].dangerous
        }),
{
    lemma_insert_pairs_hits_dangerous(
        spec_insert_pairs(Map::empty(), spec_safe_pairs(c), false),
        spec_dangerous_pairs(c),
        i,
    );
}

/// The string-level rule of joining a base directory with a relative path:
/// an absolute second path stands alone; otherwise the two are joined with a
/// single `/` separator.
pub open spec fn spec_combine_path(base: Seq<char>, filepath: Seq<char>) -> Seq<char> {
    if filepath.len() > 0 && filepath.first() == '/' {
        filepath
    } else if base.len() == 0 {
        filepath
    } else if base.last() == '/' {
        base + filepath
    } else {
        base + "/"@ + filepath
    }
}

/// Joins a base directory and a file path at the level of strings, the way a
/// path join resolves them; making the result absolute against the
/// filesystem stays outside the library.
pub fn combine_pathbuf(base_dir: &str, filepath: &str) -> (r: String)
    ensures
        r@ == spec_combine_path(base_dir@, filepath@),
{
    let file_len = filepath.unicode_len();
    if file_len > 0 && filepath.get_char(0) == '/' {
        return String::from_str(filepath);
    }
    let base_len = base_dir.unicode_len();
    if base_len == 0 {
        return String::from_str(filepath);
    }
    let mut s = String::from_str(base_dir);
    if base_dir.get_char(base_len - 1) != '/' {
        s.append("/");
    }
    s.append(filepath);
    proof {
        if base_dir@.last() != '/' {
            assert(s@ =~= base_dir@ + "/"@ + filepath@);
        }
    }
    s
}

} // verus!
