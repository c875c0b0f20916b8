//! Routing keys and the routing table.
//!
//! A routing key is the canonical `host:port` form of a virtual host: the
//! host named by a URI, and its port, defaulted by scheme (443 for `https`,
//! 80 otherwise) when the URI carries none. The routing table maps keys to
//! entries; a later insertion overwrites an earlier one under the same key.

use vstd::prelude::*;
use vstd::string::StringExecFns;

use crate::text::{host_port_string, spec_host_port};
use crate::uri::{opt_view, UriParts, UriPartsView};

verus! {

/// The port a URI stands for when it names none: 443 under the `https`
/// scheme, 80 under any other scheme and under no scheme at all.
pub open spec fn spec_default_port(scheme: Option<Seq<char>>) -> u16 {
    if scheme == Some("https"@) {
        443
    } else {
        80
    }
}

/// The port a URI's routing key carries: the explicit port when present,
/// otherwise the scheme's default.
pub open spec fn spec_effective_port(p: UriPartsView) -> u16 {
    match p.port {
        Some(x) => x,
        None => spec_default_port(p.scheme),
    }
}

/// The routing key a URI yields: `host:port`, or nothing when the URI names
/// no host.
pub open spec fn spec_routing_key(p: UriPartsView) -> Option<Seq<char>> {
    match p.host {
        Some(h) => Some(spec_host_port(h, spec_effective_port(p))),
        None => None,
    }
}

/// The default port for an optional scheme.
pub fn default_port_of_scheme(scheme: &Option<String>) -> (r: u16)
    ensures
        r == spec_default_port(opt_view(*scheme)),
{
    match scheme {
        Some(s) => {
            let https = String::from_str("https");
            if *s == https {
                443
            } else {
                80
            }
        },
        None => 80,
    }
}

/// Derives the routing key of a URI: its host joined with its effective port
/// as `host:port`, or `None` when the URI carries no host.
pub fn get_host_and_port(uri: &UriParts) -> (r: Option<String>)
    ensures
        opt_view(r) == spec_routing_key(uri@),
{
    let host = match &uri.host {
        Some(h) => h,
        None => {
            return None;
        },
    };
    let port: u16 = match uri.port {
        Some(p) => p,
        None => default_port_of_scheme(&uri.scheme),
    };
    Some(host_port_string(host.as_str(), port))
}

/// What one routing key resolves to: the upstream base URI's components, and
/// whether the operator opted this entry into accepting an invalid upstream
/// TLS certificate.
pub struct RoutingEntry {
    pub upstream: UriParts,
    pub dangerous: bool,
}

/// The mathematical value of a `RoutingEntry`.
pub ghost struct RoutingEntryView {
    pub upstream: UriPartsView,
    pub dangerous: bool,
}

impl View for RoutingEntry {
    type V = RoutingEntryView;

    open spec fn view(&self) -> RoutingEntryView {
        RoutingEntryView { upstream: self.upstream@, dangerous: self.dangerous }
    }
}

impl Clone for RoutingEntry {
    fn clone(&self) -> (r: Self)
        ensures
            r@ == self@,
    {
        RoutingEntry { upstream: self.upstream.clone(), dangerous: self.dangerous }
    }
}

/// The map an insertion-ordered sequence of `(key, entry)` pairs denotes:
/// each pair inserted in order, so a later pair overwrites an earlier one
/// under the same key.
pub open spec fn map_of_entries(
    s: Seq<(Seq<char>, RoutingEntryView)>,
) -> Map<Seq<char>, RoutingEntryView>
    decreases s.len(),
{
    if s.len() == 0 {
        Map::empty()
    } else {
        map_of_entries(s.drop_last()).insert(s.last().0, s.last().1)
    }
}

/// The routing table: an immutable map from routing key to routing entry,
/// kept as the sequence of insertions and read through its map view.
pub struct RoutingTable {
    entries: Vec<(String, RoutingEntry)>,
}

impl RoutingTable {
    /// The insertions in order, as mathematical values.
    pub closed spec fn entries_seq(self) -> Seq<(Seq<char>, RoutingEntryView)> {
        Seq::new(self.entries@.len(), |i: int| (self.entries@[i].0@, self.entries@[i].1@))
    }

    /// Creates an empty table.
    pub fn new() -> (r: Self)
        ensures
            r@ == Map::<Seq<char>, RoutingEntryView>::empty(),
    {
        RoutingTable { entries: Vec::new() }
    }

    /// Inserts an entry under a key; a key already present resolves to the
    /// new entry afterwards.
    pub fn insert(&mut self, key: String, entry: RoutingEntry)
        ensures
            final(self)@ == old(self)@.insert(key@, entry@),
    {
        let ghost old_seq = self.entries_seq();
        let ghost pair = (key@, entry@);
        self.entries.push((key, entry));
        proof {
            assert(self.entries_seq().drop_last() =~= old_seq);
            assert(self.entries_seq().last() == pair);
        }
    }

    /// Looks a key up: the entry it resolves to, or `None` on a routing miss.
    pub fn lookup(&self, key: &String) -> (r: Option<&RoutingEntry>)
        ensures
            match r {
                Some(e) => self@.contains_key(key@) && self@[key@] == e@,
                None => !self@.contains_key(key@),
            },
    {
        let n = self.entries.len();
        let mut i = n;
        while i > 0
            invariant
                i <= n,
                n == self.entries.len(),
                forall|j: int| i <= j < n ==> #[trigger] self.entries_seq()[j].0 != key@,
            decreases i,
        {
            i = i - 1;
            if self.entries[i].0 == *key {
                proof {
                    lemma_map_of_entries_get(self.entries_seq(), i as int, key@);
                }
                return Some(&self.entries[i].1);
            }
        }
        proof {
            lemma_map_of_entries_absent(self.entries_seq(), key@);
        }
        None
    }

    /// How many insertions the table was built from.
    pub fn entry_count(&self) -> (r: usize)
        ensures
            r == self.entries_seq().len(),
    {
        self.entries.len()
    }
}

impl View for RoutingTable {
    type V = Map<Seq<char>, RoutingEntryView>;

    closed spec fn view(&self) -> Map<Seq<char>, RoutingEntryView> {
        map_of_entries(self.entries_seq())
    }
}

/// In the map a sequence of insertions denotes, a key resolves to the entry
/// of its last insertion.
proof fn lemma_map_of_entries_get(s: Seq<(Seq<char>, RoutingEntryView)>, i: int, k: Seq<char>)
    requires
        0 <= i < s.len(),
        s[i].0 == k,
        forall|j: int| i < j < s.len() ==> #[trigger] s[j].0 != k,
    ensures
        map_of_entries(s).contains_key(k),
        map_of_entries(s)[k] == s[i].1,
    decreases s.len(),
{
    if i == s.len() - 1 {
    } else {
        lemma_map_of_entries_get(s.drop_last(), i, k);
    }
}

/// A key no insertion carries is absent from the map the sequence denotes.
proof fn lemma_map_of_entries_absent(s: Seq<(Seq<char>, RoutingEntryView)>, k: Seq<char>)
    requires
        forall|j: int| 0 <= j < s.len() ==> #[trigger] s[j].0 != k,
    ensures
        !map_of_entries(s).contains_key(k),
    decreases s.len(),
{
    if s.len() > 0 {
        lemma_map_of_entries_absent(s.drop_last(), k);
    }
}

} // verus!
