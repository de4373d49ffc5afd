use std::collections::HashMap;
use vstd::prelude::*;
use vstd::std_specs::iter::IteratorSpec;

use crate::text::{decimal, decimal_string, text};

verus! {

broadcast use vstd::std_specs::hash::group_hash_axioms;

/// The map from container ports to host ports built from the lookups of the
/// first `n` ports: a port whose lookup failed is left out, and a later
/// successful lookup of the same port wins.
pub open spec fn collected_mappings(ports: Seq<u16>, found: Seq<Option<u16>>, n: nat) -> Map<u16, u16>
    decreases n,
{
    if n == 0 {
        Map::empty()
    } else {
        let m = collected_mappings(ports, found, (n - 1) as nat);
        match found[n - 1] {
            Some(h) => m.insert(ports[n - 1], h),
            None => m,
        }
    }
}

/// The lookups of the first `n` ports map a port exactly when the lookup of
/// one of its occurrences succeeded, and then to the host port of the last
/// such occurrence.
pub proof fn lemma_collected_mappings(ports: Seq<u16>, found: Seq<Option<u16>>, n: nat, p: u16)
    requires
        n <= ports.len(),
        n <= found.len(),
    ensures
        collected_mappings(ports, found, n).contains_key(p) <==> exists|i: int|
            0 <= i < n && ports[i] == p && #[trigger] found[i] is Some,
        forall|i: int|
            0 <= i < n && ports[i] == p && #[trigger] found[i] is Some && (forall|j: int|
                i < j < n && ports[j] == p ==> found[j] is None) ==> collected_mappings(ports, found, n)[p]
                == found[i]->0,
    decreases n,
{
    if n > 0 {
        let m = (n - 1) as nat;
        lemma_collected_mappings(ports, found, m, p);
        if ports[m as int] == p && found[m as int] is Some {
            assert forall|i: int|
                0 <= i < n && ports[i] == p && #[trigger] found[i] is Some && (forall|j: int|
                    i < j < n && ports[j] == p ==> found[j] is None) implies collected_mappings(
                ports,
                found,
                n,
            )[p] == found[i]->0 by {
                if i < m {
                    assert(found[m as int] is None);
                }
            }
        } else {
            assert forall|i: int|
                0 <= i < n && ports[i] == p && #[trigger] found[i] is Some && (forall|j: int|
                    i < j < n && ports[j] == p ==> found[j] is None) implies collected_mappings(
                ports,
                found,
                n,
            )[p] == found[i]->0 by {
                assert(i < m);
                assert forall|j: int| i < j < m && ports[j] == p implies found[j] is None by {}
            }
        }
    }
}

/// The address under which a host port is reached.
pub open spec fn connection_text(host_port: u16) -> Seq<char> {
    "localhost:"@ + decimal(host_port as nat)
}

/// Mappings from the ports a container exposes to the ports of the host.
#[derive(Debug, Clone)]
pub struct PortMappings {
    map: HashMap<u16, u16>,
}

impl View for PortMappings {
    type V = Map<u16, u16>;

    closed spec fn view(&self) -> Map<u16, u16> {
        self.map@
    }
}

impl PortMappings {
    /// No mapping.
    pub fn new() -> (m: PortMappings)
        ensures
            m@ == Map::<u16, u16>::empty(),
    {
        PortMappings { map: HashMap::new() }
    }

    /// Records that `container_port` is reached on the host at `host_port`.
    pub fn insert(&mut self, container_port: u16, host_port: u16)
        ensures
            final(self)@ == old(self)@.insert(container_port, host_port),
    {
        self.map.insert(container_port, host_port);
    }

    /// The mappings found when the host port of each of `ports` was looked up,
    /// `found[i]` being the result for `ports[i]`.
    pub fn from_lookups(ports: &Vec<u16>, found: &Vec<Option<u16>>) -> (m: PortMappings)
        requires
            ports@.len() == found@.len(),
        ensures
            m@ == collected_mappings(ports@, found@, ports@.len()),
    {
        let mut m = PortMappings::new();
        let mut i: usize = 0;
        while i < ports.len()
            invariant
                i <= ports@.len(),
                ports@.len() == found@.len(),
                m@ == collected_mappings(ports@, found@, i as nat),
            decreases ports@.len() - i,
        {
            match found[i] {
                Some(h) => m.insert(ports[i], h),
                None => {},
            }
            i = i + 1;
        }
        m
    }

    /// The host port mapped to `container_port`.
    pub fn get_port(&self, container_port: u16) -> (r: Option<u16>)
        ensures
            r == (if self@.contains_key(container_port) {
                Some(self@[container_port])
            } else {
                None::<u16>
            }),
    {
        match self.map.get(&container_port) {
            Some(h) => Some(*h),
            None => None,
        }
    }

    /// `localhost:` followed by the host port mapped to `container_port`.
    pub fn get_connection_string(&self, container_port: u16) -> (r: Option<String>)
        ensures
            match r {
                Some(s) => self@.contains_key(container_port) && s@ == connection_text(
                    self@[container_port],
                ),
                None => !self@.contains_key(container_port),
            },
    {
        match self.get_port(container_port) {
            Some(h) => {
                let mut s = text("localhost:");
                s.append(decimal_string(h as u64).as_str());
                Some(s)
            },
            None => None,
        }
    }

    /// Whether `container_port` is mapped.
    pub fn contains(&self, container_port: u16) -> (b: bool)
        ensures
            b == self@.contains_key(container_port),
    {
        self.map.contains_key(&container_port)
    }

    /// Whether no port is mapped.
    pub fn is_empty(&self) -> (b: bool)
        ensures
            b == (self@.len() == 0),
    {
        self.map.is_empty()
    }

    /// Every (container port, host port) pair, each once, in no particular order.
    pub fn pairs(&self) -> (r: Vec<(u16, u16)>)
        ensures
            r@.len() == self@.len(),
            forall|i: int|
                0 <= i < r@.len() ==> self@.contains_key(#[trigger] r@[i].0) && self@[r@[i].0]
                    == r@[i].1,
            forall|c: u16| #[trigger]
                self@.contains_key(c) ==> exists|i: int| 0 <= i < r@.len() && r@[i] == (c, self@[c]),
            forall|i: int, j: int| 0 <= i < j < r@.len() ==> #[trigger] r@[i].0 != #[trigger] r@[j].0,
    {
        let mut r: Vec<(u16, u16)> = Vec::new();
        let iter = self.map.iter();
        let ghost v = iter.remaining();
        assert(v.no_duplicates());
        for (c, h) in it: iter
            invariant
                it.seq() == v,
                r@ == it.seq().take(it.index() as int).map_values(|p: (&u16, &u16)| (*p.0, *p.1)),
        {
            r.push((*c, *h));
        }
        proof {
            assert(r@ =~= v.map_values(|p: (&u16, &u16)| (*p.0, *p.1)));
            assert forall|c: u16| #[trigger] self@.contains_key(c) implies exists|i: int|
                0 <= i < r@.len() && r@[i] == (c, self@[c]) by {
                assert(v.contains((&c, &self@[c])));
                let j = choose|j: int| 0 <= j < v.len() && v[j] == (&c, &self@[c]);
                assert(r@[j] == (c, self@[c]));
            }
            assert forall|i: int, j: int| 0 <= i < j < r@.len() implies #[trigger] r@[i].0 != #[trigger] r@[j].0 by {
                if r@[i].0 == r@[j].0 {
                    assert(self@[*v[i].0] == *v[i].1);
                    assert(self@[*v[j].0] == *v[j].1);
                    assert(v[i] == v[j]);
                }
            }
        }
        r
    }
}

} // verus!
