//! The set of monitored hosts: an ordered mapping from hostname to the
//! address the host was last seen at.

use vstd::prelude::*;

verus! {

/// What contracts see of a monitored set: its hosts in order, each as its
/// name and its last-known address.
pub type Entries = Seq<(Seq<char>, Seq<char>)>;

/// Some entry of `s` is named `name`.
pub open spec fn has_name(s: Entries, name: Seq<char>) -> bool {
    exists|i: int| 0 <= i < s.len() && (#[trigger] s[i]).0 == name
}

/// The position of an entry of `s` named `name`; in a well-formed set there
/// is at most one.
pub open spec fn index_of(s: Entries, name: Seq<char>) -> int {
    choose|i: int| 0 <= i < s.len() && (#[trigger] s[i]).0 == name
}

/// The address that `s` remembers for `name`, if it monitors that host.
pub open spec fn lookup(s: Entries, name: Seq<char>) -> Option<Seq<char>> {
    if has_name(s, name) {
        Some(s[index_of(s, name)].1)
    } else {
        None
    }
}

/// `s` after `name` was given `address`: a host that is already there keeps
/// its place and gets the new address, a new host goes to the end.
pub open spec fn put(s: Entries, name: Seq<char>, address: Seq<char>) -> Entries {
    if has_name(s, name) {
        s.update(index_of(s, name), (name, address))
    } else {
        s.push((name, address))
    }
}

/// `items` put one after the other into an empty set.
pub open spec fn collected(items: Entries) -> Entries
    decreases items.len(),
{
    if items.len() == 0 {
        Seq::empty()
    } else {
        put(collected(items.drop_last()), items.last().0, items.last().1)
    }
}

/// No name and no address is empty, and no name occurs twice.
pub open spec fn well_formed(s: Entries) -> bool {
    &&& forall|i: int| 0 <= i < s.len() ==> (#[trigger] s[i]).0.len() > 0 && s[i].1.len() > 0
    &&& forall|i: int, j: int|
        0 <= i < j < s.len() ==> (#[trigger] s[i]).0 != (#[trigger] s[j]).0
}

/// The mapping that `s` stands for.
pub open spec fn as_map(s: Entries) -> Map<Seq<char>, Seq<char>> {
    Map::new(|name: Seq<char>| has_name(s, name), |name: Seq<char>| s[index_of(s, name)].1)
}

/// In a well-formed set the entry at `i` is the one found under its name.
pub proof fn lemma_index_of(s: Entries, i: int)
    requires
        well_formed(s),
        0 <= i < s.len(),
    ensures
        has_name(s, s[i].0),
        index_of(s, s[i].0) == i,
        lookup(s, s[i].0) == Some(s[i].1),
{
    let j = index_of(s, s[i].0);
    assert(0 <= j < s.len() && s[j].0 == s[i].0);
    if j < i {
        assert(s[j].0 != s[i].0);
    } else if i < j {
        assert(s[i].0 != s[j].0);
    }
}

/// Putting a non-empty name at a non-empty address keeps a set well formed,
/// and the set then remembers that address for the name and, for every
/// other name, what it remembered before.
pub proof fn lemma_put(s: Entries, name: Seq<char>, address: Seq<char>)
    requires
        well_formed(s),
        name.len() > 0,
        address.len() > 0,
    ensures
        well_formed(put(s, name, address)),
        lookup(put(s, name, address), name) == Some(address),
        forall|other: Seq<char>|
            other != name ==> lookup(put(s, name, address), other) == lookup(s, other),
        put(s, name, address).len() == if has_name(s, name) {
            s.len()
        } else {
            s.len() + 1
        },
{
    let t = put(s, name, address);
    let k = if has_name(s, name) {
        index_of(s, name)
    } else {
        s.len() as int
    };
    assert(0 <= k < t.len() && t[k] == (name, address));
    assert forall|i: int| 0 <= i < t.len() && i != k implies #[trigger] t[i] == s[i] && s[i].0
        != name by {
        if has_name(s, name) {
            lemma_index_of(s, k);
            if i < k {
                assert(s[i].0 != s[k].0);
            } else {
                assert(s[k].0 != s[i].0);
            }
        } else {
            if s[i].0 == name {
                assert(has_name(s, name));
            }
        }
    }
    assert(well_formed(t)) by {
        assert forall|i: int, j: int| 0 <= i < j < t.len() implies (#[trigger] t[i]).0 != (
        #[trigger] t[j]).0 by {
            if i != k && j != k {
                assert(t[i] == s[i] && t[j] == s[j]);
            } else if i == k {
                assert(t[j] == s[j] && s[j].0 != name);
            } else {
                assert(t[i] == s[i] && s[i].0 != name);
            }
        }
        assert forall|i: int| 0 <= i < t.len() implies (#[trigger] t[i]).0.len() > 0
            && t[i].1.len() > 0 by {
            if i != k {
                assert(t[i] == s[i]);
            }
        }
    }
    lemma_index_of(t, k);
    assert forall|other: Seq<char>| other != name implies lookup(t, other) == lookup(
        s,
        other,
    ) by {
        if has_name(s, other) {
            let i = index_of(s, other);
            assert(i != k);
            assert(t[i] == s[i]);
            lemma_index_of(t, i);
        } else if has_name(t, other) {
            let i = index_of(t, other);
            assert(i != k);
            assert(t[i] == s[i]);
            assert(has_name(s, other));
        }
    }
}

/// A monitored set has the meaning of a mapping: to put a name at an
/// address is to insert the pair into the mapping that the set stands for,
/// whether or not the name was there before.
pub proof fn law_put_is_map_insert(s: Entries, name: Seq<char>, address: Seq<char>)
    requires
        well_formed(s),
        name.len() > 0,
        address.len() > 0,
    ensures
        as_map(put(s, name, address)) == as_map(s).insert(name, address),
{
    let t = put(s, name, address);
    lemma_put(s, name, address);
    assert forall|other: Seq<char>| as_map(t).dom().contains(other) <==> as_map(s).insert(
        name,
        address,
    ).dom().contains(other) by {
        if other != name {
            assert(lookup(t, other) == lookup(s, other));
        }
    }
    assert forall|other: Seq<char>| as_map(t).dom().contains(other) implies as_map(t)[other]
        == as_map(s).insert(name, address)[other] by {
        if other != name {
            assert(lookup(t, other) == lookup(s, other));
        }
    }
    assert(as_map(t) =~= as_map(s).insert(name, address));
}

/// What is collected from at least one item is not empty.
pub proof fn lemma_collected_not_empty(items: Entries)
    requires
        items.len() > 0,
    ensures
        collected(items).len() > 0,
{
    let before = collected(items.drop_last());
    let name = items.last().0;
    if has_name(before, name) {
        let i = index_of(before, name);
        assert(0 <= i < before.len());
    }
}

/// A monitored host: its name and the address it was last seen at.
#[derive(Debug, PartialEq, Eq)]
pub struct Host {
    pub name: String,
    pub address: String,
}

impl View for Host {
    type V = (Seq<char>, Seq<char>);

    open spec fn view(&self) -> (Seq<char>, Seq<char>) {
        (self.name@, self.address@)
    }
}

/// An ordered mapping from hostname to last-known address. Names are not
/// empty and occur once; addresses are not empty.
#[derive(Debug, PartialEq, Eq)]
pub struct MonitoredSet {
    hosts: Vec<Host>,
}

impl View for MonitoredSet {
    type V = Entries;

    closed spec fn view(&self) -> Entries {
        self.hosts@.map_values(|h: Host| h@)
    }
}

impl MonitoredSet {
    /// The set keeps its invariant.
    pub open spec fn wf(&self) -> bool {
        well_formed(self@)
    }

    /// A set without hosts.
    pub fn new() -> (r: Self)
        ensures
            r@ == Seq::<(Seq<char>, Seq<char>)>::empty(),
            r.wf(),
    {
        let r = MonitoredSet { hosts: Vec::new() };
        assert(r@ =~= Seq::<(Seq<char>, Seq<char>)>::empty());
        r
    }

    /// The number of hosts.
    pub fn len(&self) -> (n: usize)
        ensures
            n == self@.len(),
    {
        self.hosts.len()
    }

    /// Whether the set has no host.
    pub fn is_empty(&self) -> (b: bool)
        ensures
            b == (self@.len() == 0),
    {
        self.hosts.len() == 0
    }

    /// The name of the host at position `i`.
    pub fn name_at(&self, i: usize) -> (r: &String)
        requires
            i < self@.len(),
        ensures
            r@ == self@[i as int].0,
    {
        &self.hosts[i].name
    }

    /// The last-known address of the host at position `i`.
    pub fn address_at(&self, i: usize) -> (r: &String)
        requires
            i < self@.len(),
        ensures
            r@ == self@[i as int].1,
    {
        &self.hosts[i].address
    }

    /// The position of the host named `name`, if the set monitors it.
    pub fn find(&self, name: &str) -> (r: Option<usize>)
        requires
            self.wf(),
        ensures
            r is Some <==> has_name(self@, name@),
            r is Some ==> r->0 == index_of(self@, name@),
    {
        let key: String = name.to_string();
        let mut i: usize = 0;
        while i < self.hosts.len()
            invariant
                self.wf(),
                i <= self@.len(),
                self@.len() == self.hosts@.len(),
                key@ == name@,
                forall|k: int| 0 <= k < i ==> (#[trigger] self@[k]).0 != name@,
            decreases self.hosts.len() - i,
        {
            if self.hosts[i].name == key {
                proof {
                    lemma_index_of(self@, i as int);
                }
                return Some(i);
            }
            i += 1;
        }
        None
    }

    /// The address remembered for `name`, if the set monitors that host.
    pub fn get(&self, name: &str) -> (r: Option<&String>)
        requires
            self.wf(),
        ensures
            match r {
                Some(address) => lookup(self@, name@) == Some(address@),
                None => lookup(self@, name@) is None,
            },
    {
        match self.find(name) {
            Some(i) => Some(&self.hosts[i].address),
            None => None,
        }
    }

    /// The hosts in order, each as its name and its address.
    pub fn entries(&self) -> (r: Vec<(String, String)>)
        ensures
            r@.len() == self@.len(),
            forall|i: int|
                0 <= i < r@.len() ==> (#[trigger] r@[i]).0@ == self@[i].0 && r@[i].1@
                    == self@[i].1,
    {
        let mut r: Vec<(String, String)> = Vec::new();
        let mut i: usize = 0;
        while i < self.hosts.len()
            invariant
                i <= self.hosts@.len(),
                self@.len() == self.hosts@.len(),
                r@.len() == i,
                forall|k: int|
                    0 <= k < i ==> (#[trigger] r@[k]).0@ == self@[k].0 && r@[k].1@ == self@[k].1,
            decreases self.hosts.len() - i,
        {
            r.push((self.hosts[i].name.clone(), self.hosts[i].address.clone()));
            i += 1;
        }
        r
    }

    /// Remembers `address` for `name`: a host that is already monitored keeps
    /// its place, a new one goes to the end.
    pub(crate) fn insert(&mut self, name: String, address: String)
        requires
            old(self).wf(),
            name@.len() > 0,
            address@.len() > 0,
        ensures
            final(self).wf(),
            final(self)@ == put(old(self)@, name@, address@),
    {
        proof {
            lemma_put(self@, name@, address@);
        }
        match self.find(name.as_str()) {
            Some(i) => {
                self.hosts.set(i, Host { name, address });
                assert(self@ =~= put(old(self)@, name@, address@));
            },
            None => {
                self.hosts.push(Host { name, address });
                assert(self@ =~= put(old(self)@, name@, address@));
            },
        }
    }

    /// Rewrites the address of the host at position `i`.
    pub(crate) fn set_address(&mut self, i: usize, address: String)
        requires
            old(self).wf(),
            i < old(self)@.len(),
            address@.len() > 0,
        ensures
            final(self).wf(),
            final(self)@ == old(self)@.update(i as int, (old(self)@[i as int].0, address@)),
    {
        let name = self.hosts[i].name.clone();
        self.hosts.set(i, Host { name, address });
        assert(self@ =~= old(self)@.update(i as int, (old(self)@[i as int].0, address@)));
        assert forall|a: int, b: int| 0 <= a < b < self@.len() implies (#[trigger] self@[a]).0 != (
        #[trigger] self@[b]).0 by {
            assert(self@[a].0 == old(self)@[a].0 && self@[b].0 == old(self)@[b].0);
        }
    }

    /// Builds a set from remembered entries, as a stored configuration holds
    /// them. An entry with an empty name or an empty address is refused.
    /// Where a name occurs more than once, the last address stands.
    pub fn from_entries(entries: Vec<(String, String)>) -> (r: Option<Self>)
        ensures
            r is Some <==> (forall|i: int|
                0 <= i < entries@.len() ==> (#[trigger] entries@[i]).0@.len() > 0
                    && entries@[i].1@.len() > 0),
            r is Some ==> r->0.wf() && r->0@ == collected(views_of(entries@)),
    {
        let mut set = MonitoredSet::new();
        let mut i: usize = 0;
        while i < entries.len()
            invariant
                i <= entries@.len(),
                set.wf(),
                set@ == collected(views_of(entries@).take(i as int)),
                forall|k: int|
                    0 <= k < i ==> (#[trigger] entries@[k]).0@.len() > 0 && entries@[k].1@.len()
                        > 0,
            decreases entries.len() - i,
        {
            if entries[i].0.as_str().is_empty() || entries[i].1.as_str().is_empty() {
                return None;
            }
            let name = entries[i].0.clone();
            let address = entries[i].1.clone();
            proof {
                let all = views_of(entries@);
                assert(all.take(i + 1).drop_last() =~= all.take(i as int));
                assert(all.take(i + 1).last() == (name@, address@));
            }
            set.insert(name, address);
            i += 1;
        }
        proof {
            let all = views_of(entries@);
            assert(all.take(i as int) =~= all);
        }
        Some(set)
    }
}

impl Clone for MonitoredSet {
    fn clone(&self) -> (r: Self)
        ensures
            r@ == self@,
    {
        let mut hosts: Vec<Host> = Vec::new();
        let mut i: usize = 0;
        while i < self.hosts.len()
            invariant
                i <= self.hosts@.len(),
                hosts@.len() == i,
                forall|k: int| 0 <= k < i ==> (#[trigger] hosts@[k])@ == self.hosts@[k]@,
            decreases self.hosts.len() - i,
        {
            hosts.push(
                Host { name: self.hosts[i].name.clone(), address: self.hosts[i].address.clone() },
            );
            i += 1;
        }
        let r = MonitoredSet { hosts };
        assert(r@ =~= self@);
        r
    }
}

/// The entries of a list of pairs of strings, as contracts see them.
pub open spec fn views_of(items: Seq<(String, String)>) -> Entries {
    items.map_values(|e: (String, String)| (e.0@, e.1@))
}

} // verus!
