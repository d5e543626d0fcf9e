use vstd::prelude::*;

use crate::cluster::topology::{ClusterMember, ClusterTopology};
use crate::utils::text::str_equal;

verus! {

/// The text of each string in a list.
pub open spec fn texts(v: Seq<String>) -> Seq<Seq<char>> {
    v.map_values(|s: String| s@)
}

/// A cluster provider that keeps the membership in memory: the kinds each
/// node hosts, by node address, and the clusters that clients joined.
/// Each address and each client cluster is recorded once.
#[derive(Debug)]
pub struct InMemoryClusterProvider {
    members: Vec<(String, Vec<String>)>,
    clients: Vec<String>,
}

impl InMemoryClusterProvider {
    /// The kinds hosted by each registered node address.
    pub closed spec fn spec_members(&self) -> Map<Seq<char>, Seq<Seq<char>>> {
        Map::new(
            |a: Seq<char>| exists|i: int| 0 <= i < self.members@.len() && self.members@[i].0@ == a,
            |a: Seq<char>| {
                let i = choose|i: int| 0 <= i < self.members@.len() && self.members@[i].0@ == a;
                texts(self.members@[i].1@)
            },
        )
    }

    /// The clusters that clients joined.
    pub closed spec fn spec_clients(&self) -> Set<Seq<char>> {
        texts(self.clients@).to_set()
    }

    /// Well-formed: no address and no client cluster is recorded twice.
    pub closed spec fn wf(&self) -> bool {
        &&& forall|i: int, j: int|
            0 <= i < j < self.members@.len() ==> self.members@[i].0@ != self.members@[j].0@
        &&& texts(self.clients@).no_duplicates()
    }

    /// A provider with no member and no client.
    pub fn new() -> (r: Self)
        ensures
            r.wf(),
            r.spec_members() == Map::<Seq<char>, Seq<Seq<char>>>::empty(),
            r.spec_clients() == Set::<Seq<char>>::empty(),
    {
        let r = InMemoryClusterProvider { members: Vec::new(), clients: Vec::new() };
        proof {
            assert(r.spec_members() =~= Map::<Seq<char>, Seq<Seq<char>>>::empty());
            assert(r.spec_clients() =~= Set::<Seq<char>>::empty());
        }
        r
    }

    /// The position of the member at `address`.
    fn member_position(&self, address: &str) -> (r: Option<usize>)
        requires
            self.wf(),
        ensures
            r is None ==> !self.spec_members().contains_key(address@),
            r matches Some(i) ==> i < self.members@.len() && self.members@[i as int].0@
                == address@,
    {
        let mut i: usize = 0;
        while i < self.members.len()
            invariant
                i <= self.members@.len(),
                forall|j: int| 0 <= j < i ==> self.members@[j].0@ != address@,
            decreases self.members@.len() - i,
        {
            if str_equal(self.members[i].0.as_str(), address) {
                return Some(i);
            }
            i = i + 1;
        }
        None
    }

    /// Records that the node at `node_address` hosts `kinds`, replacing what
    /// it was recorded with before, and returns the topology to hand to the
    /// partition managers: every member with its kinds.
    pub fn start_member(&mut self, node_address: String, kinds: Vec<String>) -> (r: ClusterTopology)
        requires
            old(self).wf(),
        ensures
            final(self).wf(),
            final(self).spec_members() == old(self).spec_members().insert(
                node_address@,
                texts(kinds@),
            ),
            final(self).spec_clients() == old(self).spec_clients(),
            r.members@.map_values(|m: ClusterMember| m.address@).to_set()
                == final(self).spec_members().dom(),
            r.members@.map_values(|m: ClusterMember| m.address@).no_duplicates(),
            forall|i: int|
                0 <= i < r.members@.len() ==> final(self).spec_members()[r.members@[i].address@]
                    == texts(#[trigger] r.members@[i].kinds@),
    {
        let ghost key = node_address@;
        let ghost value = texts(kinds@);
        match self.member_position(node_address.as_str()) {
            Some(i) => {
                let ghost before = self.members@;
                self.members.set(i, (node_address, kinds));
                proof {
                    assert(self.spec_members() =~= old(self).spec_members().insert(key, value)) by {
                        assert forall|a: Seq<char>|
                            #[trigger] self.spec_members().contains_key(a) == old(
                                self,
                            ).spec_members().insert(key, value).contains_key(a) by {
                            if a != key {
                                if old(self).spec_members().contains_key(a) {
                                    let j = choose|j: int|
                                        0 <= j < before.len() && before[j].0@ == a;
                                    assert(self.members@[j].0@ == a);
                                }
                            }
                            assert(self.members@[i as int].0@ == key);
                        }
                        assert forall|a: Seq<char>| #[trigger]
                            self.spec_members().contains_key(a) implies self.spec_members()[a]
                            == old(self).spec_members().insert(key, value)[a] by {
                            let j = choose|j: int|
                                0 <= j < self.members@.len() && self.members@[j].0@ == a;
                            if a != key {
                                assert(j != i);
                                assert(old(self).members@[j].0@ == a);
                                let k = choose|k: int|
                                    0 <= k < before.len() && before[k].0@ == a;
                                assert(k == j);
                            } else {
                                assert(j == i);
                            }
                        }
                    }
                }
            },
            None => {
                let ghost before = self.members@;
                self.members.push((node_address, kinds));
                proof {
                    let n = before.len() as int;
                    assert(self.members@[n].0@ == key);
                    assert(self.spec_members() =~= old(self).spec_members().insert(key, value)) by {
                        assert forall|a: Seq<char>|
                            #[trigger] self.spec_members().contains_key(a) == old(
                                self,
                            ).spec_members().insert(key, value).contains_key(a) by {
                            if a != key && old(self).spec_members().contains_key(a) {
                                let j = choose|j: int|
                                    0 <= j < before.len() && before[j].0@ == a;
                                assert(self.members@[j].0@ == a);
                            }
                        }
                        assert forall|a: Seq<char>| #[trigger]
                            self.spec_members().contains_key(a) implies self.spec_members()[a]
                            == old(self).spec_members().insert(key, value)[a] by {
                            let j = choose|j: int|
                                0 <= j < self.members@.len() && self.members@[j].0@ == a;
                            if a != key {
                                assert(j != n);
                                let k = choose|k: int|
                                    0 <= k < before.len() && before[k].0@ == a;
                                assert(k == j);
                            } else {
                                assert(j == n);
                            }
                        }
                    }
                }
            },
        }
        ClusterTopology { members: self.topology_snapshot() }
    }

    /// Records that a client joined `cluster_name`.
    pub fn start_client(&mut self, cluster_name: String)
        requires
            old(self).wf(),
        ensures
            final(self).wf(),
            final(self).spec_clients() == old(self).spec_clients().insert(cluster_name@),
            final(self).spec_members() == old(self).spec_members(),
    {
        let ghost before = texts(self.clients@);
        let mut i: usize = 0;
        while i < self.clients.len()
            invariant
                *self == *old(self),
                self.wf(),
                i <= self.clients@.len(),
                forall|j: int| 0 <= j < i ==> self.clients@[j]@ != cluster_name@,
            decreases self.clients@.len() - i,
        {
            if str_equal(self.clients[i].as_str(), cluster_name.as_str()) {
                proof {
                    assert(texts(self.clients@)[i as int] == cluster_name@);
                    assert(self.spec_clients() =~= old(self).spec_clients().insert(cluster_name@));
                }
                return;
            }
            i = i + 1;
        }
        let ghost name = cluster_name@;
        self.clients.push(cluster_name);
        proof {
            assert(texts(self.clients@) =~= before.push(name));
            assert(!before.contains(name)) by {
                if before.contains(name) {
                    let j = choose|j: int| 0 <= j < before.len() && before[j] == name;
                    assert(old(self).clients@[j]@ == name);
                }
            }
            assert(before.push(name).to_set() =~= before.to_set().insert(name)) by {
                assert forall|x: Seq<char>| #[trigger] before.push(name).to_set().contains(x)
                    == before.to_set().insert(name).contains(x) by {
                    if before.contains(x) {
                        let j = choose|j: int| 0 <= j < before.len() && before[j] == x;
                        assert(before.push(name)[j] == x);
                    }
                    if x == name {
                        assert(before.push(name)[before.len() as int] == x);
                    }
                    if before.push(name).contains(x) && x != name {
                        let j = choose|j: int|
                            0 <= j < before.push(name).len() && before.push(name)[j] == x;
                        assert(j < before.len());
                    }
                }
            }
        }
    }

    /// The addresses of the registered nodes, each once.
    pub fn members_snapshot(&self) -> (r: Vec<String>)
        requires
            self.wf(),
        ensures
            texts(r@).to_set() == self.spec_members().dom(),
            texts(r@).no_duplicates(),
    {
        let mut out: Vec<String> = Vec::new();
        let mut i: usize = 0;
        while i < self.members.len()
            invariant
                self.wf(),
                i <= self.members@.len(),
                out@.len() == i,
                forall|j: int| 0 <= j < i ==> out@[j]@ == self.members@[j].0@,
            decreases self.members@.len() - i,
        {
            out.push(self.members[i].0.clone());
            i = i + 1;
        }
        proof {
            assert forall|a: Seq<char>| #[trigger] texts(out@).to_set().contains(a)
                == self.spec_members().dom().contains(a) by {
                if texts(out@).contains(a) {
                    let j = choose|j: int| 0 <= j < out@.len() && texts(out@)[j] == a;
                    assert(self.members@[j].0@ == a);
                }
                if self.spec_members().dom().contains(a) {
                    let j = choose|j: int| 0 <= j < self.members@.len() && self.members@[j].0@ == a;
                    assert(texts(out@)[j] == a);
                }
            }
            assert(texts(out@).to_set() =~= self.spec_members().dom());
        }
        out
    }

    /// Every registered node as a cluster member with its kinds, each once.
    pub fn topology_snapshot(&self) -> (r: Vec<ClusterMember>)
        requires
            self.wf(),
        ensures
            r@.map_values(|m: ClusterMember| m.address@).to_set() == self.spec_members().dom(),
            r@.map_values(|m: ClusterMember| m.address@).no_duplicates(),
            forall|i: int|
                0 <= i < r@.len() ==> self.spec_members()[r@[i].address@] == texts(
                    #[trigger] r@[i].kinds@,
                ),
    {
        let mut out: Vec<ClusterMember> = Vec::new();
        let mut i: usize = 0;
        while i < self.members.len()
            invariant
                self.wf(),
                i <= self.members@.len(),
                out@.len() == i,
                forall|j: int|
                    0 <= j < i ==> #[trigger] out@[j].address@ == self.members@[j].0@ && texts(
                        out@[j].kinds@,
                    ) == texts(self.members@[j].1@),
            decreases self.members@.len() - i,
        {
            let kinds = copy_strings(&self.members[i].1);
            out.push(ClusterMember::new(self.members[i].0.clone(), kinds));
            i = i + 1;
        }
        proof {
            let addrs = out@.map_values(|m: ClusterMember| m.address@);
            assert forall|a: Seq<char>| #[trigger] addrs.to_set().contains(a)
                == self.spec_members().dom().contains(a) by {
                if addrs.contains(a) {
                    let j = choose|j: int| 0 <= j < addrs.len() && addrs[j] == a;
                    assert(self.members@[j].0@ == a);
                }
                if self.spec_members().dom().contains(a) {
                    let j = choose|j: int| 0 <= j < self.members@.len() && self.members@[j].0@ == a;
                    assert(addrs[j] == a);
                }
            }
            assert(addrs.to_set() =~= self.spec_members().dom());
            assert forall|j: int, k: int| 0 <= j < k < addrs.len() implies addrs[j] != addrs[k] by {
                assert(self.members@[j].0@ != self.members@[k].0@);
            }
            assert forall|j: int| 0 <= j < out@.len() implies self.spec_members()[out@[j].address@]
                == texts(#[trigger] out@[j].kinds@) by {
                let a = out@[j].address@;
                assert(self.members@[j].0@ == a);
                let k = choose|k: int| 0 <= k < self.members@.len() && self.members@[k].0@ == a;
                assert(k == j);
            }
        }
        out
    }

    /// The clusters that clients joined, each once.
    pub fn clients_snapshot(&self) -> (r: Vec<String>)
        requires
            self.wf(),
        ensures
            texts(r@).to_set() == self.spec_clients(),
            texts(r@).no_duplicates(),
    {
        let r = copy_strings(&self.clients);
        proof {
            assert(texts(r@) =~= texts(self.clients@));
        }
        r
    }
}

impl Default for InMemoryClusterProvider {
    /// A provider with no member and no client.
    fn default() -> (r: Self)
        ensures
            r.wf(),
            r.spec_members() == Map::<Seq<char>, Seq<Seq<char>>>::empty(),
            r.spec_clients() == Set::<Seq<char>>::empty(),
    {
        InMemoryClusterProvider::new()
    }
}

/// A copy of a list of strings.
fn copy_strings(v: &Vec<String>) -> (r: Vec<String>)
    ensures
        texts(r@) == texts(v@),
{
    let mut out: Vec<String> = Vec::new();
    let mut i: usize = 0;
    while i < v.len()
        invariant
            i <= v@.len(),
            out@.len() == i,
            forall|j: int| 0 <= j < i ==> out@[j]@ == v@[j]@,
        decreases v@.len() - i,
    {
        out.push(v[i].clone());
        i = i + 1;
    }
    proof {
        assert(texts(out@) =~= texts(v@));
    }
    out
}

} // verus!
