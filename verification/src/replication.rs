//! Replication fan-out: one logical write becomes one stored copy per node.
//!
//! The nodes are fixed when the service is made. A stored copy is known by
//! the pair of its logical id and its node, and two different pairs never
//! share a copy, whatever characters the id and the node's name hold.

use vstd::prelude::*;
use vstd::hash_map::StringHashMap;
use vstd::string::{StrSliceExecFns, StringExecFns};

verus! {

/// Whether the pair `key` is `id` together with one of `nodes`.
pub open spec fn is_target(
    key: (Seq<char>, Seq<char>),
    id: Seq<char>,
    nodes: Seq<Seq<char>>,
) -> bool {
    key.0 == id && nodes.contains(key.1)
}

/// The store after `data` has been replicated under `id` to each of `nodes`:
/// every pair of `id` with one of the nodes holds `data`, and every other
/// pair holds what it held.
pub open spec fn replicated(
    store: Map<(Seq<char>, Seq<char>), Seq<u8>>,
    id: Seq<char>,
    nodes: Seq<Seq<char>>,
    data: Seq<u8>,
) -> Map<(Seq<char>, Seq<char>), Seq<u8>> {
    Map::new(
        |key: (Seq<char>, Seq<char>)| store.contains_key(key) || is_target(key, id, nodes),
        |key: (Seq<char>, Seq<char>)|
            if is_target(key, id, nodes) {
                data
            } else {
                store[key]
            },
    )
}

/// A run of node names, each taken as its text.
pub open spec fn node_names(nodes: Seq<String>) -> Seq<Seq<char>> {
    nodes.map_values(|n: String| n@)
}

/// The text under which the copy of a pair is kept: as many `#` as the id
/// has characters, then `@`, the id and the node. The run of `#` tells where
/// the id ends, so the text gives the pair back.
spec fn storage_key(id: Seq<char>, node: Seq<char>) -> Seq<char> {
    Seq::new(id.len(), |i: int| '#') + seq!['@'] + id + node
}

/// The copies that a table of texts holds, each under its pair.
spec fn copies(storage: Map<Seq<char>, Vec<u8>>) -> Map<(Seq<char>, Seq<char>), Seq<u8>> {
    Map::new(
        |key: (Seq<char>, Seq<char>)| storage.contains_key(storage_key(key.0, key.1)),
        |key: (Seq<char>, Seq<char>)| storage[storage_key(key.0, key.1)]@,
    )
}

/// Whether a table holds finitely many texts, and as many texts as pairs.
spec fn counted(storage: Map<Seq<char>, Vec<u8>>) -> bool {
    &&& storage.dom().finite()
    &&& copies(storage).dom().finite()
    &&& copies(storage).len() == storage.len()
}

/// Two pairs have the same text only if they are the same pair.
proof fn lemma_storage_keys_differ(
    id: Seq<char>,
    node: Seq<char>,
    other_id: Seq<char>,
    other_node: Seq<char>,
)
    ensures
        storage_key(id, node) == storage_key(other_id, other_node) <==> id == other_id && node
            == other_node,
{
    let key = storage_key(id, node);
    let other_key = storage_key(other_id, other_node);
    if key == other_key {
        let len = id.len() as int;
        let other_len = other_id.len() as int;
        if len < other_len {
            assert(other_key[len] == '#');
        } else if other_len < len {
            assert(key[other_len] == '#');
        }
        assert(key.subrange(len + 1, 2 * len + 1) =~= id);
        assert(other_key.subrange(len + 1, 2 * len + 1) =~= other_id);
        assert(key.subrange(2 * len + 1, key.len() as int) =~= node);
        assert(other_key.subrange(2 * len + 1, other_key.len() as int) =~= other_node);
    }
}

/// The empty table holds no pair.
proof fn lemma_nothing_stored()
    ensures
        copies(Map::<Seq<char>, Vec<u8>>::empty()) == Map::<(Seq<char>, Seq<char>), Seq<u8>>::empty(),
        counted(Map::<Seq<char>, Vec<u8>>::empty()),
{
    assert(copies(Map::<Seq<char>, Vec<u8>>::empty()) =~= Map::<
        (Seq<char>, Seq<char>),
        Seq<u8>,
    >::empty());
}

/// Storing a copy under the text of a pair stores it under that pair and
/// under no other, and keeps texts and pairs equal in number.
proof fn lemma_copy_stored(
    storage: Map<Seq<char>, Vec<u8>>,
    id: Seq<char>,
    node: Seq<char>,
    copy: Vec<u8>,
)
    requires
        counted(storage),
    ensures
        copies(storage.insert(storage_key(id, node), copy)) == copies(storage).insert(
            (id, node),
            copy@,
        ),
        counted(storage.insert(storage_key(id, node), copy)),
{
    assert forall|key: (Seq<char>, Seq<char>)|
        (storage_key(key.0, key.1) == storage_key(id, node)) == (key == (id, node)) by {
        lemma_storage_keys_differ(key.0, key.1, id, node);
    }
}

/// The text of a pair.
fn storage_key_of(id: &str, node: &str) -> (key: String)
    ensures
        key@ == storage_key(id@, node@),
{
    let len = id.unicode_len();
    let mut key = String::new();
    let mut i: usize = 0;
    while i < len
        invariant
            i <= len,
            len == id@.len(),
            key@ == Seq::new(i as nat, |j: int| '#'),
        decreases len - i,
    {
        key.append("#");
        proof {
            reveal_strlit("#");
        }
        i = i + 1;
    }
    key.append("@");
    key.append(id);
    key.append(node);
    proof {
        reveal_strlit("@");
    }
    key
}

/// Minimal replication service that stores a copy of data for each node.
/// The stored copies are always finitely many, so their number is always
/// defined.
pub struct ReplicationService {
    nodes: Vec<String>,
    storage: StringHashMap<Vec<u8>>,
}

impl View for ReplicationService {
    type V = Map<(Seq<char>, Seq<char>), Seq<u8>>;

    /// The stored copies, each under the pair of its logical id and its
    /// node.
    closed spec fn view(&self) -> Map<(Seq<char>, Seq<char>), Seq<u8>> {
        copies(self.storage@)
    }
}

impl ReplicationService {
    #[verifier::type_invariant]
    spec fn well_formed(&self) -> bool {
        counted(self.storage@)
    }

    /// The nodes that every write is replicated to. Fixed at creation.
    pub closed spec fn nodes(&self) -> Seq<Seq<char>> {
        node_names(self.nodes@)
    }

    /// Creates a service without stored copies that replicates across
    /// `nodes`.
    pub fn new(nodes: Vec<String>) -> (r: Self)
        ensures
            r.nodes() == node_names(nodes@),
            r@ == Map::<(Seq<char>, Seq<char>), Seq<u8>>::empty(),
    {
        proof {
            lemma_nothing_stored();
        }
        ReplicationService { nodes, storage: StringHashMap::new() }
    }

    /// Replicates `data` for the given `id` across all nodes: each pair of
    /// `id` with a node then holds a copy of its own, equal to `data`, in
    /// place of any earlier one. The copies of every other pair are not
    /// touched, and neither is the list of nodes.
    pub fn replicate(&mut self, id: &str, data: Vec<u8>)
        ensures
            final(self)@ == replicated(old(self)@, id@, old(self).nodes(), data@),
            final(self).nodes() == old(self).nodes(),
            final(self)@.dom().finite(),
    {
        proof {
            use_type_invariant(&*self);
            lemma_nothing_stored();
        }
        let mut storage = StringHashMap::new();
        std::mem::swap(&mut storage, &mut self.storage);
        let count = self.nodes.len();
        let mut i: usize = 0;
        while i < count
            invariant
                i <= count,
                count == self.nodes@.len(),
                self.nodes@ == old(self).nodes@,
                counted(storage@),
                self.storage@ == Map::<Seq<char>, Vec<u8>>::empty(),
                copies(storage@) == replicated(
                    old(self)@,
                    id@,
                    old(self).nodes().take(i as int),
                    data@,
                ),
            decreases count - i,
        {
            let key = storage_key_of(id, self.nodes[i].as_str());
            let copy = data.clone();
            proof {
                let next = old(self).nodes().take(i + 1);
                lemma_replicated_step(old(self)@, id@, next, data@);
                lemma_copy_stored(storage@, id@, next.last(), copy);
            }
            storage.insert(key, copy);
            i = i + 1;
        }
        proof {
            assert(old(self).nodes().take(count as int) =~= old(self).nodes());
        }
        self.storage = storage;
    }

    /// The copy of `id` that is stored for `node`, or `None` where none is.
    pub fn replica(&self, id: &str, node: &str) -> (r: Option<&Vec<u8>>)
        ensures
            r.is_some() <==> self@.contains_key((id@, node@)),
            r matches Some(copy) ==> copy@ == self@[(id@, node@)],
    {
        let key = storage_key_of(id, node);
        self.storage.get(key.as_str())
    }

    /// Number of stored replicas, over all ids and nodes.
    pub fn replicas(&self) -> (n: usize)
        ensures
            self@.dom().finite(),
            n == self@.len(),
    {
        proof {
            use_type_invariant(self);
        }
        self.storage.len()
    }
}

impl Default for ReplicationService {
    fn default() -> (r: Self)
        ensures
            r.nodes() == Seq::<Seq<char>>::empty(),
            r@ == Map::<(Seq<char>, Seq<char>), Seq<u8>>::empty(),
    {
        ReplicationService::new(Vec::new())
    }
}

/// After a replication every node of the service has a copy under its pair
/// with the id, and each copy equals the payload, byte for byte.
pub proof fn lemma_every_node_holds_the_payload(
    store: Map<(Seq<char>, Seq<char>), Seq<u8>>,
    id: Seq<char>,
    nodes: Seq<Seq<char>>,
    data: Seq<u8>,
    i: int,
)
    requires
        0 <= i < nodes.len(),
    ensures
        replicated(store, id, nodes, data).contains_key((id, nodes[i])),
        replicated(store, id, nodes, data)[(id, nodes[i])] == data,
{
}

/// A replication reaches the pairs of its id with the service's nodes and
/// no other: a pair of another logical id, or with another node, is stored
/// after it exactly if it was stored before, and holds what it held.
pub proof fn lemma_other_pairs_keep_their_copies(
    store: Map<(Seq<char>, Seq<char>), Seq<u8>>,
    id: Seq<char>,
    nodes: Seq<Seq<char>>,
    data: Seq<u8>,
    other: (Seq<char>, Seq<char>),
)
    requires
        other.0 != id || !nodes.contains(other.1),
    ensures
        replicated(store, id, nodes, data).contains_key(other) == store.contains_key(other),
        store.contains_key(other) ==> replicated(store, id, nodes, data)[other] == store[other],
{
}

/// Replicating to one more node is one more insertion.
proof fn lemma_replicated_step(
    store: Map<(Seq<char>, Seq<char>), Seq<u8>>,
    id: Seq<char>,
    nodes: Seq<Seq<char>>,
    data: Seq<u8>,
)
    requires
        nodes.len() > 0,
    ensures
        replicated(store, id, nodes, data) == replicated(
            store,
            id,
            nodes.drop_last(),
            data,
        ).insert((id, nodes.last()), data),
{
    let earlier = nodes.drop_last();
    assert forall|key: (Seq<char>, Seq<char>)|
        is_target(key, id, nodes) <==> (is_target(key, id, earlier) || key == (
            id,
            nodes.last(),
        )) by {
        if is_target(key, id, earlier) {
            let j = choose|j: int| 0 <= j < earlier.len() && earlier[j] == key.1;
            assert(nodes[j] == key.1);
        }
        if is_target(key, id, nodes) {
            let j = choose|j: int| 0 <= j < nodes.len() && nodes[j] == key.1;
            if j < earlier.len() {
                assert(earlier[j] == key.1);
            }
        }
        assert(nodes[nodes.len() - 1] == nodes.last());
    }
}

/// Replicating an id of which no copy is stored yet, to nodes that are all
/// different, adds exactly one stored copy per node: to a set of two nodes,
/// exactly two.
pub proof fn lemma_fresh_replication_adds_one_per_node(
    store: Map<(Seq<char>, Seq<char>), Seq<u8>>,
    id: Seq<char>,
    nodes: Seq<Seq<char>>,
    data: Seq<u8>,
)
    requires
        store.dom().finite(),
        nodes.no_duplicates(),
        forall|i: int| 0 <= i < nodes.len() ==> !store.contains_key((id, #[trigger] nodes[i])),
    ensures
        replicated(store, id, nodes, data).dom().finite(),
        replicated(store, id, nodes, data).len() == store.len() + nodes.len(),
    decreases nodes.len(),
{
    if nodes.len() == 0 {
        assert(replicated(store, id, nodes, data) =~= store);
    } else {
        let earlier = nodes.drop_last();
        lemma_fresh_replication_adds_one_per_node(store, id, earlier, data);
        lemma_replicated_step(store, id, nodes, data);
        if is_target((id, nodes.last()), id, earlier) {
            let j = choose|j: int| 0 <= j < earlier.len() && earlier[j] == nodes.last();
            assert(nodes[j] == nodes[nodes.len() - 1]);
        }
    }
}

/// Replicating again what is stored already, to the same nodes, stores no
/// further copy.
pub proof fn lemma_repeated_replication_adds_nothing(
    store: Map<(Seq<char>, Seq<char>), Seq<u8>>,
    id: Seq<char>,
    nodes: Seq<Seq<char>>,
    data: Seq<u8>,
    again: Seq<u8>,
)
    ensures
        replicated(replicated(store, id, nodes, data), id, nodes, again).dom() == replicated(
            store,
            id,
            nodes,
            data,
        ).dom(),
        replicated(replicated(store, id, nodes, data), id, nodes, again) == replicated(
            store,
            id,
            nodes,
            again,
        ),
{
}

} // verus!
