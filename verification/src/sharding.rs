//! Shard assignment: which nodes are responsible for which shard.
//!
//! A shard is known from its first assignment on. An unknown shard has no
//! list at all, which is not the same as an empty list.

use vstd::prelude::*;
use std::collections::HashMap;

verus! {

broadcast use vstd::std_specs::hash::group_hash_axioms;

/// A run of node identifiers, each taken as its text.
pub open spec fn names(nodes: Seq<String>) -> Seq<Seq<char>> {
    nodes.map_values(|n: String| n@)
}

/// The nodes assigned to `shard` so far: none for an unknown shard.
pub open spec fn assigned(table: Map<u32, Seq<Seq<char>>>, shard: u32) -> Seq<Seq<char>> {
    if table.contains_key(shard) {
        table[shard]
    } else {
        Seq::empty()
    }
}

/// The table after `node` has been assigned to `shard`: the node stands at
/// the end of the shard's list, whether or not it stands in it already.
pub open spec fn with_assignment(
    table: Map<u32, Seq<Seq<char>>>,
    shard: u32,
    node: Seq<char>,
) -> Map<u32, Seq<Seq<char>>> {
    table.insert(shard, assigned(table, shard).push(node))
}

/// Tracks which nodes are responsible for particular shards.
pub struct ShardingCoordinator {
    shards: HashMap<u32, Vec<String>>,
}

impl View for ShardingCoordinator {
    type V = Map<u32, Seq<Seq<char>>>;

    /// The nodes of each known shard, in the order of their assignment.
    closed spec fn view(&self) -> Map<u32, Seq<Seq<char>>> {
        self.shards@.map_values(|nodes: Vec<String>| names(nodes@))
    }
}

impl ShardingCoordinator {
    /// Creates a coordinator that knows no shard.
    pub fn new() -> (r: Self)
        ensures
            r@ == Map::<u32, Seq<Seq<char>>>::empty(),
    {
        ShardingCoordinator { shards: HashMap::new() }
    }

    /// Assigns `node` to `shard`: appended to the shard's list, which is
    /// created where the shard was unknown. Other shards are not touched.
    pub fn assign_node(&mut self, shard: u32, node: &str)
        ensures
            final(self)@ == with_assignment(old(self)@, shard, node@),
    {
        let nodes = self.shards.entry(shard).or_insert(Vec::new());
        let ghost held = nodes@;
        nodes.push(node.to_owned());
        proof {
            assert(names(self.shards@[shard]@) =~= names(held).push(node@));
            assert(names(held) =~= assigned(old(self)@, shard));
        }
    }

    /// Retrieves the nodes assigned to `shard`, in the order of their
    /// assignment, or `None` for a shard that is not known.
    pub fn nodes_for(&self, shard: u32) -> (r: Option<&[String]>)
        ensures
            r.is_some() <==> self@.contains_key(shard),
            r matches Some(nodes) ==> names(nodes@) == self@[shard],
            r matches Some(nodes) ==> nodes@.len() == self@[shard].len() && forall|i: int|
                0 <= i < nodes@.len() ==> (#[trigger] nodes@[i])@ == self@[shard][i],
    {
        match self.shards.get(&shard) {
            Some(nodes) => Some(nodes.as_slice()),
            None => None,
        }
    }
}

impl Default for ShardingCoordinator {
    fn default() -> (r: Self)
        ensures
            r@ == Map::<u32, Seq<Seq<char>>>::empty(),
    {
        ShardingCoordinator::new()
    }
}

/// Assignments keep their order, and reach one shard only: after two
/// assignments to a shard its list ends in the two nodes, the first before
/// the second, and every other shard is as known or unknown as before, with
/// the list it had.
pub proof fn lemma_assignments_keep_order(
    table: Map<u32, Seq<Seq<char>>>,
    shard: u32,
    first: Seq<char>,
    second: Seq<char>,
    other: u32,
)
    requires
        other != shard,
    ensures
        ({
            let after = with_assignment(with_assignment(table, shard, first), shard, second);
            &&& after.contains_key(shard)
            &&& after[shard] == assigned(table, shard).push(first).push(second)
            &&& after[shard].len() == assigned(table, shard).len() + 2
            &&& after.contains_key(other) == table.contains_key(other)
            &&& assigned(after, other) == assigned(table, other)
        }),
{
}

} // verus!
