//! Registries that record membership only: the set of certified entities
//! and the set of nodes that joined during bootstrap.
//!
//! Adding a member reports whether it was new, so that a caller can tell a
//! first registration from a repeated one. Neither ever fails.

use vstd::prelude::*;
use vstd::hash_set::StringHashSet;

verus! {

/// Maintains a registry of certified entities.
pub struct GreenCertifier {
    certified: StringHashSet,
}

impl View for GreenCertifier {
    type V = Set<Seq<char>>;

    /// The names of the certified entities.
    closed spec fn view(&self) -> Set<Seq<char>> {
        self.certified@
    }
}

impl GreenCertifier {
    /// Creates an empty registry.
    pub fn new() -> (r: Self)
        ensures
            r@ == Set::<Seq<char>>::empty(),
    {
        GreenCertifier { certified: StringHashSet::new() }
    }

    /// Certifies `entity`, and reports whether it was not certified before.
    /// Certifying an entity again changes nothing.
    pub fn certify(&mut self, entity: &str) -> (newly: bool)
        ensures
            final(self)@ == old(self)@.insert(entity@),
            newly == !old(self)@.contains(entity@),
    {
        self.certified.insert(entity.to_owned())
    }

    /// Revokes the certification of `entity`. Revoking what is not
    /// certified changes nothing.
    pub fn revoke(&mut self, entity: &str)
        ensures
            final(self)@ == old(self)@.remove(entity@),
    {
        self.certified.remove(entity);
    }

    /// Returns `true` if `entity` is certified.
    pub fn is_certified(&self, entity: &str) -> (r: bool)
        ensures
            r == self@.contains(entity@),
    {
        self.certified.contains(entity)
    }
}

/// Registry for nodes joining the network during bootstrap. The registered
/// nodes are always finitely many, so their number is always defined.
pub struct NetworkBootstrap {
    nodes: StringHashSet,
}

impl View for NetworkBootstrap {
    type V = Set<Seq<char>>;

    /// The identifiers of the registered nodes.
    closed spec fn view(&self) -> Set<Seq<char>> {
        self.nodes@
    }
}

impl NetworkBootstrap {
    #[verifier::type_invariant]
    spec fn well_formed(&self) -> bool {
        self.nodes@.finite()
    }

    /// Creates an empty registry.
    pub fn new() -> (r: Self)
        ensures
            r@ == Set::<Seq<char>>::empty(),
    {
        NetworkBootstrap { nodes: StringHashSet::new() }
    }

    /// Adds a node identifier. Returns `true` if the node was newly
    /// inserted, in which case the registry has grown by one; a node that
    /// is registered already leaves it as it was.
    pub fn add_node(&mut self, id: &str) -> (newly: bool)
        ensures
            final(self)@ == old(self)@.insert(id@),
            newly == !old(self)@.contains(id@),
            final(self)@.finite(),
            final(self)@.len() == old(self)@.len() + (if newly {
                1nat
            } else {
                0nat
            }),
    {
        proof {
            use_type_invariant(&*self);
        }
        let mut nodes = StringHashSet::new();
        std::mem::swap(&mut nodes, &mut self.nodes);
        let newly = nodes.insert(id.to_owned());
        self.nodes = nodes;
        newly
    }

    /// Returns `true` if the node identifier exists in the registry.
    pub fn has_node(&self, id: &str) -> (r: bool)
        ensures
            r == self@.contains(id@),
    {
        self.nodes.contains(id)
    }

    /// Returns the number of registered nodes.
    pub fn node_count(&self) -> (n: usize)
        ensures
            self@.finite(),
            n == self@.len(),
    {
        proof {
            use_type_invariant(self);
        }
        self.nodes.len()
    }
}

} // verus!
