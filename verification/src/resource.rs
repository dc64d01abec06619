//! Resource identifiers and the resource registry.
//!
//! A [`ResourceId`] names one resource instance held by the registry.
//! [`Resources`] is the registry itself: a mapping from identifiers to
//! cells holding the resource values.  Tasks never construct the
//! registry; they only read from it through a bundle's fetch operation
//! and write back through its release operation.

use vstd::prelude::*;

verus! {

broadcast use vstd::std_specs::hash::group_hash_axioms;

/// An opaque, comparable identifier for a distinct resource instance
/// held by the registry.  Uniqueness is the registry's concern, not
/// this crate's.
#[derive(Clone, Copy, PartialEq, Eq, Hash, Debug, Structural)]
pub struct ResourceId {
    id: u64,
}

impl ResourceId {
    /// The numeric value this identifier stands for, in specifications.
    pub closed spec fn view(&self) -> u64 {
        self.id
    }

    /// Makes the identifier naming the given numeric value.
    pub fn new(id: u64) -> (r: ResourceId)
        ensures
            r@ == id,
    {
        ResourceId { id }
    }

    /// The numeric value this identifier stands for.
    pub fn value(&self) -> (v: u64)
        ensures
            v == self@,
    {
        self.id
    }
}

/// The resource registry: a mapping from resource identifiers to the
/// stored resource values.  In specifications it is viewed as a
/// `Map<u64, u64>` from identifier values to cell contents.
pub struct Resources {
    cells: std::collections::HashMap<u64, u64>,
}

impl View for Resources {
    type V = Map<u64, u64>;

    closed spec fn view(&self) -> Map<u64, u64> {
        self.cells@
    }
}

impl Resources {
    /// Makes an empty registry.
    pub fn new() -> (r: Resources)
        ensures
            r@ == Map::<u64, u64>::empty(),
    {
        Resources { cells: std::collections::HashMap::new() }
    }

    /// Adds a resource under the given identifier, or replaces the
    /// stored value if the identifier is already present.
    pub fn insert(&mut self, id: ResourceId, value: u64)
        ensures
            final(self)@ == old(self)@.insert(id@, value),
    {
        self.cells.insert(id.value(), value);
    }

    /// Whether a resource is stored under the given identifier.
    pub fn contains(&self, id: ResourceId) -> (r: bool)
        ensures
            r == self@.contains_key(id@),
    {
        self.cells.contains_key(&id.value())
    }

    /// Reads the resource stored under the given identifier.
    pub fn read(&self, id: ResourceId) -> (v: u64)
        requires
            self@.contains_key(id@),
        ensures
            v == self@[id@],
    {
        *self.cells.get(&id.value()).unwrap()
    }

    /// Overwrites the resource stored under the given identifier.
    pub fn write(&mut self, id: ResourceId, value: u64)
        requires
            old(self)@.contains_key(id@),
        ensures
            final(self)@ == old(self)@.insert(id@, value),
    {
        self.cells.insert(id.value(), value);
    }
}

} // verus!
