//! The record store: the owner of each registered node and the resolver of
//! each node that has one.
use vstd::prelude::*;
use crate::node_map::{entries, lookup, NodeMap, MAX_ENTRIES};
use crate::types::{AccountId, Node, Resolver};

verus! {

/// What a record store holds, as mathematics.
pub struct StoreState {
    /// The owner of each registered node.
    pub records: Map<Node, AccountId>,
    /// The resolver of each node that has one.
    pub resolvers: Map<Node, Resolver>,
}

impl StoreState {
    /// Whether one more node can be given an owner.
    pub open spec fn records_have_room(self) -> bool {
        self.records.dom().len() < MAX_ENTRIES
    }

    /// Whether one more node can be given a resolver.
    pub open spec fn resolvers_have_room(self) -> bool {
        self.resolvers.dom().len() < MAX_ENTRIES
    }
}

/// Two maps keyed by node. Absence is `None`, never an error.
pub struct RecordStore {
    records: NodeMap,
    resolvers: NodeMap,
}

impl View for RecordStore {
    type V = StoreState;

    closed spec fn view(&self) -> StoreState {
        StoreState { records: entries(self.records), resolvers: entries(self.resolvers) }
    }
}

impl RecordStore {
    /// A store without entries.
    pub fn new() -> (store: RecordStore)
        ensures
            store@ == (StoreState { records: Map::empty(), resolvers: Map::empty() }),
    {
        RecordStore { records: NodeMap::new(), resolvers: NodeMap::new() }
    }

    /// Whether one more node can be given an owner.
    pub fn records_have_room(&self) -> (room: bool)
        ensures
            room == self@.records_have_room(),
    {
        self.records.len() < MAX_ENTRIES
    }

    /// Whether one more node can be given a resolver.
    pub fn resolvers_have_room(&self) -> (room: bool)
        ensures
            room == self@.resolvers_have_room(),
    {
        self.resolvers.len() < MAX_ENTRIES
    }

    /// Whether `node` has an owner.
    pub fn has_owner(&self, node: &Node) -> (found: bool)
        ensures
            found == self@.records.dom().contains(*node),
    {
        self.records.contains_key(node)
    }

    /// The owner of `node`, if it has one.
    pub fn owner_of(&self, node: &Node) -> (owner: Option<AccountId>)
        ensures
            owner == lookup(self@.records, *node),
    {
        self.records.get(node)
    }

    /// The resolver of `node`, if it has one.
    pub fn resolver_of(&self, node: &Node) -> (resolver: Option<Resolver>)
        ensures
            resolver == lookup(self@.resolvers, *node),
    {
        self.resolvers.get(node)
    }

    /// Makes `owner` the owner of `node`, whether or not it had one.
    pub fn set_owner(&mut self, node: Node, owner: AccountId)
        requires
            old(self)@.records.dom().contains(node) || old(self)@.records_have_room(),
        ensures
            final(self)@ == (StoreState {
                records: old(self)@.records.insert(node, owner),
                ..old(self)@
            }),
    {
        self.records.insert(node, owner);
    }

    /// Makes `resolver` the resolver of `node`, whether or not it had one.
    pub fn set_resolver(&mut self, node: Node, resolver: Resolver)
        requires
            old(self)@.resolvers.dom().contains(node) || old(self)@.resolvers_have_room(),
        ensures
            final(self)@ == (StoreState {
                resolvers: old(self)@.resolvers.insert(node, resolver),
                ..old(self)@
            }),
    {
        self.resolvers.insert(node, resolver);
    }

    /// Removes the owner of `node`, if it has one. Its resolver stays.
    pub fn remove_owner(&mut self, node: &Node)
        ensures
            final(self)@ == (StoreState {
                records: old(self)@.records.remove(*node),
                ..old(self)@
            }),
    {
        self.records.take(node);
    }
}

} // verus!
