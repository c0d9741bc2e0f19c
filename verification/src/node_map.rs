//! A map from nodes to identities, kept in a hash map of the ink! storage
//! library. What it does is taken on trust from that library.
use vstd::prelude::*;
use ink_storage::collections::HashMap;
use crate::types::{Node, AccountId};

verus! {

/// The most entries that a `NodeMap` can count.
pub const MAX_ENTRIES: u32 = 0xFFFF_FFFF;

/// A map from nodes to identities, kept in an `ink_storage` hash map that is
/// made with `HashMap::new` and so lives in memory only.
#[verifier::external_body]
pub struct NodeMap {
    inner: HashMap<Node, AccountId>,
}

/// The entries that a `NodeMap` holds.
pub uninterp spec fn entries(m: NodeMap) -> Map<Node, AccountId>;

/// What a lookup of `key` in `m` gives.
pub open spec fn lookup(m: Map<Node, AccountId>, key: Node) -> Option<AccountId> {
    if m.dom().contains(key) {
        Some(m[key])
    } else {
        None
    }
}

impl NodeMap {
    /// Calls `HashMap::new`, which makes a map without entries.
    #[verifier::external_body]
    pub(crate) fn new() -> (fresh: NodeMap)
        ensures
            entries(fresh) =~= Map::empty(),
    {
        NodeMap { inner: HashMap::new() }
    }

    /// Calls `HashMap::len`, the number of keys that the map holds.
    #[verifier::external_body]
    pub(crate) fn len(&self) -> (n: u32)
        ensures
            n == entries(*self).dom().len(),
    {
        self.inner.len()
    }

    /// Calls `HashMap::contains_key`, which tells whether `key` has an entry.
    #[verifier::external_body]
    pub(crate) fn contains_key(&self, key: &Node) -> (found: bool)
        ensures
            found == entries(*self).dom().contains(*key),
    {
        self.inner.contains_key(key)
    }

    /// Calls `HashMap::get` and copies the value out: the value stored under
    /// `key`, if there is one.
    #[verifier::external_body]
    pub(crate) fn get(&self, key: &Node) -> (value: Option<AccountId>)
        ensures
            value == lookup(entries(*self), *key),
    {
        self.inner.get(key).cloned()
    }

    /// Calls `HashMap::insert`, which stores `value` under `key`, replacing
    /// what was there, and returns what was there. A new key takes a slot of
    /// a 32-bit counter, so the map must not be full when `key` is new.
    #[verifier::external_body]
    pub(crate) fn insert(&mut self, key: Node, value: AccountId) -> (previous: Option<AccountId>)
        requires
            entries(*old(self)).dom().contains(key) || entries(*old(self)).dom().len()
                < MAX_ENTRIES,
        ensures
            entries(*final(self)) == entries(*old(self)).insert(key, value),
            previous == lookup(entries(*old(self)), key),
    {
        self.inner.insert(key, value)
    }

    /// Calls `HashMap::take`, which removes the entry of `key`, if there is
    /// one, and returns its value.
    #[verifier::external_body]
    pub(crate) fn take(&mut self, key: &Node) -> (removed: Option<AccountId>)
        ensures
            entries(*final(self)) == entries(*old(self)).remove(*key),
            removed == lookup(entries(*old(self)), *key),
    {
        self.inner.take(key)
    }
}

} // verus!
