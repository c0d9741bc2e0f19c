//! The registry's operations by name: each hashes the names it is given and
//! acts on the nodes.
use vstd::prelude::*;
use crate::hasher::{hash, hash_sub, node_of, subnode_of, MAX_NAME_LEN};
use crate::registry::{outcome, PeerName};
use crate::types::{AccountId, Error, Event, Node, Resolver};

verus! {

impl PeerName {
    /// The node of the name `domain`.
    pub fn get_node(&self, domain: Vec<u8>) -> (node: Node)
        requires
            domain@.len() <= MAX_NAME_LEN,
        ensures
            node == node_of(domain@),
    {
        hash(&domain)
    }

    /// The node of `subdomain` under `domain`.
    pub fn get_subnode(&self, domain: Vec<u8>, subdomain: Vec<u8>) -> (node: Node)
        requires
            domain@.len() <= MAX_NAME_LEN,
            subdomain@.len() <= MAX_NAME_LEN,
        ensures
            node == subnode_of(domain@, subdomain@),
    {
        hash_sub(&domain, &subdomain)
    }

    /// Registers the name `domain` for `owner` with `resolver`. Only the
    /// manager may do so, and only for a name without an owner.
    pub fn register_domain(
        &mut self,
        caller: AccountId,
        domain: Vec<u8>,
        owner: AccountId,
        resolver: Resolver,
    ) -> (result: Result<Vec<Event>, Error>)
        requires
            domain@.len() <= MAX_NAME_LEN,
            old(self)@.has_capacity(),
        ensures
            final(self)@ == old(self)@.register(caller, node_of(domain@), owner, resolver).state,
            outcome(result) == old(self)@.register(
                caller,
                node_of(domain@),
                owner,
                resolver,
            ).result,
    {
        let node = hash(&domain);
        self.register(caller, node, owner, resolver)
    }

    /// Registers `subdomain` under `domain` for `caller` with `resolver`.
    /// Only the owner of `domain` may do so, and only for a sub-name without
    /// an owner.
    pub fn set_sub_domain(
        &mut self,
        caller: AccountId,
        domain: Vec<u8>,
        subdomain: Vec<u8>,
        resolver: Resolver,
    ) -> (result: Result<Vec<Event>, Error>)
        requires
            domain@.len() <= MAX_NAME_LEN,
            subdomain@.len() <= MAX_NAME_LEN,
            old(self)@.has_capacity(),
        ensures
            final(self)@ == old(self)@.register_sub(
                caller,
                node_of(domain@),
                subnode_of(domain@, subdomain@),
                resolver,
            ).state,
            outcome(result) == old(self)@.register_sub(
                caller,
                node_of(domain@),
                subnode_of(domain@, subdomain@),
                resolver,
            ).result,
    {
        let node = hash(&domain);
        let subnode = hash_sub(&domain, &subdomain);
        self.register_sub(caller, node, subnode, resolver)
    }

    /// Sets the resolver of the name `domain`. Only its owner may do so.
    pub fn update_domain_resolver(&mut self, caller: AccountId, domain: Vec<u8>, resolver: Resolver)
        -> (result: Result<Vec<Event>, Error>)
        requires
            domain@.len() <= MAX_NAME_LEN,
            old(self)@.resolvers_have_room(),
        ensures
            final(self)@ == old(self)@.update_resolver(caller, node_of(domain@), resolver).state,
            outcome(result) == old(self)@.update_resolver(
                caller,
                node_of(domain@),
                resolver,
            ).result,
    {
        let node = hash(&domain);
        self.update_resolver(caller, node, resolver)
    }

    /// Sets the resolver of `subdomain` under `domain`. Only the owner of
    /// `domain` may do so; whether the sub-name has an owner is not asked.
    pub fn update_subdomain_resolver(
        &mut self,
        caller: AccountId,
        domain: Vec<u8>,
        resolver: Resolver,
        subdomain: Vec<u8>,
    ) -> (result: Result<Vec<Event>, Error>)
        requires
            domain@.len() <= MAX_NAME_LEN,
            subdomain@.len() <= MAX_NAME_LEN,
            old(self)@.resolvers_have_room(),
        ensures
            final(self)@ == old(self)@.update_sub_resolver(
                caller,
                node_of(domain@),
                subnode_of(domain@, subdomain@),
                resolver,
            ).state,
            outcome(result) == old(self)@.update_sub_resolver(
                caller,
                node_of(domain@),
                subnode_of(domain@, subdomain@),
                resolver,
            ).result,
    {
        let node = hash(&domain);
        let subnode = hash_sub(&domain, &subdomain);
        self.update_sub_resolver(caller, node, subnode, resolver)
    }

    /// Hands the name `domain` to `new_owner`. Only its owner may do so.
    pub fn transfer_domain_ownership(
        &mut self,
        caller: AccountId,
        domain: Vec<u8>,
        new_owner: AccountId,
    ) -> (result: Result<Vec<Event>, Error>)
        requires
            domain@.len() <= MAX_NAME_LEN,
        ensures
            final(self)@ == old(self)@.transfer(caller, node_of(domain@), new_owner).state,
            outcome(result) == old(self)@.transfer(caller, node_of(domain@), new_owner).result,
    {
        let node = hash(&domain);
        self.transfer(caller, node, new_owner)
    }

    /// Whether the name `domain` has an owner.
    pub fn is_domain_exist(&self, domain: Vec<u8>) -> (found: bool)
        requires
            domain@.len() <= MAX_NAME_LEN,
        ensures
            found == self@.has_record(node_of(domain@)),
    {
        let node = hash(&domain);
        self.has_record(&node)
    }

    /// Removes the owner of the name `domain`. Only the manager may do so.
    pub fn renounce_ownership(&mut self, caller: AccountId, domain: Vec<u8>) -> (result: Result<
        Vec<Event>,
        Error,
    >)
        requires
            domain@.len() <= MAX_NAME_LEN,
        ensures
            final(self)@ == old(self)@.renounce_by_manager(caller, node_of(domain@)).state,
            outcome(result) == old(self)@.renounce_by_manager(caller, node_of(domain@)).result,
    {
        let node = hash(&domain);
        self.renounce_by_manager(caller, node)
    }

    /// Removes the owner of the name `domain`. Only that owner may do so.
    pub fn renounce_my_ownership(&mut self, caller: AccountId, domain: Vec<u8>) -> (result: Result<
        Vec<Event>,
        Error,
    >)
        requires
            domain@.len() <= MAX_NAME_LEN,
        ensures
            final(self)@ == old(self)@.renounce_by_owner(caller, node_of(domain@)).state,
            outcome(result) == old(self)@.renounce_by_owner(caller, node_of(domain@)).result,
    {
        let node = hash(&domain);
        self.renounce_by_owner(caller, node)
    }

    /// Whether `subdomain` under `domain` has an owner.
    pub fn is_subdomain_exist(&self, domain: Vec<u8>, subdomain: Vec<u8>) -> (found: bool)
        requires
            domain@.len() <= MAX_NAME_LEN,
            subdomain@.len() <= MAX_NAME_LEN,
        ensures
            found == self@.has_record(subnode_of(domain@, subdomain@)),
    {
        let subnode = hash_sub(&domain, &subdomain);
        self.has_record(&subnode)
    }

    /// The owner of the name `domain`, if it has one.
    pub fn owner(&self, domain: Vec<u8>) -> (owner: Option<AccountId>)
        requires
            domain@.len() <= MAX_NAME_LEN,
        ensures
            owner == self@.owner_of(node_of(domain@)),
    {
        let node = hash(&domain);
        self.owner_of(&node)
    }

    /// The resolver of the name `domain`, if it has one.
    pub fn domain_resolver(&self, domain: Vec<u8>) -> (resolver: Option<Resolver>)
        requires
            domain@.len() <= MAX_NAME_LEN,
        ensures
            resolver == self@.resolver_of(node_of(domain@)),
    {
        let node = hash(&domain);
        self.resolver_of(&node)
    }

    /// The resolver of `subdomain` under `domain`, if it has one.
    pub fn subdomain_resolver(&self, domain: Vec<u8>, subdomain: Vec<u8>) -> (resolver: Option<
        Resolver,
    >)
        requires
            domain@.len() <= MAX_NAME_LEN,
            subdomain@.len() <= MAX_NAME_LEN,
        ensures
            resolver == self@.resolver_of(subnode_of(domain@, subdomain@)),
    {
        let subnode = hash_sub(&domain, &subdomain);
        self.resolver_of(&subnode)
    }
}

} // verus!
