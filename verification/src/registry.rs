//! The registry: who owns a node, what it resolves to, and who may change
//! either.
use vstd::prelude::*;
use crate::node_map::{lookup, MAX_ENTRIES};
use crate::store::RecordStore;
use crate::types::{
    same_account, AccountId, ChangeManager, Error, Event, NewResolver, Node, Register, Resolver,
    Transfer,
};

verus! {

/// What a registry holds, as mathematics: the owner of each registered node,
/// the resolver of each node that has one, and the two roles.
pub struct RegistryState {
    pub records: Map<Node, AccountId>,
    pub resolvers: Map<Node, Resolver>,
    pub admin: AccountId,
    pub manager: AccountId,
}

/// What an operation leaves behind: the state after it, and either the
/// events to emit or the reason why nothing was changed.
pub struct Step {
    pub state: RegistryState,
    pub result: Result<Seq<Event>, Error>,
}

impl RegistryState {
    /// Whether `node` has an owner.
    pub open spec fn has_record(self, node: Node) -> bool {
        self.records.dom().contains(node)
    }

    /// The owner of `node`, if it has one.
    pub open spec fn owner_of(self, node: Node) -> Option<AccountId> {
        lookup(self.records, node)
    }

    /// The resolver of `node`, if it has one.
    pub open spec fn resolver_of(self, node: Node) -> Option<Resolver> {
        lookup(self.resolvers, node)
    }

    /// Whether `node` has an owner and `caller` is that owner.
    pub open spec fn is_owner(self, node: Node, caller: AccountId) -> bool {
        self.owner_of(node) == Some(caller)
    }

    pub open spec fn is_manager(self, caller: AccountId) -> bool {
        caller == self.manager
    }

    pub open spec fn is_admin(self, caller: AccountId) -> bool {
        caller == self.admin
    }

    /// Whether one more node can be given an owner.
    pub open spec fn records_have_room(self) -> bool {
        self.records.dom().len() < MAX_ENTRIES
    }

    /// Whether one more node can be given a resolver.
    pub open spec fn resolvers_have_room(self) -> bool {
        self.resolvers.dom().len() < MAX_ENTRIES
    }

    /// Whether one more node can be given an owner and a resolver.
    pub open spec fn has_capacity(self) -> bool {
        self.records_have_room() && self.resolvers_have_room()
    }

    pub open spec fn with_owner(self, node: Node, owner: AccountId) -> RegistryState {
        RegistryState { records: self.records.insert(node, owner), ..self }
    }

    pub open spec fn with_resolver(self, node: Node, resolver: Resolver) -> RegistryState {
        RegistryState { resolvers: self.resolvers.insert(node, resolver), ..self }
    }

    /// The state without the owner of `node`; its resolver stays.
    pub open spec fn without_owner(self, node: Node) -> RegistryState {
        RegistryState { records: self.records.remove(node), ..self }
    }

    /// The operation failed: nothing changes.
    pub open spec fn rejected(self, error: Error) -> Step {
        Step { state: self, result: Err(error) }
    }

    /// The manager gives the unowned `node` an owner and a resolver.
    pub open spec fn register(
        self,
        caller: AccountId,
        node: Node,
        owner: AccountId,
        resolver: Resolver,
    ) -> Step {
        if !self.is_manager(caller) {
            self.rejected(Error::UnauthorizedCaller)
        } else if self.has_record(node) {
            self.rejected(Error::NameAlreadyExists)
        } else {
            Step {
                state: self.with_owner(node, owner).with_resolver(node, resolver),
                result: Ok(
                    seq![
                        Event::Transfer(Transfer { node, owner }),
                        Event::NewResolver(NewResolver { node, resolver }),
                        Event::Register(Register { node, from: owner }),
                    ],
                ),
            }
        }
    }

    /// The owner of `parent` takes the unowned `sub` for itself and gives it
    /// a resolver.
    pub open spec fn register_sub(
        self,
        caller: AccountId,
        parent: Node,
        sub: Node,
        resolver: Resolver,
    ) -> Step {
        if !self.has_record(parent) {
            self.rejected(Error::NameNotExists)
        } else if !self.is_owner(parent, caller) {
            self.rejected(Error::UnauthorizedCaller)
        } else if self.has_record(sub) {
            self.rejected(Error::NameAlreadyExists)
        } else {
            Step {
                state: self.with_owner(sub, caller).with_resolver(sub, resolver),
                result: Ok(
                    seq![
                        Event::Transfer(Transfer { node: sub, owner: caller }),
                        Event::NewResolver(NewResolver { node: sub, resolver }),
                        Event::Register(Register { node: sub, from: caller }),
                    ],
                ),
            }
        }
    }

    /// The owner of `node` replaces its resolver.
    pub open spec fn update_resolver(self, caller: AccountId, node: Node, resolver: Resolver)
        -> Step {
        self.update_sub_resolver(caller, node, node, resolver)
    }

    /// The owner of `parent` sets the resolver of `sub`, whether or not `sub`
    /// has an owner.
    pub open spec fn update_sub_resolver(
        self,
        caller: AccountId,
        parent: Node,
        sub: Node,
        resolver: Resolver,
    ) -> Step {
        if !self.has_record(parent) {
            self.rejected(Error::NameNotExists)
        } else if !self.is_owner(parent, caller) {
            self.rejected(Error::UnauthorizedCaller)
        } else {
            Step {
                state: self.with_resolver(sub, resolver),
                result: Ok(seq![Event::NewResolver(NewResolver { node: sub, resolver })]),
            }
        }
    }

    /// The owner of `node` hands it to `new_owner`. The change of owner is
    /// reported twice: once for the owner that is stored, once for the
    /// transfer itself.
    pub open spec fn transfer(self, caller: AccountId, node: Node, new_owner: AccountId)
        -> Step {
        if !self.has_record(node) {
            self.rejected(Error::NameNotExists)
        } else if !self.is_owner(node, caller) {
            self.rejected(Error::UnauthorizedCaller)
        } else {
            Step {
                state: self.with_owner(node, new_owner),
                result: Ok(
                    seq![
                        Event::Transfer(Transfer { node, owner: new_owner }),
                        Event::Transfer(Transfer { node, owner: new_owner }),
                    ],
                ),
            }
        }
    }

    /// The manager removes the owner of `node`.
    pub open spec fn renounce_by_manager(self, caller: AccountId, node: Node) -> Step {
        if !self.is_manager(caller) {
            self.rejected(Error::UnauthorizedCaller)
        } else if !self.has_record(node) {
            self.rejected(Error::NameNotExists)
        } else {
            Step { state: self.without_owner(node), result: Ok(Seq::empty()) }
        }
    }

    /// The owner of `node` gives it up. A node without an owner has no
    /// caller that owns it, so the caller is then unauthorized.
    pub open spec fn renounce_by_owner(self, caller: AccountId, node: Node) -> Step {
        if !self.is_owner(node, caller) {
            self.rejected(Error::UnauthorizedCaller)
        } else {
            Step { state: self.without_owner(node), result: Ok(Seq::empty()) }
        }
    }

    /// The admin names a new manager.
    pub open spec fn change_manager(self, caller: AccountId, new_manager: AccountId) -> Step {
        if !self.is_admin(caller) {
            self.rejected(Error::UnauthorizedCaller)
        } else {
            Step {
                state: RegistryState { manager: new_manager, ..self },
                result: Ok(
                    seq![
                        Event::ChangeManager(
                            ChangeManager {
                                _current_manager: Some(self.manager),
                                _new_manager: Some(new_manager),
                            },
                        ),
                    ],
                ),
            }
        }
    }
}

/// The result of an operation with its events as a sequence.
pub open spec fn outcome(result: Result<Vec<Event>, Error>) -> Result<Seq<Event>, Error> {
    match result {
        Ok(events) => Ok(events@),
        Err(error) => Err(error),
    }
}

/// The name registry.
pub struct PeerName {
    /// The owners and the resolvers.
    store: RecordStore,
    /// The identity that may replace the manager.
    admin: AccountId,
    /// The identity that may register top-level names.
    manager: AccountId,
}

impl View for PeerName {
    type V = RegistryState;

    closed spec fn view(&self) -> RegistryState {
        RegistryState {
            records: self.store@.records,
            resolvers: self.store@.resolvers,
            admin: self.admin,
            manager: self.manager,
        }
    }
}

impl PeerName {
    /// A registry without names.
    pub fn default(_admin: AccountId, _manager: AccountId) -> (registry: PeerName)
        ensures
            registry@ == (RegistryState {
                records: Map::empty(),
                resolvers: Map::empty(),
                admin: _admin,
                manager: _manager,
            }),
    {
        PeerName { store: RecordStore::new(), manager: _manager, admin: _admin }
    }

    /// Whether one more node can be given an owner and a resolver.
    pub fn has_capacity(&self) -> (room: bool)
        ensures
            room == self@.has_capacity(),
    {
        self.store.records_have_room() && self.store.resolvers_have_room()
    }

    /// Whether `caller` owns `node`.
    pub fn authorized(&self, caller: &AccountId, node: &Node) -> (allowed: bool)
        ensures
            allowed == self@.is_owner(*node, *caller),
    {
        match self.store.owner_of(node) {
            Some(owner) => same_account(caller, &owner),
            None => false,
        }
    }

    /// Whether `caller` is the manager.
    pub fn is_manager(&self, caller: &AccountId) -> (allowed: bool)
        ensures
            allowed == self@.is_manager(*caller),
    {
        same_account(caller, &self.manager)
    }

    /// Whether `caller` is the admin.
    pub fn is_admin(&self, caller: &AccountId) -> (allowed: bool)
        ensures
            allowed == self@.is_admin(*caller),
    {
        same_account(caller, &self.admin)
    }

    /// Stores `owner` as the owner of `node` and reports it.
    fn _set_owner(&mut self, node: Node, owner: AccountId) -> (event: Transfer)
        requires
            old(self)@.has_record(node) || old(self)@.records_have_room(),
        ensures
            final(self)@ == old(self)@.with_owner(node, owner),
            event == (Transfer { node, owner }),
    {
        self.store.set_owner(node, owner);
        Transfer { node, owner }
    }

    /// Stores `resolver` as the resolver of `node` and reports it.
    fn _set_resolver(&mut self, node: Node, resolver: Resolver) -> (event: NewResolver)
        requires
            old(self)@.resolvers.dom().contains(node) || old(self)@.resolvers_have_room(),
        ensures
            final(self)@ == old(self)@.with_resolver(node, resolver),
            event == (NewResolver { node, resolver }),
    {
        self.store.set_resolver(node, resolver);
        NewResolver { node, resolver }
    }

    /// Whether `node` has an owner.
    pub fn has_record(&self, node: &Node) -> (found: bool)
        ensures
            found == self@.has_record(*node),
    {
        self.store.has_owner(node)
    }

    /// The owner of `node`, if it has one.
    pub fn owner_of(&self, node: &Node) -> (owner: Option<AccountId>)
        ensures
            owner == self@.owner_of(*node),
    {
        self.store.owner_of(node)
    }

    /// The resolver of `node`, if it has one.
    pub fn resolver_of(&self, node: &Node) -> (resolver: Option<Resolver>)
        ensures
            resolver == self@.resolver_of(*node),
    {
        self.store.resolver_of(node)
    }

    /// Registers `node` for `owner` with `resolver`, on behalf of `caller`.
    /// Only the manager may do so, and only for a node without an owner.
    pub fn register(
        &mut self,
        caller: AccountId,
        node: Node,
        owner: AccountId,
        resolver: Resolver,
    ) -> (result: Result<Vec<Event>, Error>)
        requires
            old(self)@.has_capacity(),
        ensures
            final(self)@ == old(self)@.register(caller, node, owner, resolver).state,
            outcome(result) == old(self)@.register(caller, node, owner, resolver).result,
    {
        if !self.is_manager(&caller) {
            return Err(Error::UnauthorizedCaller);
        }
        if self.has_record(&node) {
            return Err(Error::NameAlreadyExists);
        }
        let mut events: Vec<Event> = Vec::new();
        events.push(Event::Transfer(self._set_owner(node, owner)));
        events.push(Event::NewResolver(self._set_resolver(node, resolver)));
        events.push(Event::Register(Register { node, from: owner }));
        assert(events@ =~= old(self)@.register(caller, node, owner, resolver).result->Ok_0);
        Ok(events)
    }

    /// Registers `sub` for `caller` with `resolver`. Only the owner of
    /// `parent` may do so, and only for a node without an owner.
    pub fn register_sub(&mut self, caller: AccountId, parent: Node, sub: Node, resolver: Resolver)
        -> (result: Result<Vec<Event>, Error>)
        requires
            old(self)@.has_capacity(),
        ensures
            final(self)@ == old(self)@.register_sub(caller, parent, sub, resolver).state,
            outcome(result) == old(self)@.register_sub(caller, parent, sub, resolver).result,
    {
        if !self.has_record(&parent) {
            return Err(Error::NameNotExists);
        }
        if !self.authorized(&caller, &parent) {
            return Err(Error::UnauthorizedCaller);
        }
        if self.has_record(&sub) {
            return Err(Error::NameAlreadyExists);
        }
        let mut events: Vec<Event> = Vec::new();
        events.push(Event::Transfer(self._set_owner(sub, caller)));
        events.push(Event::NewResolver(self._set_resolver(sub, resolver)));
        events.push(Event::Register(Register { node: sub, from: caller }));
        assert(events@ =~= old(self)@.register_sub(caller, parent, sub, resolver).result->Ok_0);
        Ok(events)
    }

    /// Sets the resolver of `sub`. Only the owner of `parent` may do so;
    /// whether `sub` itself has an owner is not asked.
    pub fn update_sub_resolver(
        &mut self,
        caller: AccountId,
        parent: Node,
        sub: Node,
        resolver: Resolver,
    ) -> (result: Result<Vec<Event>, Error>)
        requires
            old(self)@.resolvers_have_room(),
        ensures
            final(self)@ == old(self)@.update_sub_resolver(caller, parent, sub, resolver).state,
            outcome(result) == old(self)@.update_sub_resolver(
                caller,
                parent,
                sub,
                resolver,
            ).result,
    {
        if !self.has_record(&parent) {
            return Err(Error::NameNotExists);
        }
        if !self.authorized(&caller, &parent) {
            return Err(Error::UnauthorizedCaller);
        }
        let mut events: Vec<Event> = Vec::new();
        events.push(Event::NewResolver(self._set_resolver(sub, resolver)));
        assert(events@ =~= old(self)@.update_sub_resolver(
            caller,
            parent,
            sub,
            resolver,
        ).result->Ok_0);
        Ok(events)
    }

    /// Sets the resolver of `node`. Only its owner may do so.
    pub fn update_resolver(&mut self, caller: AccountId, node: Node, resolver: Resolver) -> (result:
        Result<Vec<Event>, Error>)
        requires
            old(self)@.resolvers_have_room(),
        ensures
            final(self)@ == old(self)@.update_resolver(caller, node, resolver).state,
            outcome(result) == old(self)@.update_resolver(caller, node, resolver).result,
    {
        self.update_sub_resolver(caller, node, node, resolver)
    }

    /// Hands `node` to `new_owner`. Only its owner may do so.
    pub fn transfer(&mut self, caller: AccountId, node: Node, new_owner: AccountId) -> (result:
        Result<Vec<Event>, Error>)
        ensures
            final(self)@ == old(self)@.transfer(caller, node, new_owner).state,
            outcome(result) == old(self)@.transfer(caller, node, new_owner).result,
    {
        if !self.has_record(&node) {
            return Err(Error::NameNotExists);
        }
        if !self.authorized(&caller, &node) {
            return Err(Error::UnauthorizedCaller);
        }
        let mut events: Vec<Event> = Vec::new();
        events.push(Event::Transfer(self._set_owner(node, new_owner)));
        events.push(Event::Transfer(Transfer { node, owner: new_owner }));
        assert(events@ =~= old(self)@.transfer(caller, node, new_owner).result->Ok_0);
        Ok(events)
    }

    /// Removes the owner of `node`. Only the manager may do so.
    pub fn renounce_by_manager(&mut self, caller: AccountId, node: Node) -> (result: Result<
        Vec<Event>,
        Error,
    >)
        ensures
            final(self)@ == old(self)@.renounce_by_manager(caller, node).state,
            outcome(result) == old(self)@.renounce_by_manager(caller, node).result,
    {
        if !self.is_manager(&caller) {
            return Err(Error::UnauthorizedCaller);
        }
        if !self.has_record(&node) {
            return Err(Error::NameNotExists);
        }
        self.store.remove_owner(&node);
        Ok(Vec::new())
    }

    /// Removes the owner of `node`. Only that owner may do so.
    pub fn renounce_by_owner(&mut self, caller: AccountId, node: Node) -> (result: Result<
        Vec<Event>,
        Error,
    >)
        ensures
            final(self)@ == old(self)@.renounce_by_owner(caller, node).state,
            outcome(result) == old(self)@.renounce_by_owner(caller, node).result,
    {
        if !self.authorized(&caller, &node) {
            return Err(Error::UnauthorizedCaller);
        }
        self.store.remove_owner(&node);
        Ok(Vec::new())
    }

    /// Current manager of the registry.
    pub fn current_manager(&self) -> (manager: AccountId)
        ensures
            manager == self@.manager,
    {
        self.manager
    }

    /// Admin of the registry.
    pub fn admin(&self) -> (admin: AccountId)
        ensures
            admin == self@.admin,
    {
        self.admin
    }

    /// Replaces the manager. Only the admin may do so.
    pub fn change_manager(&mut self, caller: AccountId, _manager: AccountId) -> (result: Result<
        Vec<Event>,
        Error,
    >)
        ensures
            final(self)@ == old(self)@.change_manager(caller, _manager).state,
            outcome(result) == old(self)@.change_manager(caller, _manager).result,
    {
        if !self.is_admin(&caller) {
            return Err(Error::UnauthorizedCaller);
        }
        let previous = self.manager;
        self.manager = _manager;
        let mut events: Vec<Event> = Vec::new();
        events.push(
            Event::ChangeManager(
                ChangeManager { _current_manager: Some(previous), _new_manager: Some(_manager) },
            ),
        );
        assert(events@ =~= old(self)@.change_manager(caller, _manager).result->Ok_0);
        Ok(events)
    }
}

} // verus!
