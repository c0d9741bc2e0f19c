//! Identities, errors and the events that the registry reports.
use vstd::prelude::*;

verus! {

/// A 16-byte node identifier.
pub type Node = [u8; 16];

/// A 32-byte account identity.
pub type AccountId = [u8; 32];

/// What a name points to; opaque to the registry.
pub type Resolver = AccountId;

#[derive(Debug, PartialEq, Eq, Copy, Clone, Structural)]
pub enum Error {
    NotOwner,
    NotApproved,
    TokenExists,
    TokenNotFound,
    CannotInsert,
    CannotRemove,
    CannotFetchValue,
    NotAllowed,
    /// The caller lacks the role or the ownership that the operation asks for.
    UnauthorizedCaller,
    /// The name already has an owner.
    NameAlreadyExists,
    /// The name has no owner.
    NameNotExists,
    CallerIsNotOwner,
}

#[derive(Debug, PartialEq, Eq, Copy, Clone)]
pub struct NewOwner {
    pub node: Node,
    pub owner: AccountId,
}

#[derive(Debug, PartialEq, Eq, Copy, Clone)]
pub struct SubNode {
    pub owner: AccountId,
    pub node: Node,
    pub subnode: Node,
}

/// A node's resolver was set.
#[derive(Debug, PartialEq, Eq, Copy, Clone)]
pub struct NewResolver {
    pub node: Node,
    pub resolver: Resolver,
}

/// A node's owner was set.
#[derive(Debug, PartialEq, Eq, Copy, Clone)]
pub struct Transfer {
    pub node: Node,
    pub owner: AccountId,
}

/// The admin replaced the manager.
#[derive(Debug, PartialEq, Eq, Copy, Clone)]
pub struct ChangeManager {
    pub _current_manager: Option<AccountId>,
    pub _new_manager: Option<AccountId>,
}

/// A name was registered.
#[derive(Debug, PartialEq, Eq, Copy, Clone)]
pub struct Register {
    pub node: Node,
    pub from: AccountId,
}

#[derive(Debug, PartialEq, Eq, Copy, Clone)]
pub struct SetAddress {
    pub name: Node,
    pub from: AccountId,
    pub old_address: Option<AccountId>,
    pub new_address: AccountId,
}

/// An event that an operation of the registry reports, for the host to emit.
#[derive(Debug, PartialEq, Eq, Copy, Clone)]
pub enum Event {
    Transfer(Transfer),
    NewResolver(NewResolver),
    Register(Register),
    ChangeManager(ChangeManager),
}

/// Whether two identities are the same.
pub fn same_account(a: &AccountId, b: &AccountId) -> (same: bool)
    ensures
        same == (*a == *b),
{
    let mut i: usize = 0;
    while i < 32
        invariant
            i <= 32,
            forall|j: int| 0 <= j < i ==> a[j] == b[j],
        decreases 32 - i,
    {
        if a[i] != b[i] {
            return false;
        }
        i += 1;
    }
    assert(*a =~= *b);
    true
}

} // verus!
