//! What holds of the registry's operations, whatever the state and the caller.
use vstd::prelude::*;
use crate::hasher::{
    blake2x128, lemma_name_bytes_injective, lemma_pair_bytes_differ_from_name_bytes,
    lemma_pair_bytes_injective, name_bytes, node_of, pair_bytes, subnode_of, MAX_NAME_LEN,
};
use crate::registry::RegistryState;
use crate::types::{AccountId, Error, Node, Resolver};

verus! {

/// Two byte strings that differ and yet have the same digest.
pub open spec fn collision(x: Seq<u8>, y: Seq<u8>) -> bool {
    x != y && blake2x128(x) == blake2x128(y)
}

/// Two different names have the same node only where the digest collides.
pub proof fn law_names_share_a_node_only_by_collision(a: Seq<u8>, b: Seq<u8>)
    requires
        a.len() <= MAX_NAME_LEN,
        b.len() <= MAX_NAME_LEN,
    ensures
        a != b && node_of(a) == node_of(b) ==> collision(name_bytes(a), name_bytes(b)),
{
    if name_bytes(a) == name_bytes(b) {
        lemma_name_bytes_injective(a, b);
    }
}

/// The node of a sub-name is the node of a top-level name, be it the parent,
/// the sub-name or any other, only where the digest collides.
pub proof fn law_subnode_is_a_node_only_by_collision(
    parent: Seq<u8>,
    sub: Seq<u8>,
    name: Seq<u8>,
)
    requires
        parent.len() <= MAX_NAME_LEN,
        sub.len() <= MAX_NAME_LEN,
        name.len() <= MAX_NAME_LEN,
    ensures
        subnode_of(parent, sub) == node_of(name) ==> collision(
            pair_bytes(parent, sub),
            name_bytes(name),
        ),
{
    lemma_pair_bytes_differ_from_name_bytes(parent, sub, name);
}

/// Two different pairs of parent and sub-name, such as a pair and the same
/// pair swapped, have the same node only where the digest collides.
pub proof fn law_pairs_share_a_subnode_only_by_collision(
    parent: Seq<u8>,
    sub: Seq<u8>,
    other_parent: Seq<u8>,
    other_sub: Seq<u8>,
)
    requires
        parent.len() <= MAX_NAME_LEN,
        sub.len() <= MAX_NAME_LEN,
        other_parent.len() <= MAX_NAME_LEN,
        other_sub.len() <= MAX_NAME_LEN,
    ensures
        (parent != other_parent || sub != other_sub) && subnode_of(parent, sub) == subnode_of(
            other_parent,
            other_sub,
        ) ==> collision(pair_bytes(parent, sub), pair_bytes(other_parent, other_sub)),
{
    if pair_bytes(parent, sub) == pair_bytes(other_parent, other_sub) {
        lemma_pair_bytes_injective(parent, sub, other_parent, other_sub);
    }
}

/// An operation that fails changes nothing: the state after it is the state
/// before it.
pub proof fn law_failure_changes_nothing(
    before: RegistryState,
    caller: AccountId,
    node: Node,
    sub: Node,
    who: AccountId,
    resolver: Resolver,
)
    ensures
        before.register(caller, node, who, resolver).result is Err ==> before.register(
            caller,
            node,
            who,
            resolver,
        ).state == before,
        before.register_sub(caller, node, sub, resolver).result is Err ==> before.register_sub(
            caller,
            node,
            sub,
            resolver,
        ).state == before,
        before.update_resolver(caller, node, resolver).result is Err ==> before.update_resolver(
            caller,
            node,
            resolver,
        ).state == before,
        before.update_sub_resolver(caller, node, sub, resolver).result is Err
            ==> before.update_sub_resolver(caller, node, sub, resolver).state == before,
        before.transfer(caller, node, who).result is Err ==> before.transfer(
            caller,
            node,
            who,
        ).state == before,
        before.renounce_by_manager(caller, node).result is Err ==> before.renounce_by_manager(
            caller,
            node,
        ).state == before,
        before.renounce_by_owner(caller, node).result is Err ==> before.renounce_by_owner(
            caller,
            node,
        ).state == before,
        before.change_manager(caller, who).result is Err ==> before.change_manager(
            caller,
            who,
        ).state == before,
{
}

/// When the manager registers a name that already has an owner, the
/// registration fails with `NameAlreadyExists`, whatever owner and resolver
/// are asked for.
pub proof fn law_owned_name_is_not_registered_again(
    before: RegistryState,
    caller: AccountId,
    name: Seq<u8>,
    owner: AccountId,
    resolver: Resolver,
)
    requires
        before.has_record(node_of(name)),
        before.is_manager(caller),
    ensures
        before.register(caller, node_of(name), owner, resolver) == before.rejected(
            Error::NameAlreadyExists,
        ),
{
}

/// Only the manager registers: any other caller is refused with
/// `UnauthorizedCaller`, and neither the maps nor the roles change.
pub proof fn law_only_manager_registers(
    before: RegistryState,
    caller: AccountId,
    name: Seq<u8>,
    owner: AccountId,
    resolver: Resolver,
)
    ensures
        !before.is_manager(caller) ==> before.register(caller, node_of(name), owner, resolver)
            == before.rejected(Error::UnauthorizedCaller),
        before.register(caller, node_of(name), owner, resolver).result is Ok
            ==> before.is_manager(caller),
{
}

/// After a registration that succeeded, the name has an owner, the owner is
/// the one that was asked for, and so is the resolver.
pub proof fn law_registered_name_is_found(
    before: RegistryState,
    caller: AccountId,
    name: Seq<u8>,
    owner: AccountId,
    resolver: Resolver,
)
    requires
        before.register(caller, node_of(name), owner, resolver).result is Ok,
    ensures
        ({
            let after = before.register(caller, node_of(name), owner, resolver).state;
            &&& after.has_record(node_of(name))
            &&& after.owner_of(node_of(name)) == Some(owner)
            &&& after.resolver_of(node_of(name)) == Some(resolver)
        }),
{
}

/// A caller that does not own a registered name cannot transfer it.
pub proof fn law_transfer_needs_the_owner(
    before: RegistryState,
    caller: AccountId,
    name: Seq<u8>,
    new_owner: AccountId,
)
    requires
        before.has_record(node_of(name)),
        !before.is_owner(node_of(name), caller),
    ensures
        before.transfer(caller, node_of(name), new_owner) == before.rejected(
            Error::UnauthorizedCaller,
        ),
{
}

/// The owner's transfer succeeds and the name then belongs to the new owner.
/// Unless the owner transferred the name to itself, it can afterwards neither
/// transfer the name nor renounce it.
pub proof fn law_transfer_moves_ownership(
    before: RegistryState,
    caller: AccountId,
    name: Seq<u8>,
    new_owner: AccountId,
    next_owner: AccountId,
)
    requires
        before.is_owner(node_of(name), caller),
    ensures
        ({
            let node = node_of(name);
            let step = before.transfer(caller, node, new_owner);
            &&& step.result is Ok
            &&& step.state.owner_of(node) == Some(new_owner)
            &&& new_owner != caller ==> step.state.transfer(caller, node, next_owner)
                == step.state.rejected(Error::UnauthorizedCaller)
            &&& new_owner != caller ==> step.state.renounce_by_owner(caller, node)
                == step.state.rejected(Error::UnauthorizedCaller)
        }),
{
}

/// After the manager or the owner renounced a name, the name has no owner,
/// its resolver is what it was, and the manager can register the name anew.
pub proof fn law_renounced_name_is_free(
    before: RegistryState,
    caller: AccountId,
    name: Seq<u8>,
    owner: AccountId,
    resolver: Resolver,
)
    ensures
        ({
            let node = node_of(name);
            let by_manager = before.renounce_by_manager(caller, node);
            let by_owner = before.renounce_by_owner(caller, node);
            &&& by_manager.result is Ok ==> {
                &&& !by_manager.state.has_record(node)
                &&& by_manager.state.resolver_of(node) == before.resolver_of(node)
                &&& by_manager.state.register(before.manager, node, owner, resolver).result is Ok
            }
            &&& by_owner.result is Ok ==> {
                &&& !by_owner.state.has_record(node)
                &&& by_owner.state.resolver_of(node) == before.resolver_of(node)
                &&& by_owner.state.register(before.manager, node, owner, resolver).result is Ok
            }
        }),
{
}

/// A sub-name cannot be registered under a parent without an owner
/// (`NameNotExists`), nor by a caller that is not the parent's owner
/// (`UnauthorizedCaller`).
pub proof fn law_sub_name_needs_the_parent_owner(
    before: RegistryState,
    caller: AccountId,
    parent: Seq<u8>,
    sub: Seq<u8>,
    resolver: Resolver,
)
    ensures
        ({
            let node = node_of(parent);
            let step = before.register_sub(caller, node, subnode_of(parent, sub), resolver);
            &&& !before.has_record(node) ==> step == before.rejected(Error::NameNotExists)
            &&& before.has_record(node) && !before.is_owner(node, caller) ==> step
                == before.rejected(Error::UnauthorizedCaller)
        }),
{
}

/// An owner that transferred the parent to someone else can no longer
/// register sub-names under it, nor set their resolvers; the new owner can
/// set them.
pub proof fn law_sub_names_follow_the_parent(
    before: RegistryState,
    caller: AccountId,
    parent: Seq<u8>,
    new_owner: AccountId,
    sub: Seq<u8>,
    resolver: Resolver,
)
    requires
        before.is_owner(node_of(parent), caller),
        new_owner != caller,
    ensures
        ({
            let node = node_of(parent);
            let subnode = subnode_of(parent, sub);
            let after = before.transfer(caller, node, new_owner).state;
            &&& after.register_sub(caller, node, subnode, resolver) == after.rejected(
                Error::UnauthorizedCaller,
            )
            &&& after.update_sub_resolver(caller, node, subnode, resolver) == after.rejected(
                Error::UnauthorizedCaller,
            )
            &&& after.update_sub_resolver(new_owner, node, subnode, resolver).result is Ok
            &&& !after.has_record(subnode) ==> after.register_sub(
                new_owner,
                node,
                subnode,
                resolver,
            ).result is Ok
        }),
{
}

/// Only the admin replaces the manager: any other caller is refused with
/// `UnauthorizedCaller` and the manager stays. After the admin's change, a
/// registration succeeds only for the new manager.
pub proof fn law_only_admin_changes_manager(
    before: RegistryState,
    caller: AccountId,
    new_manager: AccountId,
    registrant: AccountId,
    name: Seq<u8>,
    owner: AccountId,
    resolver: Resolver,
)
    ensures
        ({
            let step = before.change_manager(caller, new_manager);
            &&& !before.is_admin(caller) ==> step == before.rejected(Error::UnauthorizedCaller)
            &&& before.is_admin(caller) ==> {
                &&& step.result is Ok
                &&& step.state.manager == new_manager
                &&& step.state.admin == before.admin
                &&& registrant != new_manager ==> step.state.register(
                    registrant,
                    node_of(name),
                    owner,
                    resolver,
                ) == step.state.rejected(Error::UnauthorizedCaller)
                &&& !step.state.has_record(node_of(name)) ==> step.state.register(
                    new_manager,
                    node_of(name),
                    owner,
                    resolver,
                ).result is Ok
            }
        }),
{
}

/// The admin never changes, and the manager changes only when the admin
/// names a new one.
pub proof fn law_roles_change_only_by_change_manager(
    before: RegistryState,
    caller: AccountId,
    node: Node,
    sub: Node,
    who: AccountId,
    resolver: Resolver,
)
    ensures
        ({
            let kept = |after: RegistryState|
                after.admin == before.admin && after.manager == before.manager;
            &&& kept(before.register(caller, node, who, resolver).state)
            &&& kept(before.register_sub(caller, node, sub, resolver).state)
            &&& kept(before.update_resolver(caller, node, resolver).state)
            &&& kept(before.update_sub_resolver(caller, node, sub, resolver).state)
            &&& kept(before.transfer(caller, node, who).state)
            &&& kept(before.renounce_by_manager(caller, node).state)
            &&& kept(before.renounce_by_owner(caller, node).state)
            &&& before.change_manager(caller, who).state.admin == before.admin
        }),
{
}

/// Each node goes its own way: an operation changes the owner and the
/// resolver of no node but the one it is about, which for the operations
/// on sub-names is the sub-node.
pub proof fn law_other_nodes_are_untouched(
    before: RegistryState,
    caller: AccountId,
    node: Node,
    sub: Node,
    who: AccountId,
    resolver: Resolver,
    other: Node,
)
    ensures
        ({
            let same = |after: RegistryState|
                after.owner_of(other) == before.owner_of(other) && after.resolver_of(other)
                    == before.resolver_of(other);
            &&& other != node ==> {
                &&& same(before.register(caller, node, who, resolver).state)
                &&& same(before.update_resolver(caller, node, resolver).state)
                &&& same(before.transfer(caller, node, who).state)
                &&& same(before.renounce_by_manager(caller, node).state)
                &&& same(before.renounce_by_owner(caller, node).state)
            }
            &&& other != sub ==> {
                &&& same(before.register_sub(caller, node, sub, resolver).state)
                &&& same(before.update_sub_resolver(caller, node, sub, resolver).state)
            }
            &&& same(before.change_manager(caller, who).state)
        }),
{
}

} // verus!
