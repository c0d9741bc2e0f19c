//! A hierarchical name registry: names and one level of sub-names are hashed
//! to fixed-width nodes, and each node maps to an owner and to a resolver.
//!
//! - [`hasher`] derives the node of a name and of a sub-name.
//! - [`store`] keeps the owner and the resolver of each node.
//! - [`registry`] decides who may change them, node by node; [`names`] offers
//!   the same operations by name.
//! - [`laws`] states what holds of the operations, whatever the state.
pub mod hasher;
pub mod laws;
pub mod names;
pub mod node_map;
pub mod registry;
pub mod store;
pub mod types;

pub use crate::registry::{PeerName, RegistryState, Step};
pub use crate::types::{
    AccountId, ChangeManager, Error, Event, NewOwner, NewResolver, Node, Register, Resolver,
    SetAddress, SubNode, Transfer,
};
