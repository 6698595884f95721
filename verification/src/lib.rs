//! Addressed, verified message passing for hierarchical state.
//!
//! A state tree is addressed by [`packet::Key`]s: a [`packet::Consist`] (the node's id and the
//! number of collection levels above it) and a [`packet::Transient`] (the index chosen at each
//! collection level). Messages are routed down the tree by id deltas and wrapped up the tree
//! by the indices recorded in the transient part of their key.

pub mod packet;
pub mod message;
pub mod terminal;
pub mod vec;
pub mod result;
pub mod callback;
pub mod node;
pub mod proxy;
pub mod consensus;
pub mod component;
pub mod lookup;
