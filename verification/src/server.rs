//! The manager's side of the protocol.

use vstd::prelude::*;

use self::node::Node;

pub mod api;
pub mod install;
pub mod laws;
pub mod node;

verus! {

/// The connection of a manager to one agent.
#[derive(Clone, Copy, Debug)]
pub struct Connection;

impl Connection {
    /// Returns the node operations of this connection.
    pub fn node(&self) -> (node: Node<'_>)
        ensures
            node.connection() == *self,
    {
        Node::new(self)
    }
}

} // verus!
