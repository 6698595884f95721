//! Proxy states: a node that stands for another node of the tree, chosen at run time.

use vstd::prelude::*;
use std::marker::PhantomData;
use crate::packet::{AltSize, Key, Packet, key_id};
use crate::result::PacketError;

verus! {

/// The state of a proxy node: it holds nothing of its own.
#[derive(Debug)]
pub struct Proxy<S> {
    phantom: PhantomData<S>,
}

/// A message of a proxy node.
#[derive(Debug)]
pub enum Message<S> {
    /// Replaces the proxy's state.
    State(Proxy<S>),
}

impl<S> Proxy<S> {
    pub fn new() -> (r: Proxy<S>) {
        Proxy { phantom: PhantomData }
    }
}

impl<S> Clone for Proxy<S> {
    fn clone(&self) -> (r: Proxy<S>) {
        Proxy::new()
    }
}

impl<S> Default for Proxy<S> {
    fn default() -> (r: Proxy<S>) {
        Proxy::new()
    }
}

impl<S> DeepView for Proxy<S> {
    type V = ();

    open spec fn deep_view(&self) -> () {
        ()
    }
}

impl<S> crate::message::Message for Message<S> {
    type State = Proxy<S>;

    open spec fn spec_apply(&self, state: ()) -> () {
        ()
    }

    open spec fn spec_default_state() -> () {
        ()
    }

    open spec fn spec_node_alt_size() -> AltSize {
        0
    }

    fn apply_to(&self, state: &mut Proxy<S>) {
        match self {
            Message::State(_) => *state = Proxy::new(),
        }
    }

    fn default_state() -> (r: Proxy<S>) {
        Proxy::new()
    }

    fn clone_state(state: &Proxy<S>) -> (r: Proxy<S>) {
        Proxy::new()
    }

    fn node_alt_size() -> (r: AltSize) {
        0
    }

    fn into_message(state: Proxy<S>) -> (r: Message<S>)
        ensures
            r == Message::State(state),
    {
        Message::State(state)
    }
}

/// The text of the error of a packet a proxy node cannot take: the name of the proxy's
/// message type, then `: unknown id_delta`.
pub open spec fn unknown_id_delta_text(message_type: Seq<char>) -> Seq<char> {
    message_type + ": unknown id_delta"@
}

/// Checks that `packet`, read below the proxy node at `parent_key` at `depth`, is addressed
/// to the proxy itself: a proxy has no children, so any other id is an error that names
/// the packet, the id delta and the depth, in a text that starts with `message_type`, the
/// name of the proxy's message type as the caller spells it.
pub fn route<S>(packet: &Packet, parent_key: &Key, depth: usize, message_type: &str) -> (r: Result<(), PacketError>)
    requires
        key_id(parent_key@) <= key_id(packet@.0),
    ensures
        (key_id(packet@.0) == key_id(parent_key@)) <==> r is Ok,
        r matches Err(e) ==> {
            &&& e@.0 == packet@
            &&& e@.1 == Some((key_id(packet@.0) - key_id(parent_key@)) as u32)
            &&& e@.2 == Some(depth)
            &&& e@.3 == unknown_id_delta_text(message_type@)
        },
{
    let id_delta = packet.key().consist().id().sub(parent_key.consist().id());
    if id_delta == 0 {
        Ok(())
    } else {
        let mut text = String::from_str(message_type);
        text.append(": unknown id_delta");
        Err(PacketError::new(packet.clone(), Some(id_delta), Some(depth), text.as_str()))
    }
}

} // verus!
