//! The position of a node in a state tree, and what it emits from there.

use vstd::prelude::*;
use crate::callback::{Callback, CallbackMode, Emission};
use crate::message::Message;
use crate::packet::{
    ALT_DEPTH_SIZE, AltIndex, Consist, ConsistView, Key, Transient,
};

verus! {

/// A node of a state tree seen from one position: its consist, the indices chosen at the
/// collection levels above it, and the sink its messages take.
#[derive(Debug, Clone, Copy)]
pub struct NodeAlt {
    consist: Consist,
    transient: Transient,
    callback_mode: CallbackMode,
}

/// A node that can be placed: built from its emitting side, the sink its messages take, and
/// the indices chosen above it.
pub trait NewNode<E>: Sized {
    fn new(emitter: &E, callback_mode: CallbackMode, transient: Transient) -> Self;
}

impl NewNode<Callback> for NodeAlt {
    /// The node that emits through `emitter` at `transient`, into the sink `callback_mode`.
    fn new(emitter: &Callback, callback_mode: CallbackMode, transient: Transient) -> (r: NodeAlt)
        ensures
            r@ == (emitter@, transient@, callback_mode),
    {
        NodeAlt { consist: emitter.consist(), transient, callback_mode }
    }
}

/// Mathematical view of a node position: (consist, transient, callback mode).
pub type NodeView = (ConsistView, Seq<u32>, CallbackMode);

impl View for NodeAlt {
    type V = NodeView;

    closed spec fn view(&self) -> NodeView {
        (self.consist@, self.transient@, self.callback_mode)
    }
}

impl NodeAlt {
    pub fn consist(&self) -> (r: Consist)
        ensures
            r@ == self@.0,
    {
        self.consist
    }

    pub fn transient(&self) -> (r: Transient)
        ensures
            r@ == self@.1,
    {
        self.transient
    }

    pub fn callback_mode(&self) -> (r: CallbackMode)
        ensures
            r == self@.2,
    {
        self.callback_mode
    }

    /// The key that addresses this node.
    pub fn key(&self) -> (r: Key)
        ensures
            r@ == (self@.0, self@.1),
    {
        Key::new(self.consist, self.transient)
    }

    /// This node at item `index` of the collection whose consist is `parent_consist`.
    pub fn alt(&self, parent_consist: &Consist, index: AltIndex) -> (r: NodeAlt)
        requires
            parent_consist@.1 < ALT_DEPTH_SIZE,
        ensures
            r@ == (self@.0, self@.1.update(parent_consist@.1 as int, index), self@.2),
    {
        NodeAlt {
            consist: self.consist,
            transient: self.transient.alt(parent_consist.alt_depth(), index),
            callback_mode: self.callback_mode,
        }
    }

    /// Emits the message that sets this node's state to `state`.
    pub fn emit<M: Message>(&self, state: M::State) -> (r: Emission<M>)
        ensures
            r.mode == self@.2,
            r.packet.key@ == (self@.0, self@.1),
            r.packet.instant is None,
            forall|before: <M::State as DeepView>::V| #[trigger] r.packet.message.spec_apply(before) == state.deep_view(),
    {
        let callback = Callback::new(self.consist);
        callback.emit(&self.callback_mode, &self.transient, M::into_message(state))
    }

    /// Emits `message` from this node.
    pub fn emit_message<M>(&self, message: M) -> (r: Emission<M>)
        ensures
            r.mode == self@.2,
            r.packet.key@ == (self@.0, self@.1),
            r.packet.instant is None,
            r.packet.message == message,
    {
        let callback = Callback::new(self.consist);
        callback.emit(&self.callback_mode, &self.transient, message)
    }
}

} // verus!
