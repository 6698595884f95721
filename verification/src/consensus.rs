//! The state a component agrees on, and the root node through which it is reached.

use vstd::prelude::*;
use crate::callback::{Callback, CallbackMode};
use crate::message::Message;
use crate::node::{NewNode, NodeAlt};
use crate::packet::{Consist, Transient};

verus! {

/// The root state of a component, with the position of its root node.
#[derive(Debug)]
pub struct Consensus<M: Message> {
    callback: Callback,
    transient: Transient,
    consensus: M::State,
}

impl<M: Message> Consensus<M> {
    /// The state held.
    pub closed spec fn state_view(&self) -> <M::State as DeepView>::V {
        self.consensus.deep_view()
    }

    /// The root node's callback: the root consist.
    pub closed spec fn callback_view(&self) -> Callback {
        self.callback
    }

    /// The root node's transient.
    pub closed spec fn transient_view(&self) -> Transient {
        self.transient
    }

    /// A consensus on `state`, whose root node is at the default consist and transient.
    pub fn new(state: M::State) -> (r: Consensus<M>)
        ensures
            r.state_view() == state.deep_view(),
            r.callback_view()@ == (0u32, 0u32),
            r.transient_view()@ == seq![0u32, 0u32, 0u32, 0u32],
    {
        Consensus {
            callback: Callback::new(Consist::default()),
            transient: Transient::default(),
            consensus: state,
        }
    }

    /// The state held.
    pub fn state(&self) -> (r: &M::State)
        ensures
            r.deep_view() == self.state_view(),
    {
        &self.consensus
    }

    /// The root node, whose messages go to the component's input.
    pub fn node(&self) -> (r: NodeAlt)
        ensures
            r@ == (self.callback_view()@, self.transient_view()@, CallbackMode::Default),
    {
        NodeAlt::new(&self.callback, CallbackMode::Default, self.transient)
    }

    /// The root node, whose messages join the cascade being processed.
    pub fn process_node(&self) -> (r: NodeAlt)
        ensures
            r@ == (self.callback_view()@, self.transient_view()@, CallbackMode::Process),
    {
        NodeAlt::new(&self.callback, CallbackMode::Process, self.transient)
    }

    /// Applies `message` to the state; the root node stays where it is.
    pub fn apply(&mut self, message: &M)
        ensures
            final(self).state_view() == message.spec_apply(old(self).state_view()),
            final(self).callback_view() == old(self).callback_view(),
            final(self).transient_view() == old(self).transient_view(),
    {
        message.apply_to(&mut self.consensus);
    }
}

} // verus!
