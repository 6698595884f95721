//! The message abstraction: a message changes the state of the node it is addressed to.

use vstd::prelude::*;
use crate::packet::AltSize;

verus! {

/// A message of a state tree node, and the state it applies to.
///
/// Every message has a mathematical meaning, `spec_apply`, over the deep view of its state;
/// `apply_to` carries it out. The remaining methods give the state the capabilities that
/// messages need from it: a default value, a copy, the number of collection levels it adds,
/// and the message that sets the whole state.
pub trait Message: Sized {
    /// The state this message applies to.
    type State: DeepView;

    /// The state that results from applying this message to `state`.
    spec fn spec_apply(&self, state: <Self::State as DeepView>::V) -> <Self::State as DeepView>::V;

    /// The default value of the state.
    spec fn spec_default_state() -> <Self::State as DeepView>::V;

    /// The number of collection levels the state adds below itself.
    spec fn spec_node_alt_size() -> AltSize;

    /// Applies this message to `state`.
    fn apply_to(&self, state: &mut Self::State)
        ensures
            final(state).deep_view() == self.spec_apply(old(state).deep_view()),
    ;

    /// The default value of the state.
    fn default_state() -> (r: Self::State)
        ensures
            r.deep_view() == Self::spec_default_state(),
    ;

    /// A copy of `state`.
    fn clone_state(state: &Self::State) -> (r: Self::State)
        ensures
            r.deep_view() == state.deep_view(),
    ;

    /// The number of collection levels the state adds below itself.
    fn node_alt_size() -> (r: AltSize)
        ensures
            r == Self::spec_node_alt_size(),
    ;

    /// The message that replaces the whole state with `state`.
    fn into_message(state: Self::State) -> (r: Self)
        ensures
            forall|before: <Self::State as DeepView>::V| #[trigger] r.spec_apply(before) == state.deep_view(),
    ;
}

} // verus!
