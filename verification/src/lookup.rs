//! Reading a node's state from the consensus, by the indices its transient records.

use vstd::prelude::*;
use crate::packet::Transient;

verus! {

/// How a node reads its state: a function of the transient, which selects the items on the
/// way down from the root.
#[derive(Clone)]
pub struct Lookup<F> {
    lookup: F,
}

impl<F> Lookup<F> {
    pub closed spec fn function(&self) -> F {
        self.lookup
    }

    pub fn new(lookup: F) -> (r: Lookup<F>)
        ensures
            r.function() == lookup,
    {
        Lookup { lookup }
    }

    /// The state at `transient`, if there is one.
    pub fn get<T>(&self, transient: &Transient) -> (r: Option<T>)
        where
            F: Fn(Transient) -> Option<T>,
        requires
            self.function().requires((*transient,)),
        ensures
            self.function().ensures((*transient,), r),
    {
        (self.lookup)(*transient)
    }
}

} // verus!
