use std::marker::PhantomData;
use vstd::prelude::*;

verus! {

/// Handlers run in place on an owning value of type `T` whenever one of its
/// fields of type `K` changes. `H` is the handler type, such as
/// `fn(&mut T, K)`; it is a parameter because the verifier takes no
/// function-pointer type in a field.
pub struct SignalInner<T, K, H> {
    pub calls: Vec<H>,
    pub owner: PhantomData<(T, K)>,
}

impl<T, K: Clone, H> SignalInner<T, K, H> {
    /// An empty list of handlers.
    pub fn new() -> (r: Self)
        ensures
            r.calls@.len() == 0,
    {
        SignalInner { calls: Vec::new(), owner: PhantomData }
    }

    /// Appends `slot` after the handlers already registered.
    pub fn add(&mut self, slot: H)
        ensures
            final(self).calls@ == old(self).calls@.push(slot),
    {
        self.calls.push(slot);
    }
}

} // verus!
