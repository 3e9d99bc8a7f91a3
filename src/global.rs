use vstd::prelude::*;

use crate::registry::Registry;

verus! {

/// The slot that holds a module's registry once it has been built. The host
/// never announces start-up, so every entry point asks the slot to build the
/// registry, and only the first request does.
pub struct GlobalRegistry<C> {
    registry: Option<Registry<C>>,
}

impl<C> GlobalRegistry<C> {
    /// The registry held, if it has been built.
    pub closed spec fn slot(&self) -> Option<Registry<C>> {
        self.registry
    }

    /// One initialization request takes the slot from `self` to `new`: the
    /// slot is filled afterwards, and a slot already filled stays as it was.
    pub open spec fn init_step(self, new: Self) -> bool {
        &&& new.slot().is_some()
        &&& self.slot().is_some() ==> new == self
    }

    pub fn new() -> (r: Self)
        ensures
            r.slot().is_none(),
    {
        GlobalRegistry { registry: None }
    }

    pub fn is_initialized(&self) -> (r: bool)
        ensures
            r == self.slot().is_some(),
    {
        self.registry.is_some()
    }

    /// Builds the registry with `init_function` unless it was built before.
    pub fn init_registry<F: FnOnce() -> Registry<C>>(&mut self, init_function: F)
        requires
            init_function.requires(()),
        ensures
            old(self).init_step(*final(self)),
            old(self).slot().is_none() ==> init_function.ensures((), final(self).slot().unwrap()),
    {
        if self.registry.is_none() {
            let registry = init_function();
            self.registry = Some(registry);
        }
    }

    pub fn get_registry(&self) -> (r: &Registry<C>)
        requires
            self.slot().is_some(),
        ensures
            *r == self.slot().unwrap(),
    {
        self.registry.as_ref().unwrap()
    }

    pub fn get_registry_mut(&mut self) -> (r: &mut Registry<C>)
        requires
            old(self).slot().is_some(),
        ensures
            *r == old(self).slot().unwrap(),
            final(self).slot() == Some(*final(r)),
    {
        self.registry.as_mut().unwrap()
    }
}

/// Initialization is idempotent: once the slot is filled, any number of
/// further requests leave it, and so the number of plugins, as it was.
pub proof fn lemma_init_idempotent<C>(
    first: GlobalRegistry<C>,
    second: GlobalRegistry<C>,
    third: GlobalRegistry<C>,
)
    requires
        first.init_step(second),
        second.init_step(third),
    ensures
        third == second,
        third.slot().unwrap().entries().len() == second.slot().unwrap().entries().len(),
{
}

} // verus!
