//! Injectors: setup units that wire a batch of bindings into a registry.

use vstd::prelude::*;

use crate::{ServiceContainer, Services};

verus! {

/// A unit of setup code that wires its bindings into a registry: given the
/// registry, it registers what it provides and hands the registry back.
/// Implementations live with the wiring code.
pub trait Inject<T> {
    /// Wires this injector's bindings into the registry.
    fn inject(&self, container: ServiceContainer<T>) -> ServiceContainer<T>;
}

/// Applying an injector to a registry in place.
pub trait InjectServices<T>: Services<T> {
    /// Lets the injector wire its bindings into this registry.
    fn inject<I: Inject<T>>(&mut self, injector: I);
}

impl<T> InjectServices<T> for ServiceContainer<T> {
    /// Lets the injector wire its bindings into this registry: the registry
    /// afterwards is one the injector's [`Inject::inject`] could produce
    /// from the registry as it was.
    fn inject<I: Inject<T>>(&mut self, injector: I)
        ensures
            call_ensures(I::inject, (&injector, *old(self)), *final(self)),
    {
        let mut taken = ServiceContainer::new();
        core::mem::swap(self, &mut taken);
        let mut wired = injector.inject(taken);
        core::mem::swap(self, &mut wired);
    }
}

} // verus!
