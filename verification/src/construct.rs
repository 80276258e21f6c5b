//! Auto-construction: a capability whose instances are built by the wiring
//! itself, with the registry in hand, afresh on every lookup.

use std::sync::Arc;
use vstd::prelude::*;

use crate::{
    AsyncResolve, AsyncResolver, AsyncServices, AsyncStrategy, Binding, Resolve, Resolver,
    ServiceContainer, Services,
};

verus! {

/// The synchronous construction logic of the wiring: given the registry and
/// a capability identity (or a factory token), build an instance or decline.
///
/// Implementations live with the wiring code. Construction may itself look
/// capabilities up in the registry; the registry adds no cycle detection, so
/// the wiring must keep the dependencies acyclic at resolution time.
pub trait Construct<T> {
    /// Builds a shared instance for the capability from the registry, or
    /// returns `None` to decline.
    fn construct(container: &ServiceContainer<T>, capability: u64) -> Option<Arc<T>>;
}

/// The asynchronous counterpart of [`Construct`], dispatched by the
/// suspension-capable lookup path.
pub trait AsyncConstruct<T> {
    /// Builds a shared instance for the capability from the registry, or
    /// returns `None` to decline.
    fn construct_async(container: &ServiceContainer<T>, capability: u64) -> Option<Arc<T>>;
}

/// An auto-construction strategy: resolution delegates to the capability's
/// own construction logic, [`Construct::construct`], called with the
/// capability identity under which this strategy is registered.
#[derive(Clone, Copy)]
pub struct Constructor {
}

impl Constructor {
    /// An auto-construction strategy.
    pub fn new() -> (r: Self)
        ensures
            r == (Constructor {  }),
    {
        Constructor {  }
    }
}

impl Default for Constructor {
    /// An auto-construction strategy.
    fn default() -> (r: Self)
        ensures
            r == (Constructor {  }),
    {
        Constructor::new()
    }
}

impl<T> Resolve<T> for Constructor {
    /// Resolution of an auto-constructed binding: runs the capability's own
    /// construction logic afresh, with the registry in hand, and returns
    /// whatever it decided.
    fn resolve<W: Construct<T>>(&self, container: &ServiceContainer<T>, capability: u64) -> (r:
        Option<Arc<T>>)
        ensures
            call_ensures(W::construct, (container, capability), r),
    {
        W::construct(container, capability)
    }
}

/// The asynchronous counterpart of [`Constructor`]: resolution delegates to
/// [`AsyncConstruct::construct_async`].
#[derive(Clone, Copy)]
pub struct AsyncConstructor {
}

impl AsyncConstructor {
    /// An asynchronous auto-construction strategy.
    pub fn new() -> (r: Self)
        ensures
            r == (AsyncConstructor {  }),
    {
        AsyncConstructor {  }
    }
}

impl Default for AsyncConstructor {
    /// An asynchronous auto-construction strategy.
    fn default() -> (r: Self)
        ensures
            r == (AsyncConstructor {  }),
    {
        AsyncConstructor::new()
    }
}

impl<T> AsyncResolve<T> for AsyncConstructor {
    /// Resolution of an asynchronously auto-constructed binding: runs the
    /// capability's own asynchronous construction logic afresh.
    fn async_resolve<W: AsyncConstruct<T>>(
        &self,
        container: &ServiceContainer<T>,
        capability: u64,
    ) -> (r: Option<Arc<T>>)
        ensures
            call_ensures(W::construct_async, (container, capability), r),
    {
        W::construct_async(container, capability)
    }
}

/// Registration helper for auto-constructed bindings.
pub trait ConstructServices<T>: Services<T> {
    /// Declares that the capability is auto-constructed: its instances are
    /// built by [`Construct::construct`] at every synchronous lookup.
    fn construct(&mut self, capability: u64);
}

impl<T> ConstructServices<T> for ServiceContainer<T> {
    /// Declares that the capability is auto-constructed. Construction is
    /// deferred to every lookup, so this may be registered before the
    /// capabilities it depends on.
    fn construct(&mut self, capability: u64)
        ensures
            final(self).bindings() == old(self).bindings().insert(capability, Binding::Auto),
            final(self).async_bindings() == old(self).async_bindings(),
    {
        self.put(capability, Resolver::Constructor(Constructor::new()));
    }
}

/// Registration helper for asynchronously auto-constructed bindings.
pub trait AsyncConstructServices<T>: AsyncServices<T> {
    /// Declares that the capability is auto-constructed on the
    /// asynchronous path, by [`AsyncConstruct::construct_async`].
    fn construct_async(&mut self, capability: u64);
}

impl<T> AsyncConstructServices<T> for ServiceContainer<T> {
    /// Declares that the capability is auto-constructed on the
    /// asynchronous path. Construction is deferred to every lookup.
    fn construct_async(&mut self, capability: u64)
        ensures
            final(self).async_bindings() == old(self).async_bindings().insert(
                capability,
                AsyncResolver { resolve: AsyncStrategy::Constructor(AsyncConstructor {  }) },
            ),
            final(self).bindings() == old(self).bindings(),
    {
        self.put_async(
            capability,
            AsyncResolver::new(AsyncStrategy::Constructor(AsyncConstructor::new())),
        );
    }
}

} // verus!
