//! Binding a capability to a fixed instance or to a lazy factory.

use std::sync::Arc;
use vstd::prelude::*;

use crate::construct::{AsyncConstruct, Construct};
use crate::{
    arc_clone, AsyncResolve, AsyncResolver, AsyncServices, AsyncStrategy, Binding, Resolve,
    Resolver, ServiceContainer, Services,
};

verus! {

/// A fixed-instance strategy: wraps one already-constructed, shared
/// instance, and every resolution returns that same instance.
#[derive(Clone)]
pub struct Bound<T> {
    /// The shared instance handed out on every lookup.
    pub service: Arc<T>,
}

impl<T> Bound<T> {
    /// Wraps a shared instance as a fixed-instance strategy.
    pub fn new(service: Arc<T>) -> (r: Self)
        ensures
            r.service == service,
    {
        Bound { service }
    }
}

impl<T> Resolve<T> for Bound<T> {
    /// Resolution of a fixed instance: always succeeds with that same
    /// shared instance, never re-built.
    fn resolve<W: Construct<T>>(&self, _container: &ServiceContainer<T>, _capability: u64) -> (r:
        Option<Arc<T>>)
        ensures
            r == Some(self.service),
    {
        Option::Some(arc_clone(&self.service))
    }
}

/// A lazy-factory strategy: names the factory that is run afresh on every
/// resolution. The factory itself is wiring code, dispatched through
/// [`crate::construct::Construct::construct`] with this token.
#[derive(Clone, Copy)]
pub struct BindBy {
    /// The token under which the wiring dispatches this factory.
    pub factory: u64,
}

impl BindBy {
    /// Names a factory as a lazy strategy.
    pub fn new(factory: u64) -> (r: Self)
        ensures
            r.factory == factory,
    {
        BindBy { factory }
    }
}

impl<T> Resolve<T> for BindBy {
    /// Resolution of a lazy binding: runs the named factory afresh, with
    /// the registry in hand, and returns whatever it decided.
    fn resolve<W: Construct<T>>(&self, container: &ServiceContainer<T>, _capability: u64) -> (r:
        Option<Arc<T>>)
        ensures
            call_ensures(W::construct, (container, self.factory), r),
    {
        W::construct(container, self.factory)
    }
}

/// The asynchronous counterpart of [`BindBy`]: names the factory that the
/// suspension-capable lookup path dispatches through
/// [`crate::construct::AsyncConstruct::construct_async`].
#[derive(Clone, Copy)]
pub struct AsyncBindBy {
    /// The token under which the wiring dispatches this factory.
    pub factory: u64,
}

impl AsyncBindBy {
    /// Names a factory as a lazy asynchronous strategy.
    pub fn new(factory: u64) -> (r: Self)
        ensures
            r.factory == factory,
    {
        AsyncBindBy { factory }
    }
}

impl<T> AsyncResolve<T> for AsyncBindBy {
    /// Resolution of a lazy asynchronous binding: runs the named factory
    /// afresh and returns whatever it decided.
    fn async_resolve<W: AsyncConstruct<T>>(
        &self,
        container: &ServiceContainer<T>,
        _capability: u64,
    ) -> (r: Option<Arc<T>>)
        ensures
            call_ensures(W::construct_async, (container, self.factory), r),
    {
        W::construct_async(container, self.factory)
    }
}

/// Registration helpers for fixed-instance and lazy bindings.
pub trait BindServices<T>: Services<T> {
    /// Binds the capability to an already-constructed shared instance.
    fn bind(&mut self, capability: u64, service: Arc<T>);

    /// Binds the capability to the lazy factory named by the token.
    fn bind_by(&mut self, capability: u64, factory: u64);
}

impl<T> BindServices<T> for ServiceContainer<T> {
    /// Binds the capability to an already-constructed shared instance:
    /// every later synchronous lookup returns exactly this instance.
    fn bind(&mut self, capability: u64, service: Arc<T>)
        ensures
            final(self).bindings() == old(self).bindings().insert(
                capability,
                Binding::Fixed(service),
            ),
            final(self).async_bindings() == old(self).async_bindings(),
    {
        self.put(capability, Resolver::Bound(Bound::new(service)));
    }

    /// Binds the capability to the lazy factory named by the token: every
    /// later synchronous lookup runs that factory afresh.
    fn bind_by(&mut self, capability: u64, factory: u64)
        ensures
            final(self).bindings() == old(self).bindings().insert(
                capability,
                Binding::Lazy(factory),
            ),
            final(self).async_bindings() == old(self).async_bindings(),
    {
        self.put(capability, Resolver::BindBy(BindBy::new(factory)));
    }
}

/// Registration helper for lazy asynchronous bindings.
pub trait AsyncBindServices<T>: AsyncServices<T> {
    /// Binds the capability to the lazy asynchronous factory named by the
    /// token.
    fn bind_by_async(&mut self, capability: u64, factory: u64);
}

impl<T> AsyncBindServices<T> for ServiceContainer<T> {
    /// Binds the capability to the lazy asynchronous factory named by the
    /// token: every later asynchronous lookup runs that factory afresh.
    fn bind_by_async(&mut self, capability: u64, factory: u64)
        ensures
            final(self).async_bindings() == old(self).async_bindings().insert(
                capability,
                AsyncResolver { resolve: AsyncStrategy::BindBy(AsyncBindBy { factory }) },
            ),
            final(self).bindings() == old(self).bindings(),
    {
        self.put_async(
            capability,
            AsyncResolver::new(AsyncStrategy::BindBy(AsyncBindBy::new(factory))),
        );
    }
}

} // verus!
