//! Binding a capability to a single shared instance built from an owned
//! value.

use std::sync::Arc;
use vstd::prelude::*;

use crate::construct::Construct;
use crate::{arc_clone, Binding, Resolve, Resolver, ServiceContainer, Services};

verus! {

/// A fixed-instance strategy built from an owned value: the value is placed
/// behind one shared handle, and every resolution returns that same
/// instance.
#[derive(Clone)]
pub struct Singleton<T> {
    /// The shared instance handed out on every lookup.
    pub service: Arc<T>,
}

impl<T> Singleton<T> {
    /// Wraps an owned value as the capability's one shared instance.
    pub fn new(service: T) -> (r: Self)
        ensures
            r.service == service,
    {
        Singleton { service: Arc::new(service) }
    }
}

impl<T> Resolve<T> for Singleton<T> {
    /// Resolution of a singleton: always succeeds with the same shared
    /// instance, never re-built.
    fn resolve<W: Construct<T>>(&self, _container: &ServiceContainer<T>, _capability: u64) -> (r:
        Option<Arc<T>>)
        ensures
            r == Some(self.service),
    {
        Option::Some(arc_clone(&self.service))
    }
}

/// Registration helper for singleton bindings.
pub trait SingletonServices<T>: Services<T> {
    /// Binds the capability to the value as its one shared instance.
    fn singleton(&mut self, capability: u64, service: T);
}

impl<T> SingletonServices<T> for ServiceContainer<T> {
    /// Binds the capability to the value as its one shared instance: every
    /// later synchronous lookup returns that same instance.
    fn singleton(&mut self, capability: u64, service: T)
        ensures
            exists|shared: Arc<T>|
                *shared == service && final(self).bindings() == old(self).bindings().insert(
                    capability,
                    Binding::Fixed(shared),
                ),
            final(self).async_bindings() == old(self).async_bindings(),
    {
        let resolver = Resolver::Singleton(Singleton::new(service));
        self.put(capability, resolver);
        proof {
            let shared = resolver->Singleton_0.service;
            assert(*shared == service && final(self).bindings() == old(self).bindings().insert(
                capability,
                Binding::Fixed(shared),
            ));
        }
    }
}

} // verus!
