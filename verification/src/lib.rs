//! A runtime service registry: a mapping from capability identities to
//! resolution strategies, supporting fixed-instance, lazy-factory,
//! auto-constructed and tagged-collection bindings, resolved either
//! synchronously or through an asynchronous-style path with sync fallback.
//!
//! A capability identity is a stable `u64` chosen by the wiring code; the
//! registry stores at most one synchronous and one asynchronous strategy per
//! identity, and registering again replaces the prior strategy. Instances
//! are shared through `Arc`: a fixed binding hands out the same instance on
//! every lookup, while lazy and auto-constructed bindings run their
//! construction logic afresh on every lookup, with no caching. That logic is
//! wiring code, dispatched through the [`construct::Construct`] and
//! [`construct::AsyncConstruct`] traits, and may itself look further
//! capabilities up in the same registry.

use std::collections::HashMap;
use std::sync::Arc;
use vstd::prelude::*;

pub mod adapter;
pub mod bind;
pub mod construct;
pub mod inject;
pub mod singleton;
pub mod tagged;

use crate::bind::{AsyncBindBy, BindBy, Bound};
use crate::construct::{AsyncConstruct, AsyncConstructor, Construct, Constructor};
use crate::singleton::Singleton;
use crate::tagged::Tagged;

verus! {

broadcast use vstd::std_specs::hash::group_hash_axioms;

/// Relies on std's `Arc::clone`: the returned handle shares the same
/// allocation as the argument, so it carries the same value.
#[verifier::external_body]
pub(crate) fn arc_clone<T>(a: &Arc<T>) -> (r: Arc<T>)
    ensures
        r == *a,
{
    Arc::clone(a)
}

/// A synchronous resolution strategy object: attempts to produce a shared
/// instance of a capability, given the registry and the identity under
/// which the strategy is registered. Lazy strategies run the wiring `W`'s
/// construction logic.
pub trait Resolve<T> {
    /// Attempts to produce a shared instance, or declines with `None`.
    fn resolve<W: Construct<T>>(&self, container: &ServiceContainer<T>, capability: u64) -> Option<
        Arc<T>,
    >;
}

/// The asynchronous counterpart of [`Resolve`], run by the
/// suspension-capable lookup path.
pub trait AsyncResolve<T> {
    /// Attempts to produce a shared instance, or declines with `None`.
    fn async_resolve<W: AsyncConstruct<T>>(
        &self,
        container: &ServiceContainer<T>,
        capability: u64,
    ) -> Option<Arc<T>>;
}

/// A registered synchronous resolution strategy: the closed set of ways an
/// instance of a capability can be produced.
#[derive(Clone)]
pub enum Resolver<T> {
    /// A fixed, already-constructed instance, shared on every lookup.
    Bound(Bound<T>),
    /// A fixed instance built from an owned value, shared on every lookup.
    Singleton(Singleton<T>),
    /// A lazy factory, run afresh on every lookup.
    BindBy(BindBy),
    /// The capability's own construction logic, run afresh on every lookup.
    Constructor(Constructor),
    /// An ordered collection of instances registered under a tag.
    Tagged(Tagged<T>),
}

/// A registered asynchronous resolution strategy.
#[derive(Clone, Copy)]
pub enum AsyncStrategy {
    /// A lazy asynchronous factory, run afresh on every lookup.
    BindBy(AsyncBindBy),
    /// The capability's own asynchronous construction logic.
    Constructor(AsyncConstructor),
}

/// The holder of an asynchronous strategy, as stored in the registry.
#[derive(Clone, Copy)]
pub struct AsyncResolver {
    /// The strategy this resolver runs.
    pub resolve: AsyncStrategy,
}

impl AsyncResolver {
    /// Wraps an asynchronous strategy for registration.
    pub fn new(resolve: AsyncStrategy) -> (r: Self)
        ensures
            r.resolve == resolve,
    {
        AsyncResolver { resolve }
    }

    /// The strategy this resolver runs.
    pub fn as_inner(&self) -> (r: &AsyncStrategy)
        ensures
            *r == self.resolve,
    {
        &self.resolve
    }
}

/// The specification-level summary of a synchronous strategy: what a lookup
/// of the capability is bound to.
pub enum Binding<T> {
    /// Every lookup returns exactly this shared instance.
    Fixed(Arc<T>),
    /// Every lookup runs the factory named by this token.
    Lazy(u64),
    /// Every lookup runs the capability's own construction logic.
    Auto,
    /// The capability holds this ordered collection of shared instances.
    Collection(Seq<Arc<T>>),
}

impl<T> Resolver<T> {
    /// The binding this strategy stands for.
    pub open spec fn binding(self) -> Binding<T> {
        match self {
            Resolver::Bound(b) => Binding::Fixed(b.service),
            Resolver::Singleton(s) => Binding::Fixed(s.service),
            Resolver::BindBy(f) => Binding::Lazy(f.factory),
            Resolver::Constructor(_) => Binding::Auto,
            Resolver::Tagged(t) => Binding::Collection(t.services@),
        }
    }
}

/// What a synchronous lookup may return, given the registry's current
/// bindings: absent capabilities and tagged collections yield `None`, a
/// fixed binding yields exactly its instance, and a lazy or
/// auto-constructed binding yields whatever its construction logic decided.
pub open spec fn sync_resolution<T>(
    bindings: Map<u64, Binding<T>>,
    capability: u64,
    r: Option<Arc<T>>,
) -> bool {
    if bindings.contains_key(capability) {
        match bindings[capability] {
            Binding::Fixed(service) => r == Some(service),
            Binding::Lazy(_) => true,
            Binding::Auto => true,
            Binding::Collection(_) => r is None,
        }
    } else {
        r is None
    }
}

/// What a synchronous lookup returns, tied to the wiring `W`: on top of
/// [`sync_resolution`], the result of a lazy or auto-constructed binding is
/// one that `W`'s construction logic could produce for this registry and
/// the binding's token — run afresh at this very lookup, never cached.
pub open spec fn sync_resolution_with<T, W: Construct<T>>(
    container: &ServiceContainer<T>,
    capability: u64,
    r: Option<Arc<T>>,
) -> bool {
    &&& sync_resolution(container.bindings(), capability, r)
    &&& container.bindings().contains_key(capability) ==> match container.bindings()[capability] {
        Binding::Lazy(factory) => call_ensures(W::construct, (container, factory), r),
        Binding::Auto => call_ensures(W::construct, (container, capability), r),
        Binding::Fixed(_) => true,
        Binding::Collection(_) => true,
    }
}

/// Whether `attempted` is an answer that the asynchronous strategy
/// registered for the capability could give, by the wiring `W`'s
/// asynchronous construction logic.
pub open spec fn async_attempt<T, W: AsyncConstruct<T>>(
    container: &ServiceContainer<T>,
    capability: u64,
    attempted: Option<Arc<T>>,
) -> bool
    recommends
        container.async_bindings().contains_key(capability),
{
    match container.async_bindings()[capability].resolve {
        AsyncStrategy::BindBy(f) => call_ensures(
            W::construct_async,
            (container, f.factory),
            attempted,
        ),
        AsyncStrategy::Constructor(_) => call_ensures(
            W::construct_async,
            (container, capability),
            attempted,
        ),
    }
}

/// What the asynchronous lookup path may return: with no asynchronous
/// strategy registered it behaves exactly as the synchronous lookup; with
/// one registered, either that strategy produced the instance, or it
/// declined and the synchronous lookup answered.
pub open spec fn async_resolution<T>(
    async_bindings: Map<u64, AsyncResolver>,
    bindings: Map<u64, Binding<T>>,
    capability: u64,
    r: Option<Arc<T>>,
) -> bool {
    if async_bindings.contains_key(capability) {
        r is Some || sync_resolution(bindings, capability, r)
    } else {
        sync_resolution(bindings, capability, r)
    }
}

/// The ordered collection held by a tag capability: its sequence of shared
/// instances, or the empty sequence where the tag is unregistered or bound
/// to something that is not a collection.
pub open spec fn tagged_collection<T>(
    bindings: Map<u64, Binding<T>>,
    tag: u64,
) -> Seq<Arc<T>> {
    if bindings.contains_key(tag) && bindings[tag] is Collection {
        bindings[tag]->Collection_0
    } else {
        Seq::empty()
    }
}

/// The registry: maps each capability identity to at most one synchronous
/// and at most one asynchronous strategy. It may be branched with
/// [`ServiceContainer::duplicate`]; the branch shares the already-registered
/// instances but has independent bindings.
pub struct ServiceContainer<T> {
    pub(crate) services: HashMap<u64, Resolver<T>>,
    pub(crate) async_services: HashMap<u64, AsyncResolver>,
}

impl<T> ServiceContainer<T> {
    /// The current synchronous bindings, one per registered capability.
    pub closed spec fn bindings(&self) -> Map<u64, Binding<T>> {
        self.services@.map_values(|r: Resolver<T>| r.binding())
    }

    /// The current asynchronous bindings, one per registered capability.
    pub closed spec fn async_bindings(&self) -> Map<u64, AsyncResolver> {
        self.async_services@
    }

    /// An empty registry: no capability is bound.
    pub fn new() -> (r: Self)
        ensures
            r.bindings() == Map::<u64, Binding<T>>::empty(),
            r.async_bindings() == Map::<u64, AsyncResolver>::empty(),
    {
        let r = ServiceContainer {
            services: HashMap::new(),
            async_services: HashMap::new(),
        };
        proof {
            assert(r.bindings() =~= Map::<u64, Binding<T>>::empty());
        }
        r
    }

    /// Decides the result of the asynchronous lookup path once the
    /// asynchronous strategy has answered: a produced instance is returned
    /// as is, and a declined or missing one falls back to the synchronous
    /// lookup.
    pub fn resolve_fallback<W: Construct<T>>(
        &self,
        attempted: Option<Arc<T>>,
        capability: u64,
    ) -> (r: Option<Arc<T>>)
        ensures
            attempted is Some ==> r == attempted,
            attempted is None ==> sync_resolution_with::<T, W>(self, capability, r),
    {
        match attempted {
            Option::Some(service) => Option::Some(service),
            Option::None => self.get::<W>(capability),
        }
    }

    /// Branches the registry: the duplicate starts with the same bindings,
    /// sharing the already-registered strategies and instances, but mutating
    /// either registry afterwards leaves the other's bindings unchanged.
    pub fn duplicate(&self) -> (r: Self) where T: Clone
        ensures
            r.bindings() == self.bindings(),
            r.async_bindings() == self.async_bindings(),
    {
        ServiceContainer {
            services: self.services.clone(),
            async_services: self.async_services.clone(),
        }
    }
}

impl<T> Default for ServiceContainer<T> {
    /// An empty registry: no capability is bound.
    fn default() -> (r: Self)
        ensures
            r.bindings() == Map::<u64, Binding<T>>::empty(),
            r.async_bindings() == Map::<u64, AsyncResolver>::empty(),
    {
        ServiceContainer::new()
    }
}

/// The synchronous face of a registry: existence check, lookup,
/// registration, and the read-modify-write primitive built on them.
pub trait Services<T>: Sized {
    /// Returns whether a synchronous or an asynchronous strategy is
    /// currently registered for the capability. No side effects.
    fn has(&self, capability: u64) -> bool;

    /// Resolves the capability synchronously, returning a shared instance
    /// or `None` where no strategy is registered or the strategy declined.
    fn get<W: Construct<T>>(&self, capability: u64) -> Option<Arc<T>>;

    /// Registers a synchronous strategy for the capability, replacing any
    /// synchronous strategy previously registered there.
    fn put(&mut self, capability: u64, resolver: Resolver<T>);

    /// Replaces the capability's binding by a mutation function: reads the
    /// current instance (which may be absent), applies the function, and
    /// registers the result as a fixed instance.
    fn replace<W: Construct<T>, F: FnOnce(Option<Arc<T>>) -> T>(&mut self, capability: u64, f: F)
        requires
            forall|current: Option<Arc<T>>| #[trigger] call_requires(f, (current,)),
    ;
}

impl<T> Services<T> for ServiceContainer<T> {
    /// Returns whether a synchronous or an asynchronous strategy is
    /// currently registered for the capability. No side effects.
    fn has(&self, capability: u64) -> (r: bool)
        ensures
            r == (self.bindings().contains_key(capability) || self.async_bindings().contains_key(
                capability,
            )),
    {
        self.services.contains_key(&capability) || self.async_services.contains_key(&capability)
    }

    /// Resolves the capability synchronously: `None` where no synchronous
    /// strategy is registered or the registered strategy declined. A fixed
    /// binding returns its one shared instance; a lazy or auto-constructed
    /// binding runs the wiring's construction logic, `W`, afresh.
    fn get<W: Construct<T>>(&self, capability: u64) -> (r: Option<Arc<T>>)
        ensures
            sync_resolution_with::<T, W>(self, capability, r),
    {
        match self.services.get(&capability) {
            Option::None => Option::None,
            Option::Some(Resolver::Bound(b)) => b.resolve::<W>(self, capability),
            Option::Some(Resolver::Singleton(s)) => s.resolve::<W>(self, capability),
            Option::Some(Resolver::BindBy(f)) => f.resolve::<W>(self, capability),
            Option::Some(Resolver::Constructor(c)) => c.resolve::<W>(self, capability),
            Option::Some(Resolver::Tagged(_)) => Option::None,
        }
    }

    /// Registers a synchronous strategy for the capability, replacing any
    /// synchronous strategy previously registered there: last write wins.
    /// Registration never fails, and never runs construction logic.
    fn put(&mut self, capability: u64, resolver: Resolver<T>)
        ensures
            final(self).bindings() == old(self).bindings().insert(capability, resolver.binding()),
            final(self).async_bindings() == old(self).async_bindings(),
    {
        let ghost prior = self.services@;
        self.services.insert(capability, resolver);
        proof {
            assert(self.services@.map_values(|r: Resolver<T>| r.binding()) =~= prior.map_values(
                |r: Resolver<T>| r.binding(),
            ).insert(capability, resolver.binding()));
        }
    }

    /// Replaces the capability's binding by a mutation function: reads the
    /// current instance through [`Services::get`] (which may be absent),
    /// applies the function, and registers the result as a fixed instance.
    /// This is the registry's read-modify-write primitive.
    fn replace<W: Construct<T>, F: FnOnce(Option<Arc<T>>) -> T>(&mut self, capability: u64, f: F)
        ensures
            exists|current: Option<Arc<T>>, service: Arc<T>|
                {
                    &&& sync_resolution_with::<T, W>(old(self), capability, current)
                    &&& #[trigger] call_ensures(f, (current,), *service)
                    &&& final(self).bindings() == old(self).bindings().insert(
                        capability,
                        Binding::Fixed(service),
                    )
                },
            final(self).async_bindings() == old(self).async_bindings(),
    {
        let current = self.get::<W>(capability);
        let ghost current_spec = current;
        let built = f(current);
        let resolver = Resolver::Singleton(Singleton::new(built));
        self.put(capability, resolver);
        proof {
            let service = resolver->Singleton_0.service;
            assert(sync_resolution_with::<T, W>(old(self), capability, current_spec)
                && call_ensures(f, (current_spec,), *service) && final(self).bindings() == old(
                self,
            ).bindings().insert(capability, Binding::Fixed(service)));
        }
    }
}

/// The asynchronous face of a registry: the suspension-capable lookup path
/// and the registration of asynchronous strategies.
pub trait AsyncServices<T>: Sized {
    /// Resolves the capability through the asynchronous path, falling back
    /// to the synchronous strategy where the asynchronous one is missing or
    /// declines.
    fn get_async<W: Construct<T> + AsyncConstruct<T>>(&self, capability: u64) -> Option<Arc<T>>;

    /// Registers an asynchronous strategy for the capability, replacing any
    /// asynchronous strategy previously registered there.
    fn put_async(&mut self, capability: u64, resolver: AsyncResolver);
}

impl<T> AsyncServices<T> for ServiceContainer<T> {
    /// Resolves the capability through the asynchronous path: the
    /// asynchronous strategy is tried first, and where none is registered or
    /// it declines, the synchronous strategy answers through
    /// [`Services::get`]. A capability bound only synchronously thus still
    /// resolves here.
    fn get_async<W: Construct<T> + AsyncConstruct<T>>(&self, capability: u64) -> (r: Option<
        Arc<T>,
    >)
        ensures
            async_resolution(self.async_bindings(), self.bindings(), capability, r),
            !self.async_bindings().contains_key(capability) ==> sync_resolution_with::<T, W>(
                self,
                capability,
                r,
            ),
            self.async_bindings().contains_key(capability) ==> exists|attempted: Option<Arc<T>>|
                {
                    &&& #[trigger] async_attempt::<T, W>(self, capability, attempted)
                    &&& attempted is Some ==> r == attempted
                    &&& attempted is None ==> sync_resolution_with::<T, W>(self, capability, r)
                },
    {
        let attempted: Option<Arc<T>> = match self.async_services.get(&capability) {
            Option::None => Option::None,
            Option::Some(ar) => match &ar.resolve {
                AsyncStrategy::BindBy(f) => f.async_resolve::<W>(self, capability),
                AsyncStrategy::Constructor(c) => c.async_resolve::<W>(self, capability),
            },
        };
        let ghost attempted_spec = attempted;
        let r = self.resolve_fallback::<W>(attempted, capability);
        proof {
            if self.async_bindings().contains_key(capability) {
                assert(async_attempt::<T, W>(self, capability, attempted_spec));
            }
        }
        r
    }

    /// Registers an asynchronous strategy for the capability, replacing any
    /// asynchronous strategy previously registered there: last write wins.
    fn put_async(&mut self, capability: u64, resolver: AsyncResolver)
        ensures
            final(self).async_bindings() == old(self).async_bindings().insert(
                capability,
                resolver,
            ),
            final(self).bindings() == old(self).bindings(),
    {
        self.async_services.insert(capability, resolver);
    }
}

/// Law: a capability bound to a fixed instance resolves to exactly that
/// instance, so any two synchronous lookups return the same shared
/// instance.
pub proof fn lemma_fixed_instance_aliasing<T>(
    bindings: Map<u64, Binding<T>>,
    capability: u64,
    service: Arc<T>,
    r1: Option<Arc<T>>,
    r2: Option<Arc<T>>,
)
    requires
        bindings.contains_key(capability),
        bindings[capability] == Binding::Fixed(service),
        sync_resolution(bindings, capability, r1),
        sync_resolution(bindings, capability, r2),
    ensures
        r1 == Some(service),
        r1 == r2,
{
}

/// Law: registering under a capability twice leaves only the second
/// binding — the registry after both writes is the registry after the
/// second alone, so every lookup is consistent only with the second
/// binding.
pub proof fn lemma_last_write_wins<T>(
    bindings: Map<u64, Binding<T>>,
    capability: u64,
    first: Binding<T>,
    second: Binding<T>,
    r: Option<Arc<T>>,
)
    requires
        sync_resolution(
            bindings.insert(capability, first).insert(capability, second),
            capability,
            r,
        ),
    ensures
        bindings.insert(capability, first).insert(capability, second) == bindings.insert(
            capability,
            second,
        ),
        sync_resolution(bindings.insert(capability, second), capability, r),
{
    assert(bindings.insert(capability, first).insert(capability, second) =~= bindings.insert(
        capability,
        second,
    ));
}

/// Law: a lazy binding's every resolution is an answer its factory gave,
/// run afresh against the registry as it stands at that lookup — the
/// registry never caches a factory's result.
pub proof fn lemma_lazy_resolution_runs_factory<T, W: Construct<T>>(
    container: &ServiceContainer<T>,
    capability: u64,
    factory: u64,
    r: Option<Arc<T>>,
)
    requires
        container.bindings().contains_key(capability),
        container.bindings()[capability] == Binding::<T>::Lazy(factory),
        sync_resolution_with::<T, W>(container, capability, r),
    ensures
        call_ensures(W::construct, (container, factory), r),
{
}

/// Law: an auto-constructed binding's every resolution runs the
/// capability's own construction logic against the registry's current
/// state — so only the bindings present at resolution time matter, not the
/// order in which they were registered.
pub proof fn lemma_auto_construction_sees_current_registry<T, W: Construct<T>>(
    container: &ServiceContainer<T>,
    capability: u64,
    r: Option<Arc<T>>,
)
    requires
        container.bindings().contains_key(capability),
        container.bindings()[capability] == Binding::<T>::Auto,
        sync_resolution_with::<T, W>(container, capability, r),
    ensures
        call_ensures(W::construct, (container, capability), r),
{
}

/// Law: with no asynchronous strategy registered for the capability, the
/// asynchronous lookup path answers exactly as the synchronous one — in
/// particular, a capability bound only with a synchronous strategy still
/// resolves through the asynchronous path.
pub proof fn lemma_async_fallback<T>(
    async_bindings: Map<u64, AsyncResolver>,
    bindings: Map<u64, Binding<T>>,
    capability: u64,
    service: Arc<T>,
    r: Option<Arc<T>>,
)
    requires
        !async_bindings.contains_key(capability),
        async_resolution(async_bindings, bindings, capability, r),
    ensures
        sync_resolution(bindings, capability, r),
        bindings.contains_key(capability) && bindings[capability] == Binding::Fixed(service)
            ==> r == Some(service),
{
}

/// Law: resolution reads only the bindings it is given, so once a registry
/// is branched, re-binding a capability on the branch changes lookups on
/// the branch alone — every other capability there still answers as the
/// original does, and the re-bound capability answers as if the new binding
/// were its only one. The original registry itself is a separate value that
/// the mutation never touches.
pub proof fn lemma_branch_isolation<T>(
    original: Map<u64, Binding<T>>,
    branch: Map<u64, Binding<T>>,
    capability: u64,
    binding: Binding<T>,
)
    requires
        branch == original,
    ensures
        forall|q: u64, r: Option<Arc<T>>|
            #![trigger sync_resolution(branch.insert(capability, binding), q, r)]
            q != capability ==> sync_resolution(branch.insert(capability, binding), q, r)
                == sync_resolution(original, q, r),
        forall|r: Option<Arc<T>>|
            #![trigger sync_resolution(branch.insert(capability, binding), capability, r)]
            sync_resolution(branch.insert(capability, binding), capability, r)
                == sync_resolution(
                Map::<u64, Binding<T>>::empty().insert(capability, binding),
                capability,
                r,
            ),
{
}

} // verus!
