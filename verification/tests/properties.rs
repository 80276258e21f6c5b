//! Behavioural properties of the registry: sharing, caching, overwrite,
//! ordering, fallback, branching, and the adapter boundary.

use std::sync::Arc;

use ruice::adapter::{extract, Error};
use ruice::bind::{AsyncBindServices, BindServices};
use ruice::construct::{
    AsyncConstruct, AsyncConstructServices, AsyncConstructor, Construct, ConstructServices,
};
use ruice::inject::{Inject, InjectServices};
use ruice::singleton::SingletonServices;
use ruice::{AsyncResolver, AsyncServices, AsyncStrategy, ServiceContainer, Services};

const CAP: u64 = 1;
const OTHER: u64 = 2;
const FACTORY: u64 = 100;

struct Wiring;

impl Construct<String> for Wiring {
    fn construct(container: &ServiceContainer<String>, capability: u64) -> Option<Arc<String>> {
        if capability == FACTORY {
            // A deterministic factory: equal values, freshly allocated on
            // every resolution.
            Some(Arc::new("built".to_string()))
        } else if capability == CAP {
            // Auto-construction of CAP reads OTHER from the registry.
            let dependency = container.get::<Wiring>(OTHER)?;
            Some(Arc::new(format!("made from {}", dependency)))
        } else {
            None
        }
    }
}

impl AsyncConstruct<String> for Wiring {
    fn construct_async(_container: &ServiceContainer<String>, capability: u64) -> Option<Arc<String>> {
        if capability == FACTORY {
            Some(Arc::new("built async".to_string()))
        } else {
            None
        }
    }
}

/// A declining wiring: every factory and construction declines.
struct NoWiring;

impl Construct<String> for NoWiring {
    fn construct(_container: &ServiceContainer<String>, _capability: u64) -> Option<Arc<String>> {
        None
    }
}

impl AsyncConstruct<String> for NoWiring {
    fn construct_async(_container: &ServiceContainer<String>, _capability: u64) -> Option<Arc<String>> {
        None
    }
}

/// An injector wiring one greeting into the registry.
struct Installer;

impl Inject<String> for Installer {
    fn inject(&self, mut container: ServiceContainer<String>) -> ServiceContainer<String> {
        container.singleton(CAP, "injected".to_string());
        container
    }
}

#[test]
fn inject_applies_injector() {
    let mut container: ServiceContainer<String> = ServiceContainer::default();
    container.inject(Installer);
    assert_eq!("injected", *container.get::<Wiring>(CAP).unwrap());
}

#[test]
fn fixed_instance_aliasing() {
    let mut container: ServiceContainer<String> = ServiceContainer::default();
    container.bind(CAP, Arc::new("shared".to_string()));

    let first = container.get::<Wiring>(CAP).unwrap();
    let second = container.get::<Wiring>(CAP).unwrap();

    // Repeated lookups return the identical shared instance, not a copy.
    assert!(Arc::ptr_eq(&first, &second));
    assert_eq!("shared", *first);
}

#[test]
fn lazy_non_memoization() {
    let mut container: ServiceContainer<String> = ServiceContainer::default();
    container.bind_by(CAP, FACTORY);

    let first = container.get::<Wiring>(CAP).unwrap();
    let second = container.get::<Wiring>(CAP).unwrap();

    // The factory is deterministic, so the values are equal; but it runs
    // afresh on every lookup, so the instances are independently allocated.
    assert_eq!(*first, *second);
    assert!(!Arc::ptr_eq(&first, &second));
}

#[test]
fn last_write_wins() {
    let mut container: ServiceContainer<String> = ServiceContainer::default();
    container.singleton(CAP, "first".to_string());
    container.singleton(CAP, "second".to_string());

    // Resolving is consistent only with the second binding.
    assert_eq!("second", *container.get::<Wiring>(CAP).unwrap());
}

#[test]
fn recursive_construction() {
    let mut container: ServiceContainer<String> = ServiceContainer::default();

    // CAP is auto-constructed and reads OTHER from the registry. While
    // OTHER is unregistered, resolving CAP yields absent.
    container.construct(CAP);
    assert!(container.get::<Wiring>(CAP).is_none());

    // Once OTHER is registered — after CAP, the registration order does
    // not matter — CAP resolves through its dependency.
    container.singleton(OTHER, "dependency".to_string());
    assert_eq!("made from dependency", *container.get::<Wiring>(CAP).unwrap());
}

#[test]
fn async_fallback_to_sync() {
    let mut container: ServiceContainer<String> = ServiceContainer::default();

    // A capability bound only with a sync strategy still resolves through
    // the async lookup path.
    container.singleton(CAP, "sync only".to_string());
    assert_eq!("sync only", *container.get_async::<Wiring>(CAP).unwrap());
}

#[test]
fn async_strategy_wins_when_it_succeeds() {
    let mut container: ServiceContainer<String> = ServiceContainer::default();
    container.singleton(CAP, "sync".to_string());
    container.bind_by_async(CAP, FACTORY);

    // With both registered, the async strategy answers when it succeeds.
    assert_eq!("built async", *container.get_async::<Wiring>(CAP).unwrap());

    // Only when the async strategy declines does the sync strategy answer:
    // `NoWiring` declines every async construction.
    assert_eq!("sync", *container.get_async::<NoWiring>(CAP).unwrap());
}

#[test]
fn async_resolver_carries_its_strategy() {
    let mut container: ServiceContainer<String> = ServiceContainer::default();

    let resolver = AsyncResolver::new(AsyncStrategy::Constructor(AsyncConstructor::new()));
    assert!(matches!(
        resolver.as_inner(),
        AsyncStrategy::Constructor(_)
    ));

    container.put_async(FACTORY, resolver);
    assert_eq!("built async", *container.get_async::<Wiring>(FACTORY).unwrap());
}

#[test]
fn async_auto_construction() {
    let mut container: ServiceContainer<String> = ServiceContainer::default();
    container.construct_async(FACTORY);
    assert_eq!("built async", *container.get_async::<Wiring>(FACTORY).unwrap());
}

#[test]
fn has_sees_async_bindings() {
    let mut container: ServiceContainer<String> = ServiceContainer::default();
    assert!(!container.has(CAP));
    container.bind_by_async(CAP, FACTORY);
    assert!(container.has(CAP));
}

#[test]
fn branch_isolation() {
    let mut container: ServiceContainer<String> = ServiceContainer::default();
    container.singleton(CAP, "original".to_string());

    // The duplicate starts with the same bindings and shares the instance.
    let mut branch = container.duplicate();
    let from_original = container.get::<Wiring>(CAP).unwrap();
    let from_branch = branch.get::<Wiring>(CAP).unwrap();
    assert!(Arc::ptr_eq(&from_original, &from_branch));

    // Re-binding on the branch does not change what the original resolves.
    branch.singleton(CAP, "changed".to_string());
    assert_eq!("changed", *branch.get::<Wiring>(CAP).unwrap());
    assert_eq!("original", *container.get::<Wiring>(CAP).unwrap());
}

#[test]
fn replace_reads_then_rebinds() {
    let mut container: ServiceContainer<String> = ServiceContainer::default();

    // The first mutation sees no current instance.
    container.replace::<Wiring, _>(CAP, |current: Option<Arc<String>>| match current {
        None => "start".to_string(),
        Some(s) => format!("{} again", s),
    });
    assert_eq!("start", *container.get::<Wiring>(CAP).unwrap());

    // The second mutation reads what the first one stored.
    container.replace::<Wiring, _>(CAP, |current: Option<Arc<String>>| match current {
        None => "start".to_string(),
        Some(s) => format!("{} again", s),
    });
    assert_eq!("start again", *container.get::<Wiring>(CAP).unwrap());
}

#[test]
fn extract_reports_missing_container() {
    let r = extract::<String, Wiring>(None, CAP);
    assert_eq!(Err(Error::ServiceContainerNotAvailable), r);
}

#[test]
fn extract_reports_missing_service() {
    let container: ServiceContainer<String> = ServiceContainer::default();
    let r = extract::<String, Wiring>(Some(&container), CAP);
    assert_eq!(Err(Error::ServiceNotFound), r);
}

#[test]
fn extract_resolves_bound_service() {
    let mut container: ServiceContainer<String> = ServiceContainer::default();
    container.singleton(CAP, "present".to_string());
    let r = extract::<String, Wiring>(Some(&container), CAP);
    assert_eq!("present", *r.unwrap());
}
