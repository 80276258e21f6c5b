//! Fixed-instance and lazy bindings, looked up by an interface.

use std::sync::Arc;

use ruice::bind::{AsyncBindServices, BindServices};
use ruice::construct::{AsyncConstruct, Construct};
use ruice::{AsyncServices, ServiceContainer, Services};

trait Greet: Send + Sync {
    fn greet(&self) -> String;
}

struct Greeter {
    name: String,
}

impl Greet for Greeter {
    fn greet(&self) -> String {
        format!("Hello, {}!", self.name)
    }
}

const GREET: u64 = 1;
const GREET_FACTORY: u64 = 100;

struct Wiring;

impl Construct<Box<dyn Greet>> for Wiring {
    fn construct(
        _container: &ServiceContainer<Box<dyn Greet>>,
        capability: u64,
    ) -> Option<Arc<Box<dyn Greet>>> {
        if capability == GREET_FACTORY {
            Some(Arc::new(Box::new(Greeter {
                name: "Taro".to_string(),
            })))
        } else {
            None
        }
    }
}

impl AsyncConstruct<Box<dyn Greet>> for Wiring {
    fn construct_async(
        _container: &ServiceContainer<Box<dyn Greet>>,
        capability: u64,
    ) -> Option<Arc<Box<dyn Greet>>> {
        if capability == GREET_FACTORY {
            Some(Arc::new(Box::new(Greeter {
                name: "Taro".to_string(),
            })))
        } else {
            None
        }
    }
}

#[test]
fn bind() {
    let mut container: ServiceContainer<Box<dyn Greet>> = ServiceContainer::default();

    // We can bind a service onto an interface.
    container.bind(
        GREET,
        Arc::new(Box::new(Greeter {
            name: "Taro".to_string(),
        })),
    );

    // Now we can get the service by the interface's capability identity.
    let name_getter = container.get::<Wiring>(GREET).unwrap();
    assert_eq!("Hello, Taro!".to_string(), name_getter.greet());
}

#[test]
fn bind_by() {
    let mut container: ServiceContainer<Box<dyn Greet>> = ServiceContainer::default();

    // We can bind a service onto an interface lazily.
    container.bind_by(GREET, GREET_FACTORY);

    // Now we can get the service by the interface's capability identity.
    let name_getter = container.get::<Wiring>(GREET).unwrap();
    assert_eq!("Hello, Taro!".to_string(), name_getter.greet());
}

#[test]
fn bind_by_async() {
    let mut container: ServiceContainer<Box<dyn Greet>> = ServiceContainer::default();

    // We can bind a service onto an interface lazily for the async path.
    container.bind_by_async(GREET, GREET_FACTORY);

    // We can not get the service through the synchronous path.
    assert!(container.get::<Wiring>(GREET).is_none());

    // Now we can get the service through the asynchronous path.
    let name_getter = container.get_async::<Wiring>(GREET).unwrap();
    assert_eq!("Hello, Taro!".to_string(), name_getter.greet());
}
