//! The adapter boundary for request-handling code: locate the registry in
//! the ambient per-request state and perform one asynchronous-path lookup,
//! turning absence into a reported error.
//!
//! The registry itself treats absence as a normal outcome; this boundary is
//! the first point where it becomes a user-visible failure. The surrounding
//! request pipeline supplies the optional registry reference and turns the
//! returned error into its own terminal response.

use std::sync::Arc;
use vstd::prelude::*;

use crate::construct::{AsyncConstruct, Construct};
use crate::{async_attempt, async_resolution, sync_resolution_with, AsyncServices, ServiceContainer};

verus! {

/// Why a request-time extraction failed.
#[derive(Clone, Copy, Debug, PartialEq, Eq, Structural)]
pub enum Error {
    /// The per-request state carried no registry.
    ServiceContainerNotAvailable,
    /// The registry held no strategy for the capability, or the registered
    /// strategy declined to produce an instance.
    ServiceNotFound,
}

/// The one extraction operation of the adapter: with no registry in the
/// per-request state it fails with
/// [`Error::ServiceContainerNotAvailable`]; otherwise it performs one
/// [`AsyncServices::get_async`] lookup and turns absence into
/// [`Error::ServiceNotFound`].
pub fn extract<T, W: Construct<T> + AsyncConstruct<T>>(
    container: Option<&ServiceContainer<T>>,
    capability: u64,
) -> (r: Result<Arc<T>, Error>)
    ensures
        container is None <==> r == Err::<Arc<T>, Error>(Error::ServiceContainerNotAvailable),
        container matches Some(c) ==> ({
            let looked = match r {
                Ok(service) => Some(service),
                Err(_) => None::<Arc<T>>,
            };
            &&& (r matches Err(e) ==> e == Error::ServiceNotFound)
            &&& async_resolution(c.async_bindings(), c.bindings(), capability, looked)
            &&& !c.async_bindings().contains_key(capability) ==> sync_resolution_with::<T, W>(
                c,
                capability,
                looked,
            )
            &&& c.async_bindings().contains_key(capability) ==> exists|attempted: Option<Arc<T>>|
                {
                    &&& #[trigger] async_attempt::<T, W>(c, capability, attempted)
                    &&& attempted is Some ==> looked == attempted
                    &&& attempted is None ==> sync_resolution_with::<T, W>(c, capability, looked)
                }
        }),
{
    match container {
        Option::None => Result::Err(Error::ServiceContainerNotAvailable),
        Option::Some(c) => match c.get_async::<W>(capability) {
            Option::Some(service) => Result::Ok(service),
            Option::None => Result::Err(Error::ServiceNotFound),
        },
    }
}

} // verus!
