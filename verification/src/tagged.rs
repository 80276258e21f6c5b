//! Tagged multi-bindings: an ordered collection of shared instances
//! registered under one tag capability.

use std::sync::Arc;
use vstd::prelude::*;

use crate::{arc_clone, tagged_collection, Binding, Resolver, ServiceContainer, Services};

verus! {

/// The registry-resident collection behind a tag capability: an ordered
/// sequence of shared instances, in registration order.
#[derive(Clone)]
pub struct Tagged<T> {
    /// The instances registered under the tag, oldest first.
    pub services: Vec<Arc<T>>,
}

impl<T> Tagged<T> {
    /// A snapshot of the collection: new handles to the same shared
    /// instances, in the same order.
    pub fn snapshot(&self) -> (r: Vec<Arc<T>>)
        ensures
            r@ == self.services@,
    {
        let mut r: Vec<Arc<T>> = Vec::new();
        let mut i: usize = 0;
        while i < self.services.len()
            invariant
                i <= self.services.len(),
                r@ == self.services@.subrange(0, i as int),
            decreases self.services.len() - i,
        {
            r.push(arc_clone(&self.services[i]));
            proof {
                assert(self.services@.subrange(0, i + 1 as int) =~= self.services@.subrange(
                    0,
                    i as int,
                ).push(self.services@[i as int]));
            }
            i = i + 1;
        }
        proof {
            assert(r@ =~= self.services@);
        }
        r
    }
}

impl<T> Default for Tagged<T> {
    /// The empty collection.
    fn default() -> (r: Self)
        ensures
            r.services@ == Seq::<Arc<T>>::empty(),
    {
        let r = Tagged { services: Vec::new() };
        proof {
            assert(r.services@ =~= Seq::<Arc<T>>::empty());
        }
        r
    }
}

/// Lookup and registration of tagged multi-bindings.
pub trait TaggedServices<T>: Services<T> {
    /// The tag capability's current collection, empty where the tag is
    /// unregistered.
    fn get_tagged(&self, tag: u64) -> Vec<Arc<T>>;

    /// Appends a shared instance to the tag capability's collection.
    fn put_tagged(&mut self, tag: u64, service: Arc<T>);
}

impl<T> TaggedServices<T> for ServiceContainer<T> {
    /// The tag capability's current collection: a snapshot of the ordered
    /// sequence of shared instances registered under the tag, empty (never
    /// absent) where the tag is unregistered.
    fn get_tagged(&self, tag: u64) -> (r: Vec<Arc<T>>)
        ensures
            r@ == tagged_collection(self.bindings(), tag),
    {
        match self.services.get(&tag) {
            Option::Some(Resolver::Tagged(t)) => t.snapshot(),
            _ => {
                let r: Vec<Arc<T>> = Vec::new();
                proof {
                    assert(r@ =~= tagged_collection(self.bindings(), tag));
                }
                r
            },
        }
    }

    /// Appends a shared instance to the tag capability's collection: reads
    /// the current collection (or starts an empty one), appends, and
    /// re-registers the collection, preserving registration order.
    fn put_tagged(&mut self, tag: u64, service: Arc<T>)
        ensures
            final(self).bindings() == old(self).bindings().insert(
                tag,
                Binding::Collection(tagged_collection(old(self).bindings(), tag).push(service)),
            ),
            final(self).async_bindings() == old(self).async_bindings(),
    {
        let mut services = self.get_tagged(tag);
        services.push(service);
        self.put(tag, Resolver::Tagged(Tagged { services }));
    }
}

/// Law: appending X and then Y under one tag extends the tag's collection
/// by exactly [X, Y], preserving registration order; and an unregistered
/// tag holds the empty collection, never an absent one.
pub proof fn lemma_tagged_accumulation_order<T>(
    bindings: Map<u64, Binding<T>>,
    tag: u64,
    x: Arc<T>,
    y: Arc<T>,
)
    ensures
        ({
            let once = bindings.insert(
                tag,
                Binding::Collection(tagged_collection(bindings, tag).push(x)),
            );
            let twice = once.insert(
                tag,
                Binding::Collection(tagged_collection(once, tag).push(y)),
            );
            tagged_collection(twice, tag) == tagged_collection(bindings, tag) + seq![x, y]
        }),
        !bindings.contains_key(tag) ==> tagged_collection(bindings, tag) == Seq::<Arc<T>>::empty(),
{
    let once = bindings.insert(tag, Binding::Collection(tagged_collection(bindings, tag).push(x)));
    let twice = once.insert(tag, Binding::Collection(tagged_collection(once, tag).push(y)));
    assert(tagged_collection(twice, tag) =~= tagged_collection(bindings, tag) + seq![x, y]);
}

} // verus!
