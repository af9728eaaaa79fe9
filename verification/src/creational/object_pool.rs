//! Object pool: reusable objects are handed out reset, taken back reset,
//! and created through a factory only when the pool is empty.

use vstd::prelude::*;
use std::collections::VecDeque;

verus! {

/// An object a pool can manage: it can be reset to a clean state.
pub trait PoolObject: Sized {
    /// Whether the object is in its clean state.
    spec fn is_reset(&self) -> bool;

    /// Returns the object to its clean state.
    fn reset(&mut self)
        ensures
            final(self).is_reset(),
    ;
}

/// A pooled string; clean means empty.
#[derive(Debug, PartialEq)]
pub struct PooledString {
    pub value: String,
}

impl PoolObject for PooledString {
    open spec fn is_reset(&self) -> bool {
        self.value@.len() == 0
    }

    fn reset(&mut self) {
        self.value = String::new();
    }
}

/// A pool of reusable objects, counting how many it ever created.
pub struct ObjectPool<T: PoolObject> {
    available: VecDeque<T>,
    created_count: usize,
}

impl<T: PoolObject> ObjectPool<T> {
    /// The idle objects, oldest first, for contracts.
    pub closed spec fn spec_available(self) -> Seq<T> {
        self.available@
    }

    /// How many objects the pool has created, for contracts.
    pub closed spec fn spec_created(self) -> int {
        self.created_count as int
    }

    /// An empty pool that has created nothing.
    pub fn new() -> (pool: ObjectPool<T>)
        ensures
            pool.spec_available() == Seq::<T>::empty(),
            pool.spec_created() == 0,
    {
        ObjectPool { available: VecDeque::new(), created_count: 0 }
    }

    /// Hands out an object: a reset idle one when there is one, else a
    /// fresh one from the factory, counted as created.
    pub fn acquire<F: FnOnce() -> T>(&mut self, factory: F) -> (obj: T)
        requires
            old(self).spec_available().len() == 0 ==> call_requires(factory, ()),
            old(self).spec_created() < usize::MAX,
        ensures
            old(self).spec_available().len() > 0 ==> obj.is_reset() && final(self).spec_available()
                == old(self).spec_available().skip(1) && final(self).spec_created() == old(
                self,
            ).spec_created(),
            old(self).spec_available().len() == 0 ==> call_ensures(factory, (), obj)
                && final(self).spec_available() == old(self).spec_available()
                && final(self).spec_created() == old(self).spec_created() + 1,
    {
        match self.available.pop_front() {
            Some(mut obj) => {
                obj.reset();
                proof {
                    assert(self.available@ =~= old(self).spec_available().skip(1));
                }
                obj
            },
            None => {
                self.created_count = self.created_count + 1;
                factory()
            },
        }
    }

    /// Takes an object back, reset, to the end of the idle queue.
    pub fn release(&mut self, obj: T)
        ensures
            final(self).spec_available().len() == old(self).spec_available().len() + 1,
            final(self).spec_available().subrange(0, old(self).spec_available().len() as int)
                == old(self).spec_available(),
            final(self).spec_available().last().is_reset(),
            final(self).spec_created() == old(self).spec_created(),
    {
        let mut obj = obj;
        obj.reset();
        self.available.push_back(obj);
        proof {
            assert(self.available@.subrange(0, old(self).spec_available().len() as int) =~= old(
                self,
            ).spec_available());
        }
    }

    /// How many idle objects the pool holds.
    pub fn available_count(&self) -> (n: usize)
        ensures
            n == self.spec_available().len(),
    {
        self.available.len()
    }

    /// How many objects the pool has created.
    pub fn created_count(&self) -> (n: usize)
        ensures
            n == self.spec_created(),
    {
        self.created_count
    }
}

} // verus!
