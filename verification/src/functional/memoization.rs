//! Memoization: caching a function's results so that each argument is
//! computed at most once.

use vstd::prelude::*;
use std::collections::HashMap;

verus! {

broadcast use vstd::std_specs::hash::group_hash_axioms;

/// A function together with a cache of its past results.
pub struct Memoized<F: Fn(u64) -> u64> {
    func: F,
    cache: HashMap<u64, u64>,
}

impl<F: Fn(u64) -> u64> Memoized<F> {
    /// The cached argument-to-result map, for contracts.
    pub closed spec fn cache_view(self) -> Map<u64, u64> {
        self.cache@
    }

    /// The memoized function, for contracts.
    pub closed spec fn func_view(self) -> F {
        self.func
    }

    /// Every cached result is one the function could have returned.
    pub open spec fn wf(self) -> bool {
        forall|a: u64|
            self.cache_view().contains_key(a) ==> call_ensures(
                self.func_view(),
                (a,),
                #[trigger] self.cache_view()[a],
            )
    }

    /// Wraps a function with an empty cache.
    pub fn new(func: F) -> (m: Memoized<F>)
        ensures
            m.func_view() == func,
            m.cache_view() == Map::<u64, u64>::empty(),
            m.wf(),
    {
        Memoized { func, cache: HashMap::new() }
    }

    /// Returns the function's result for `arg`, from the cache when it
    /// is there, computing and caching it when it is not.
    pub fn call(&mut self, arg: u64) -> (result: u64)
        requires
            call_requires(old(self).func_view(), (arg,)),
            old(self).wf(),
        ensures
            final(self).func_view() == old(self).func_view(),
            final(self).wf(),
            call_ensures(final(self).func_view(), (arg,), result),
            old(self).cache_view().contains_key(arg) ==> result == old(self).cache_view()[arg]
                && final(self).cache_view() == old(self).cache_view(),
            !old(self).cache_view().contains_key(arg) ==> final(self).cache_view() == old(
                self,
            ).cache_view().insert(arg, result),
    {
        if let Some(result) = self.cache.get(&arg) {
            proof {
                assert(old(self).cache_view().contains_key(arg) && old(self).cache_view()[arg]
                    == *result);
            }
            *result
        } else {
            let result = (self.func)(arg);
            self.cache.insert(arg, result);
            proof {
                let oldcache = old(self).cache_view();
                assert(self.cache@ == oldcache.insert(arg, result));
                assert forall|a: u64| self.cache@.contains_key(a) implies call_ensures(
                    self.func,
                    (a,),
                    #[trigger] self.cache@[a],
                ) by {
                    if a != arg {
                        assert(oldcache.contains_key(a));
                        assert(self.cache@[a] == oldcache[a]);
                    }
                }
            }
            result
        }
    }

    /// How many distinct arguments have been cached.
    pub fn cache_size(&self) -> (n: usize)
        ensures
            n == self.cache_view().len(),
    {
        self.cache.len()
    }
}

/// Wraps a function with an empty cache.
pub fn memoized<F: Fn(u64) -> u64>(func: F) -> (m: Memoized<F>)
    ensures
        m.func_view() == func,
        m.cache_view() == Map::<u64, u64>::empty(),
        m.wf(),
{
    Memoized::new(func)
}

} // verus!
