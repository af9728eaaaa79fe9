//! Promise: a computation that is pending, fulfilled with a value, or
//! rejected with an error, chained in a functional style.

use vstd::prelude::*;

verus! {

/// The three states of a promise.
#[derive(Debug, Clone)]
pub enum Promise<T, E> {
    Pending,
    Fulfilled(T),
    Rejected(E),
}

impl<T, E> Promise<T, E> {
    /// A fresh promise, still pending.
    pub fn new() -> (p: Promise<T, E>)
        ensures
            p is Pending,
    {
        Promise::Pending
    }

    /// Resolves to a value, whatever came before.
    pub fn resolve(self, value: T) -> (p: Promise<T, E>)
        ensures
            p == Promise::<T, E>::Fulfilled(value),
    {
        Promise::Fulfilled(value)
    }

    /// Rejects with an error, whatever came before.
    pub fn reject(self, error: E) -> (p: Promise<T, E>)
        ensures
            p == Promise::<T, E>::Rejected(error),
    {
        Promise::Rejected(error)
    }

    /// Applies `f` to a fulfilled value; rejection and pendency pass
    /// through.
    pub fn then<U, F: Fn(T) -> U>(self, f: F) -> (p: Promise<U, E>)
        requires
            self matches Promise::Fulfilled(v) ==> call_requires(f, (v,)),
        ensures
            self matches Promise::Fulfilled(v) ==> p matches Promise::Fulfilled(u)
                && call_ensures(f, (v,), u),
            self matches Promise::Rejected(e) ==> p matches Promise::Rejected(e2) && e2 == e,
            self is Pending ==> p is Pending,
    {
        match self {
            Promise::Fulfilled(value) => Promise::Fulfilled(f(value)),
            Promise::Rejected(error) => Promise::Rejected(error),
            Promise::Pending => Promise::Pending,
        }
    }

    /// Turns a rejection into a fulfilled value through `f`; anything
    /// else passes through.
    pub fn catch<F: Fn(E) -> T>(self, f: F) -> (p: Promise<T, E>)
        requires
            self matches Promise::Rejected(e) ==> call_requires(f, (e,)),
        ensures
            self matches Promise::Rejected(e) ==> p matches Promise::Fulfilled(v)
                && call_ensures(f, (e,), v),
            !(self is Rejected) ==> p == self,
    {
        match self {
            Promise::Rejected(error) => Promise::Fulfilled(f(error)),
            other => other,
        }
    }

    /// Whether the promise is fulfilled.
    pub fn is_fulfilled(&self) -> (r: bool)
        ensures
            r == (self is Fulfilled),
    {
        matches!(self, Promise::Fulfilled(_))
    }

    /// Whether the promise is rejected.
    pub fn is_rejected(&self) -> (r: bool)
        ensures
            r == (self is Rejected),
    {
        matches!(self, Promise::Rejected(_))
    }
}

} // verus!
