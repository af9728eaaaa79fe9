//! Applicative: applying a function that itself sits inside a context to
//! a value in the same kind of context.

use vstd::prelude::*;

verus! {

/// Lifts a plain value into an `Option`.
pub fn pure_option<T>(value: T) -> (r: Option<T>)
    ensures
        r == Some(value),
{
    Some(value)
}

/// Applies a function held in an `Option` to a value held in an
/// `Option`; absent either, the result is absent.
pub fn apply_option<T, U, F: Fn(T) -> U>(value: Option<T>, f: Option<F>) -> (r: Option<U>)
    requires
        value matches Some(v) && f matches Some(g) ==> call_requires(g, (v,)),
    ensures
        value matches Some(v) && f matches Some(g) ==> r matches Some(u) && call_ensures(
            g,
            (v,),
            u,
        ),
        (value is None || f is None) ==> r is None,
{
    match (value, f) {
        (Some(v), Some(g)) => Some(g(v)),
        _ => None,
    }
}

/// A result wrapper with applicative structure: errors short-circuit,
/// the value error taking precedence over the function error.
#[derive(Debug, PartialEq)]
pub struct AppResult<T, E>(pub Result<T, E>);

impl<T, E> AppResult<T, E> {
    /// Wraps a success value.
    pub fn ok(value: T) -> (r: AppResult<T, E>)
        ensures
            r.0 == Ok::<T, E>(value),
    {
        AppResult(Ok(value))
    }

    /// Wraps an error.
    pub fn err(error: E) -> (r: AppResult<T, E>)
        ensures
            r.0 == Err::<T, E>(error),
    {
        AppResult(Err(error))
    }

    /// Lifts a plain value into a success.
    pub fn pure(value: T) -> (r: AppResult<T, E>)
        ensures
            r.0 == Ok::<T, E>(value),
    {
        AppResult::ok(value)
    }

    /// Applies `f` to the success value; an error passes through.
    pub fn map<U, F: Fn(T) -> U>(self, f: F) -> (r: AppResult<U, E>)
        requires
            self.0 matches Ok(v) ==> call_requires(f, (v,)),
        ensures
            self.0 matches Ok(v) ==> r.0 matches Ok(u) && call_ensures(f, (v,), u),
            self.0 matches Err(e) ==> r.0 matches Err(e2) && e2 == e,
    {
        match self.0 {
            Ok(value) => AppResult::ok(f(value)),
            Err(e) => AppResult::err(e),
        }
    }

    /// Applies a wrapped function to a wrapped value.  The first error —
    /// the value's before the function's — short-circuits.
    pub fn apply<U, F: Fn(T) -> U>(self, f: AppResult<F, E>) -> (r: AppResult<U, E>)
        requires
            self.0 matches Ok(v) && f.0 matches Ok(g) ==> call_requires(g, (v,)),
        ensures
            self.0 matches Ok(v) && f.0 matches Ok(g) ==> r.0 matches Ok(u) && call_ensures(
                g,
                (v,),
                u,
            ),
            self.0 matches Err(e) ==> r.0 matches Err(e2) && e2 == e,
            self.0 is Ok && f.0 is Err ==> (r.0 matches Err(e2) && e2 == f.0->Err_0),
    {
        match (self.0, f.0) {
            (Ok(value), Ok(func)) => AppResult::ok(func(value)),
            (Err(e), _) => AppResult::err(e),
            (_, Err(e)) => AppResult::err(e),
        }
    }
}

} // verus!
