//! Functor: applying a function to a value inside a context — an
//! `Option`, a `Vec`, or the library's own `Maybe` wrapper.

use vstd::prelude::*;

verus! {

/// Applies `f` inside an `Option`.
pub fn map_option<T, U, F: Fn(T) -> U>(value: Option<T>, f: F) -> (r: Option<U>)
    requires
        value matches Some(v) ==> call_requires(f, (v,)),
    ensures
        value is None ==> r is None,
        value matches Some(v) ==> r matches Some(u) && call_ensures(f, (v,), u),
{
    match value {
        Some(v) => Some(f(v)),
        None => None,
    }
}

/// Applies `f` to every element of a `Vec`, in order.
pub fn map_vec<T, U, F: Fn(T) -> U>(values: Vec<T>, f: F) -> (r: Vec<U>)
    requires
        forall|i: int| 0 <= i < values.len() ==> call_requires(f, (values[i],)),
    ensures
        r.len() == values.len(),
        forall|i: int|
            0 <= i < values.len() ==> call_ensures(f, (values@[i],), #[trigger] r@[i]),
{
    let ghost input = values@;
    let mut rest = values;
    let mut r: Vec<U> = Vec::new();
    while rest.len() > 0
        invariant
            input.len() == r.len() + rest.len(),
            rest@ == input.skip(r.len() as int),
            forall|i: int| 0 <= i < input.len() ==> call_requires(f, (input[i],)),
            forall|i: int|
                0 <= i < r.len() ==> call_ensures(f, (input[i],), #[trigger] r@[i]),
        decreases rest.len(),
    {
        let x = rest.remove(0);
        proof {
            assert(input.skip(r.len() as int)[0] == input[r.len() as int]);
            assert(rest@ =~= input.skip(r.len() + 1));
        }
        r.push(f(x));
    }
    r
}

/// A simple wrapper over `Option`, mapped over like a functor.
#[derive(Debug, PartialEq)]
pub struct Maybe<T>(pub Option<T>);

impl<T> Maybe<T> {
    /// Wraps a present value.
    pub fn some(value: T) -> (m: Maybe<T>)
        ensures
            m.0 == Some(value),
    {
        Maybe(Some(value))
    }

    /// The absent value.
    pub fn none() -> (m: Maybe<T>)
        ensures
            m.0 is None,
    {
        Maybe(None)
    }

    /// Applies `f` to the held value, if any.
    pub fn map<U, F: Fn(T) -> U>(self, f: F) -> (m: Maybe<U>)
        requires
            self.0 matches Some(v) ==> call_requires(f, (v,)),
        ensures
            self.0 is None ==> m.0 is None,
            self.0 matches Some(v) ==> m.0 matches Some(u) && call_ensures(f, (v,), u),
    {
        match self.0 {
            Some(v) => Maybe::some(f(v)),
            None => Maybe::none(),
        }
    }
}

} // verus!
