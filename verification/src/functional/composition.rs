//! Composition: building functions out of functions, with contracts that
//! relate the composite to its parts.

use vstd::prelude::*;

verus! {

/// Right-to-left composition: applies `f`, then `g`.
///
/// The returned function may be called on `x` whenever `f` may, and
/// whatever `f` can produce from `x` is acceptable to `g`; each of its
/// results is `g` applied to some result of `f`.
pub fn compose<A, B, C, F: Fn(A) -> B, G: Fn(B) -> C>(f: F, g: G) -> (h: impl Fn(A) -> C)
    ensures
        forall|x: A|
            call_requires(f, (x,)) && (forall|y: B|
                call_ensures(f, (x,), y) ==> call_requires(g, (y,))) ==> #[trigger] call_requires(
                h,
                (x,),
            ),
        forall|x: A, r: C|
            #[trigger] call_ensures(h, (x,), r) ==> exists|y: B|
                call_ensures(f, (x,), y) && call_ensures(g, (y,), r),
{
    move |x: A| -> (r: C)
        requires
            call_requires(f, (x,)),
            forall|y: B| call_ensures(f, (x,), y) ==> call_requires(g, (y,)),
        ensures
            exists|y: B| call_ensures(f, (x,), y) && call_ensures(g, (y,), r),
        {
            let y = f(x);
            g(y)
        }
}

/// Composition of three functions: applies `f`, then `g`, then `h`.
pub fn compose3<A, B, C, D, F: Fn(A) -> B, G: Fn(B) -> C, H: Fn(C) -> D>(f: F, g: G, h: H) -> (c:
    impl Fn(A) -> D)
    ensures
        forall|x: A|
            call_requires(f, (x,)) && (forall|y: B|
                call_ensures(f, (x,), y) ==> call_requires(g, (y,))) && (forall|y: B, z: C|
                call_ensures(f, (x,), y) && call_ensures(g, (y,), z) ==> call_requires(
                    h,
                    (z,),
                )) ==> #[trigger] call_requires(c, (x,)),
        forall|x: A, r: D|
            #[trigger] call_ensures(c, (x,), r) ==> exists|y: B, z: C|
                call_ensures(f, (x,), y) && call_ensures(g, (y,), z) && call_ensures(h, (z,), r),
{
    move |x: A| -> (r: D)
        requires
            call_requires(f, (x,)),
            forall|y: B| call_ensures(f, (x,), y) ==> call_requires(g, (y,)),
            forall|y: B, z: C|
                call_ensures(f, (x,), y) && call_ensures(g, (y,), z) ==> call_requires(h, (z,)),
        ensures
            exists|y: B, z: C|
                call_ensures(f, (x,), y) && call_ensures(g, (y,), z) && call_ensures(h, (z,), r),
        {
            let y = f(x);
            let z = g(y);
            h(z)
        }
}

/// Left-to-right pipeline: applies `f`, then `g` — composition read in
/// application order.
pub fn pipe<A, B, C, F: Fn(A) -> B, G: Fn(B) -> C>(f: F, g: G) -> (h: impl Fn(A) -> C)
    ensures
        forall|x: A|
            call_requires(f, (x,)) && (forall|y: B|
                call_ensures(f, (x,), y) ==> call_requires(g, (y,))) ==> #[trigger] call_requires(
                h,
                (x,),
            ),
        forall|x: A, r: C|
            #[trigger] call_ensures(h, (x,), r) ==> exists|y: B|
                call_ensures(f, (x,), y) && call_ensures(g, (y,), r),
{
    move |x: A| -> (r: C)
        requires
            call_requires(f, (x,)),
            forall|y: B| call_ensures(f, (x,), y) ==> call_requires(g, (y,)),
        ensures
            exists|y: B| call_ensures(f, (x,), y) && call_ensures(g, (y,), r),
        {
            let y = f(x);
            g(y)
        }
}

} // verus!
