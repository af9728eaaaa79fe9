//! Functional patterns: composition, currying, functors and friends.

pub mod applicative;
pub mod composition;
pub mod currying;
pub mod functor;
pub mod memoization;
pub mod options;
pub mod promise;
