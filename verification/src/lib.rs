//! A library of classic design patterns, each rendered as verified code.
//!
//! The centrepiece is [`machine`], a finite-state resource-dispensing
//! controller: a closed set of states, a total transition table, and a
//! context that owns the current state together with its inventory count
//! and commits every transition atomically.  The remaining modules are
//! small, self-contained illustrations of behavioural, creational,
//! structural and functional patterns.

pub mod machine;
pub mod structural;
pub mod textutil;
pub mod behavioral;
pub mod creational;
pub mod functional;
