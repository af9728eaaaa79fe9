//! Structural patterns: how objects are composed into larger wholes.

pub mod adapter;
pub mod bridge;
pub mod composite;
pub mod facade;
pub mod flyweight;
pub mod proxy;
