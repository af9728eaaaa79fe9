//! Creational patterns: how objects come into being.

pub mod abstract_factory;
pub mod builder;
pub mod factory;
pub mod factory_method;
pub mod lazy_initialization;
pub mod object_pool;
