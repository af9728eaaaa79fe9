//! Behavioural patterns: how objects distribute responsibility and
//! communicate.

pub mod chain_of_responsibility;
pub mod command;
pub mod interpreter;
pub mod iterator;
pub mod mediator;
pub mod memento;
pub mod observer;
pub mod strategy;
pub mod template_method;
pub mod typestate;
