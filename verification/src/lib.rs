//! A bridge between caller threads and a single-threaded, callback-driven
//! DNS resolution engine.

pub mod config;
pub mod message;
pub mod fsm;
pub mod laws;
pub mod reactor;
pub mod registry;
pub mod resolver;
pub mod startup;
