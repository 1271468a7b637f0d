//! A small poll registry: polls are created under their question text and
//! collect yes/no votes. The registry and the single admin configuration
//! record live in an in-memory store that a host runtime persists between
//! requests; every handler states exactly how it changes that store.

pub mod contract;
pub mod error;
pub mod msg;
pub mod response;
pub mod state;
