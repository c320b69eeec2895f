//! A signaling relay core: a registry that maps peer identifiers to live
//! connections, and the per-connection routing and teardown decisions.

pub mod command;
pub mod frame;
pub mod laws;
pub mod registry;
pub mod session;
pub mod supervisor;
