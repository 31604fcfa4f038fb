//! An agent-based simulation harness over an in-memory execution backend: the manager that
//! activates agents under uniqueness rules and unpacks execution outcomes, the environment that
//! fans log batches out to the agents' channels, the call data of the contracts that the
//! agents talk to, and the block targets of transaction bundles.

pub mod agent;
pub mod architect;
pub mod backend;
pub mod bindings;
pub mod channel;
pub mod environment;
pub mod manager;
pub mod outcome;
pub mod primitives;
pub mod text;
