//! The services that keep the network replicated: the placement engine and
//! the health monitor.

pub mod health;
pub mod replication;
