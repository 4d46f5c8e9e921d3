//! Replica placement and storage engine for a network of repository-hosting
//! nodes: a content-addressed object store, the node and replica registries,
//! the placement engine and the health monitor, with machine-checked
//! contracts.

pub mod auth;
pub mod config;
pub mod db;
pub mod encoding;
pub mod error;
pub mod handlers;
pub mod middleware;
pub mod models;
pub mod nodes;
pub mod replicas;
pub mod routes;
pub mod services;
pub mod storage;
pub mod templates;
pub mod text;
pub mod utils;
