//! The guards in front of the endpoints.

pub mod csrf;
pub mod rate_limit;
pub mod security;
