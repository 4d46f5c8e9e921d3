//! Checks on what arrives from outside, and the hash that names a
//! repository.

pub mod hash;
pub mod validation;
