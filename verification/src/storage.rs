//! The object store: content-addressed blobs and named refs, kept per
//! repository.

pub mod codec;
pub mod git;
pub mod paths;
