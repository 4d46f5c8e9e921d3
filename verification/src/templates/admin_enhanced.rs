//! The detailed node pages of the administration.

pub mod node_details;
pub mod nodes_enhanced;
