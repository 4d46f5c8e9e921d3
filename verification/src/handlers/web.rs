//! The plain pages.

use vstd::prelude::*;

verus! {

/// The query of the login page.
#[derive(Debug)]
pub struct LoginQuery {
    pub success: Option<String>,
}

/// How many repositories the page that explores them shows.
pub const EXPLORE_LIMIT: i64 = 50;

} // verus!
