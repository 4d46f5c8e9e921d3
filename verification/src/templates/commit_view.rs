//! The page of one commit.

use vstd::prelude::*;
use crate::models::Repository;
use crate::templates::commits::commit_view::{content, title};
use crate::templates::layout::page;

verus! {

/// The page of the commit `commit_hash` with the message `info` and the
/// changes `diff`.
pub fn render(repo: &Repository, commit_hash: &str, info: &str, diff: &str) -> (html: String)
    ensures
        html@ == page(title(repo@, commit_hash@), content(repo@, commit_hash@, info@, diff@), None),
{
    crate::templates::commits::commit_view::render(repo, commit_hash, info, diff)
}

} // verus!
