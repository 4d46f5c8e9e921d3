//! The page of the branches of a repository.

use vstd::prelude::*;
use crate::models::Repository;
use crate::templates::commits::branches::content;
use crate::templates::layout::page;
use crate::text::texts;

verus! {

/// The page of the branches of a repository, read from the lines of the
/// list of branches.
pub fn render(repo: &Repository, branches: &Vec<String>) -> (html: String)
    ensures
        html@ == page("Branches - "@ + repo.name@, content(repo@, texts(branches@)), None),
{
    crate::templates::commits::branches::render(repo, branches)
}

} // verus!
