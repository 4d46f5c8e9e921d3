//! The pages of a signed-in user: what a button asks for and where the
//! browser is sent afterwards.

use vstd::prelude::*;
use crate::templates::layout::{page, render_page};
use vstd::string::StringExecFns;
use crate::handlers::HttpStatus;
use crate::models::CreateRepoRequest;
use crate::text::{byte_len, str_eq};

verus! {

/// What a button on a repository page asks for.
#[derive(Debug)]
pub struct RepoAction {
    pub action: String,
    pub repo_hash: String,
}

/// What the fork form sends.
#[derive(Debug)]
pub struct ForkRepoForm {
    pub repo_hash: String,
    pub new_name: Option<String>,
    pub description: Option<String>,
}

/// What the form for a new repository sends.
#[derive(Debug)]
pub struct CreateRepoForm {
    pub name: String,
    pub description: Option<String>,
    pub is_private: Option<String>,
}

/// What a search asks for.
#[derive(Debug)]
pub struct SearchQuery {
    pub q: Option<String>,
    pub tag: Option<String>,
}

/// The actions of the buttons of a repository page.
#[derive(Debug, Clone, Copy, PartialEq, Eq, Structural)]
pub enum RepoActionKind {
    Star,
    Unstar,
    Pin,
    Unpin,
    Delete,
}

/// The action that a word of the form names.
pub open spec fn action_of(word: Seq<char>) -> Option<RepoActionKind> {
    if word == "star"@ {
        Some(RepoActionKind::Star)
    } else if word == "unstar"@ {
        Some(RepoActionKind::Unstar)
    } else if word == "pin"@ {
        Some(RepoActionKind::Pin)
    } else if word == "unpin"@ {
        Some(RepoActionKind::Unpin)
    } else if word == "delete"@ {
        Some(RepoActionKind::Delete)
    } else {
        None
    }
}

/// Reads the action of a button; an unknown word is a `BadRequest`.
pub fn parse_repo_action(word: &str) -> (action: Result<RepoActionKind, HttpStatus>)
    ensures
        match action {
            Ok(kind) => action_of(word@) == Some(kind),
            Err(status) => action_of(word@) is None && status == HttpStatus::BadRequest,
        },
{
    if str_eq(word, "star") {
        Ok(RepoActionKind::Star)
    } else if str_eq(word, "unstar") {
        Ok(RepoActionKind::Unstar)
    } else if str_eq(word, "pin") {
        Ok(RepoActionKind::Pin)
    } else if str_eq(word, "unpin") {
        Ok(RepoActionKind::Unpin)
    } else if str_eq(word, "delete") {
        Ok(RepoActionKind::Delete)
    } else {
        Err(HttpStatus::BadRequest)
    }
}

/// What a failed action tells the user.
pub fn action_failure(kind: RepoActionKind) -> (message: &'static str)
    ensures
        message@ == match kind {
            RepoActionKind::Star => "Failed to star repository"@,
            RepoActionKind::Unstar => "Failed to unstar repository"@,
            RepoActionKind::Pin => "Failed to pin repository"@,
            RepoActionKind::Unpin => "Failed to unpin repository"@,
            RepoActionKind::Delete => "Failed to delete repository"@,
        },
{
    match kind {
        RepoActionKind::Star => "Failed to star repository",
        RepoActionKind::Unstar => "Failed to unstar repository",
        RepoActionKind::Pin => "Failed to pin repository",
        RepoActionKind::Unpin => "Failed to unpin repository",
        RepoActionKind::Delete => "Failed to delete repository",
    }
}

/// Where the browser goes after an action: to the dashboard after a
/// removal, back to the repository otherwise.
pub fn action_redirect(kind: RepoActionKind, repo_hash: &str) -> (target: String)
    ensures
        target@ == if kind == RepoActionKind::Delete {
            "/dashboard"@
        } else {
            "/r/"@ + repo_hash@
        },
{
    match kind {
        RepoActionKind::Delete => String::from_str("/dashboard"),
        _ => repo_url(repo_hash),
    }
}

/// The page of a repository.
pub fn repo_url(repo_hash: &str) -> (url: String)
    ensures
        url@ == "/r/"@ + repo_hash@,
{
    let mut url = String::from_str("/r/");
    url.append(repo_hash);
    url
}

/// Checks the form for a new repository and builds the request from it:
/// the name must have three to sixty-four bytes, and the repository is
/// private where the box was ticked.
pub fn create_repo_request(form: CreateRepoForm) -> (request: Result<CreateRepoRequest, HttpStatus>)
    ensures
        match request {
            Ok(r) => 3 <= byte_len(form.name@) <= 64 && r.name@ == form.name@
                && r.storage_tier@ == "free"@ && r.is_private == form.is_private.is_some()
                && r.description == form.description,
            Err(status) => status == HttpStatus::BadRequest && !(3 <= byte_len(form.name@) <= 64),
        },
{
    if form.name.as_str().len() < 3 || form.name.as_str().len() > 64 {
        return Err(HttpStatus::BadRequest);
    }
    Ok(
        CreateRepoRequest {
            name: form.name,
            description: form.description,
            storage_tier: String::from_str("free"),
            is_private: form.is_private.is_some(),
        },
    )
}

/// What a search page looks up.
#[derive(Debug)]
pub enum SearchPlan {
    /// repositories whose name or description holds the text, fifty at
    /// most
    Text(String),
    /// repositories that carry the tag
    Tag(String),
    /// nothing
    Nothing,
}

/// Decides what a search page looks up and how it names the search: a
/// text goes before a tag, and a tag is named `tag:` and the tag.
pub fn search_plan(query: SearchQuery) -> (plan: (SearchPlan, String))
    ensures
        match plan.0 {
            SearchPlan::Text(text) => query.q == Some(text) && plan.1@ == text@,
            SearchPlan::Tag(tag) => query.q is None && query.tag == Some(tag) && plan.1@
                == "tag:"@ + tag@,
            SearchPlan::Nothing => query.q is None && query.tag is None && plan.1@.len() == 0,
        },
{
    match query.q {
        Some(text) => {
            let term = text.clone();
            (SearchPlan::Text(text), term)
        },
        None => match query.tag {
            Some(tag) => {
                let mut term = String::from_str("tag:");
                term.append(tag.as_str());
                (SearchPlan::Tag(tag), term)
            },
            None => (SearchPlan::Nothing, String::new()),
        },
    }
}

/// What a page tells the owner, the starrer and the pinner of a
/// repository apart: nobody without a session is any of the three.
pub fn viewer_flags(user: Option<i64>, owner_id: i64, starred: bool, pinned: bool) -> (flags: (
    bool,
    bool,
    bool,
))
    ensures
        flags == match user {
            Some(id) => (id == owner_id, starred, pinned),
            None => (false, false, false),
        },
{
    match user {
        Some(id) => (id == owner_id, starred, pinned),
        None => (false, false, false),
    }
}

/// The body of the page of `redirect_to_login`.
pub const LOGIN_REQUIRED: &'static str = r#"<div class="section">
            <h1>Login Required</h1>
            <p>Please login to access the dashboard.</p>
            <a href="/login" class="btn btn-primary">Go to Login</a>
        </div>"#;

/// The page that sends a visitor without a session to the login.
pub fn redirect_to_login() -> (html: String)
    ensures
        html@ == page("Login Required"@, LOGIN_REQUIRED@, None),
{
    render_page("Login Required", LOGIN_REQUIRED)
}

/// Part 1 of the page of `error_page`.
pub const ERROR_0: &'static str = r#"<div class="section">
                <h1>Error</h1>
                <p>"#;

/// Part 2 of the page of `error_page`.
pub const ERROR_1: &'static str = r#"</p>
                <a href="javascript:history.back()" class="btn btn-secondary">Go Back</a>
            </div>"#;

/// The page that tells of an error.
pub fn error_page(message: &str) -> (html: String)
    ensures
        html@ == page("Error"@, ERROR_0@ + message@ + ERROR_1@, None),
{
    let mut body = String::from_str(ERROR_0);
    body.append(message);
    body.append(ERROR_1);
    render_page("Error", body.as_str())
}

} // verus!
