//! What the endpoints of the service decide, apart from the transport:
//! who may do what, which requests are refused and with which status, and
//! what is stored or handed out.

use vstd::prelude::*;
use crate::models::RepositoryView;

pub mod admin_web;
pub mod api;
pub mod api_complete;
pub mod api_enhanced;
pub mod clone_page;
pub mod git;
pub mod git_http;
pub mod git_http_complete;
pub mod repo_browser;
pub mod web;
pub mod web_enhanced;

verus! {

/// The status of a response.
#[derive(Debug, Clone, Copy, PartialEq, Eq, Structural)]
pub enum HttpStatus {
    Success,
    NoContent,
    BadRequest,
    Unauthorized,
    Forbidden,
    NotFound,
    PayloadTooLarge,
    TooManyRequests,
    InternalServerError,
}

impl HttpStatus {
    /// The number of the status.
    pub open spec fn code_spec(self) -> u16 {
        match self {
            HttpStatus::Success => 200,
            HttpStatus::NoContent => 204,
            HttpStatus::BadRequest => 400,
            HttpStatus::Unauthorized => 401,
            HttpStatus::Forbidden => 403,
            HttpStatus::NotFound => 404,
            HttpStatus::PayloadTooLarge => 413,
            HttpStatus::TooManyRequests => 429,
            HttpStatus::InternalServerError => 500,
        }
    }

    /// The number of the status.
    pub fn code(&self) -> (code: u16)
        ensures
            code == self.code_spec(),
    {
        match self {
            HttpStatus::Success => 200,
            HttpStatus::NoContent => 204,
            HttpStatus::BadRequest => 400,
            HttpStatus::Unauthorized => 401,
            HttpStatus::Forbidden => 403,
            HttpStatus::NotFound => 404,
            HttpStatus::PayloadTooLarge => 413,
            HttpStatus::TooManyRequests => 429,
            HttpStatus::InternalServerError => 500,
        }
    }
}

/// Why `user` may not read the repository, if there is a reason: a
/// private repository is read by its owner alone.
pub open spec fn read_fault(repo: RepositoryView, user: Option<i64>) -> Option<HttpStatus> {
    if repo.is_private != 0 {
        match user {
            None => Some(HttpStatus::Unauthorized),
            Some(id) => if repo.owner_id != id {
                Some(HttpStatus::Forbidden)
            } else {
                None
            },
        }
    } else {
        None
    }
}

/// Why `user` may not write to the repository, if there is a reason: a
/// repository is written to by its owner alone.
pub open spec fn write_fault(repo: RepositoryView, user: i64) -> Option<HttpStatus> {
    if repo.owner_id != user {
        Some(HttpStatus::Forbidden)
    } else {
        None
    }
}

/// Decides whether `user` may read a repository with the given owner and
/// privacy flag.
pub fn check_read_access(owner_id: i64, is_private: i64, user: Option<i64>) -> (verdict: Result<
    (),
    HttpStatus,
>)
    ensures
        match verdict {
            Ok(_) => is_private == 0 || user == Some(owner_id),
            Err(status) => is_private != 0 && match user {
                None => status == HttpStatus::Unauthorized,
                Some(id) => id != owner_id && status == HttpStatus::Forbidden,
            },
        },
{
    if is_private != 0 {
        match user {
            None => Err(HttpStatus::Unauthorized),
            Some(id) => if owner_id != id {
                Err(HttpStatus::Forbidden)
            } else {
                Ok(())
            },
        }
    } else {
        Ok(())
    }
}

} // verus!
