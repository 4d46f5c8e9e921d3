//! The smart transport over HTTP with sessions and tokens, and the dumb
//! fallback.

use vstd::prelude::*;
use vstd::string::StringExecFns;
use crate::handlers::git_http::packet;
use crate::handlers::HttpStatus;
use crate::text::{byte_len, hex_text, str_eq};

verus! {

/// The service that a client of the smart protocol asks for.
#[derive(Debug)]
pub struct GitService {
    pub service: String,
}

/// Frames a text as a line of the protocol: its length in four
/// hexadecimal digits, the four digits counted in, and the text.
pub fn format_pkt_line(data: &str) -> (line: String)
    requires
        byte_len(data@) <= usize::MAX - 4,
    ensures
        line@ == packet(data@),
{
    let len = data.len() + 4;
    let mut line = hex_text(len as u64, 4);
    line.append(data);
    line
}

/// A request needs a signed-in user: the repository is private, or the
/// client wants to push.
pub open spec fn needs_user(is_private: i64, service: Seq<char>) -> bool {
    is_private != 0 || service == "git-receive-pack"@
}

/// Decides whether the refs of a repository may be advertised to
/// `user`: pushing and private repositories are for the owner.
pub fn info_refs_access(owner_id: i64, is_private: i64, service: &str, user: Option<i64>) -> (verdict:
    Result<(), HttpStatus>)
    ensures
        match verdict {
            Ok(_) => needs_user(is_private, service@) ==> user == Some(owner_id),
            Err(status) => needs_user(is_private, service@) && match user {
                None => status == HttpStatus::Unauthorized,
                Some(id) => id != owner_id && status == HttpStatus::Forbidden,
            },
        },
{
    if is_private != 0 || str_eq(service, "git-receive-pack") {
        match user {
            None => Err(HttpStatus::Unauthorized),
            Some(id) => if owner_id != id {
                Err(HttpStatus::Forbidden)
            } else {
                Ok(())
            },
        }
    } else {
        Ok(())
    }
}

/// Decides whether `user` may push to a repository: the owner alone, and
/// nobody without a session or token.
pub fn push_access(owner_id: i64, user: Option<i64>) -> (verdict: Result<(), HttpStatus>)
    ensures
        match verdict {
            Ok(_) => user == Some(owner_id),
            Err(status) => match user {
                None => status == HttpStatus::Unauthorized,
                Some(id) => id != owner_id && status == HttpStatus::Forbidden,
            },
        },
{
    match user {
        None => Err(HttpStatus::Unauthorized),
        Some(id) => if owner_id != id {
            Err(HttpStatus::Forbidden)
        } else {
            Ok(())
        },
    }
}

/// How a bundle of a repository is offered for download.
pub fn bundle_disposition(repo_name: &str) -> (disposition: String)
    ensures
        disposition@ == "attachment; filename=\""@ + repo_name@ + ".bundle\""@,
{
    let mut disposition = String::from_str("attachment; filename=\"");
    disposition.append(repo_name);
    disposition.append(".bundle\"");
    disposition
}

/// The user of a request: the one of its session, else the one of its
/// token.
pub fn authenticated_user_id(session_user: Option<i64>, token_user: Option<i64>) -> (user:
    Option<i64>)
    ensures
        user == match session_user {
            Some(id) => Some(id),
            None => token_user,
        },
{
    match session_user {
        Some(id) => Some(id),
        None => token_user,
    }
}

} // verus!
