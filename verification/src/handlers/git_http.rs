//! The smart transport over HTTP: which service a client may ask for, and
//! how the answer is framed.

use vstd::prelude::*;
use vstd::slice::slice_to_vec;
use vstd::string::StringExecFns;
use crate::handlers::HttpStatus;
use crate::text::{byte_len, digits, hex_text, str_eq, zero_padded};

verus! {

/// The service that a client of the smart protocol asks for.
#[derive(Debug)]
pub struct GitService {
    pub service: String,
}

/// A line of the protocol: the length of the line in four hexadecimal
/// digits, the four digits counted in, and the text.
pub open spec fn packet(data: Seq<char>) -> Seq<char> {
    zero_padded(digits((byte_len(data) + 4) as nat, 16), 4) + data
}

/// Frames a text as a line of the protocol.
pub fn format_packet(data: &str) -> (line: String)
    requires
        byte_len(data@) <= usize::MAX - 4,
    ensures
        line@ == packet(data@),
{
    let len = data.len() + 4;
    let mut line = hex_text(len as u64, 4);
    line.append(data);
    line
}

/// The command of `git` behind a service of the protocol.
pub open spec fn command_of(service: Seq<char>) -> Option<Seq<char>> {
    if service == "git-upload-pack"@ {
        Some("upload-pack"@)
    } else if service == "git-receive-pack"@ {
        Some("receive-pack"@)
    } else {
        None
    }
}

/// The command of `git` to run for a service; any other service is a
/// `BadRequest`.
pub fn git_command(service: &str) -> (command: Result<&'static str, HttpStatus>)
    ensures
        match command {
            Ok(name) => command_of(service@) == Some(name@),
            Err(status) => command_of(service@) is None && status == HttpStatus::BadRequest,
        },
{
    if str_eq(service, "git-upload-pack") {
        Ok("upload-pack")
    } else if str_eq(service, "git-receive-pack") {
        Ok("receive-pack")
    } else {
        Err(HttpStatus::BadRequest)
    }
}

/// The announcement that opens the advertisement of a service.
pub open spec fn service_line(service: Seq<char>) -> Seq<char> {
    "# service="@ + service + "\n"@
}

/// The advertisement of a service: the framed announcement, a flush
/// packet, and what `git` printed.
pub open spec fn advertisement_of(service: Seq<char>, output: Seq<u8>) -> Seq<u8> {
    vstd::utf8::encode_utf8(packet(service_line(service))) + vstd::utf8::encode_utf8("0000"@)
        + output
}

/// Builds the advertisement of a service out of what `git` printed.
pub fn advertisement(service: &str, output: &[u8]) -> (body: Vec<u8>)
    requires
        byte_len(service_line(service@)) <= usize::MAX - 4,
    ensures
        body@ == advertisement_of(service@, output@),
{
    let mut announcement = String::from_str("# service=");
    announcement.append(service);
    announcement.append("\n");
    let line = format_packet(announcement.as_str());
    let mut body = slice_to_vec(line.as_str().as_bytes());
    body.extend_from_slice("0000".as_bytes());
    body.extend_from_slice(output);
    body
}

/// The type of the advertisement of a service.
pub fn advertisement_content_type(service: &str) -> (content_type: String)
    ensures
        content_type@ == "application/x-"@ + service@ + "-advertisement"@,
{
    let mut content_type = String::from_str("application/x-");
    content_type.append(service);
    content_type.append("-advertisement");
    content_type
}

/// Decides whether a fetch over the smart protocol may go on: a private
/// repository needs an `Authorization` header.
pub fn fetch_access(is_private: i64, has_authorization: bool) -> (verdict: Result<(), HttpStatus>)
    ensures
        verdict is Ok <==> is_private == 0 || has_authorization,
        verdict matches Err(status) ==> status == HttpStatus::Unauthorized,
{
    if is_private != 0 && !has_authorization {
        Err(HttpStatus::Unauthorized)
    } else {
        Ok(())
    }
}

} // verus!
