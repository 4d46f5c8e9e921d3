//! The headers that every response carries, and the requests that are
//! turned away before they reach an endpoint.

use vstd::prelude::*;
use vstd::string::StringExecFns;
use crate::handlers::HttpStatus;
use crate::text::{
    chars_of, contains_char, contains_chars, find_char, has_substring, index_of_char, parse_int,
    parsed_int, range_equals, trim_bounds, trimmed,
};
use crate::utils::validation::{all_ascii, ascii_lowered, to_lowercase};

verus! {

/// No larger request is taken: a hundred mebibytes.
pub const MAX_REQUEST_SIZE: usize = 100 * 1024 * 1024;

pub const CONTENT_SECURITY_POLICY: &'static str =
    "default-src 'self'; script-src 'self' 'unsafe-inline' https://cdnjs.cloudflare.com; style-src 'self' 'unsafe-inline'; img-src 'self' data: https:; font-src 'self' https://cdnjs.cloudflare.com; connect-src 'self'; frame-ancestors 'none'; base-uri 'self'; form-action 'self'";

pub const PERMISSIONS_POLICY: &'static str =
    "geolocation=(), microphone=(), camera=(), payment=(), usb=(), magnetometer=(), gyroscope=(), accelerometer=()";

/// A header: its name and its value.
pub struct Header {
    pub name: &'static str,
    pub value: &'static str,
}

/// The headers that are set on every response, in their order; the last
/// but one only where transport security is switched on. The header
/// `server` is taken off besides.
pub open spec fn security_header_names(enable_hsts: bool) -> Seq<Seq<char>> {
    let first = seq![
        "x-frame-options"@,
        "x-content-type-options"@,
        "x-xss-protection"@,
        "referer"@,
        "content-security-policy"@,
        "permissions-policy"@,
    ];
    if enable_hsts {
        first.push("strict-transport-security"@).push("x-security-policy"@)
    } else {
        first.push("x-security-policy"@)
    }
}

/// The headers to set on a response.
pub fn security_headers(enable_hsts: bool) -> (headers: Vec<Header>)
    ensures
        headers@.len() == security_header_names(enable_hsts).len(),
        forall|i: int|
            0 <= i < headers@.len() ==> (#[trigger] headers@[i]).name@ == security_header_names(
                enable_hsts,
            )[i],
        headers@[0].value@ == "DENY"@,
        headers@[1].value@ == "nosniff"@,
        headers@[2].value@ == "1; mode=block"@,
        headers@[3].value@ == "strict-origin-when-cross-origin"@,
        headers@[4].value@ == CONTENT_SECURITY_POLICY@,
        headers@[5].value@ == PERMISSIONS_POLICY@,
        enable_hsts ==> headers@[6].value@ == "max-age=31536000; includeSubDomains; preload"@,
        headers@[headers@.len() - 1].value@ == "Hyrule-Secure-1.0"@,
{
    let mut headers: Vec<Header> = Vec::new();
    headers.push(Header { name: "x-frame-options", value: "DENY" });
    headers.push(Header { name: "x-content-type-options", value: "nosniff" });
    headers.push(Header { name: "x-xss-protection", value: "1; mode=block" });
    headers.push(Header { name: "referer", value: "strict-origin-when-cross-origin" });
    headers.push(Header { name: "content-security-policy", value: CONTENT_SECURITY_POLICY });
    headers.push(Header { name: "permissions-policy", value: PERMISSIONS_POLICY });
    if enable_hsts {
        headers.push(
            Header {
                name: "strict-transport-security",
                value: "max-age=31536000; includeSubDomains; preload",
            },
        );
    }
    headers.push(Header { name: "x-security-policy", value: "Hyrule-Secure-1.0" });
    headers
}

/// `origin` is one of the origins of the list `allowed`, whose entries
/// are parted by `,` and read without the white space around them.
pub open spec fn origin_listed(allowed: Seq<char>, origin: Seq<char>) -> bool
    decreases allowed.len(),
{
    let end = index_of_char(allowed, ',');
    trimmed(allowed.take(end)) == origin || (0 <= end < allowed.len() && origin_listed(
        allowed.skip(end + 1),
        origin,
    ))
}

/// Whether responses may be shared with pages of `origin`.
pub fn origin_allowed(allowed_origins: &str, origin: &str) -> (allowed: bool)
    ensures
        allowed == origin_listed(allowed_origins@, origin@),
{
    let chars = chars_of(allowed_origins);
    let wanted = chars_of(origin);
    let n = chars.len();
    let mut start: usize = 0;
    assert(chars@.skip(0) == chars@);
    loop
        invariant
            start <= n,
            n == chars@.len(),
            chars@ == allowed_origins@,
            wanted@ == origin@,
            origin_listed(allowed_origins@, origin@) == origin_listed(
                chars@.skip(start as int),
                origin@,
            ),
        decreases n - start,
    {
        let ghost rest = chars@.skip(start as int);
        assert(rest == chars@.subrange(start as int, n as int));
        let end = find_char(&chars, start, n, ',');
        let (from, to) = trim_bounds(&chars, start, end);
        proof {
            assert(chars@.subrange(start as int, end as int) == rest.take(end - start));
        }
        if range_equals(&chars, from, to, &wanted) {
            return true;
        }
        if end >= n {
            return false;
        }
        proof {
            assert(rest.skip(end - start + 1) == chars@.skip(end + 1));
        }
        start = end + 1;
    }
}

/// Some entry of the list `origins`, whose entries are parted by `,`, is
/// empty or white space only.
pub open spec fn has_empty_origin(origins: Seq<char>) -> bool
    decreases origins.len(),
{
    let end = index_of_char(origins, ',');
    trimmed(origins.take(end)).len() == 0 || (0 <= end < origins.len() && has_empty_origin(
        origins.skip(end + 1),
    ))
}

/// What is wrong with the settings that security rests on, if anything:
/// the secret that signs tokens is missing or shorter than thirty-two
/// bytes, or the list of allowed origins has an empty entry.
pub open spec fn security_fault(secret: Option<Seq<char>>, origins: Option<Seq<char>>) -> Option<
    Seq<char>,
> {
    if secret is None {
        Some("CRITICAL: JWT_SECRET environment variable must be set"@)
    } else if crate::text::byte_len(secret.unwrap()) < 32 {
        Some("JWT_SECRET must be at least 32 characters long"@)
    } else if origins is Some && has_empty_origin(origins.unwrap()) {
        Some("ALLOWED_ORIGINS contains empty value"@)
    } else {
        None
    }
}

/// Checks the settings that security rests on before the service starts.
pub fn validate_security_config(jwt_secret: Option<&str>, allowed_origins: Option<&str>) -> (verdict:
    Result<(), &'static str>)
    ensures
        match verdict {
            Ok(_) => security_fault(
                match jwt_secret {
                    Some(s) => Some(s@),
                    None => None,
                },
                match allowed_origins {
                    Some(o) => Some(o@),
                    None => None,
                },
            ) is None,
            Err(reason) => security_fault(
                match jwt_secret {
                    Some(s) => Some(s@),
                    None => None,
                },
                match allowed_origins {
                    Some(o) => Some(o@),
                    None => None,
                },
            ) == Some(reason@),
        },
{
    let secret = match jwt_secret {
        Some(secret) => secret,
        None => {
            return Err("CRITICAL: JWT_SECRET environment variable must be set");
        },
    };
    if secret.len() < 32 {
        return Err("JWT_SECRET must be at least 32 characters long");
    }
    match allowed_origins {
        Some(origins) => {
            let chars = chars_of(origins);
            let n = chars.len();
            let mut start: usize = 0;
            assert(chars@.skip(0) == chars@);
            loop
                invariant
                    start <= n,
                    n == chars@.len(),
                    chars@ == origins@,
                    jwt_secret == Some(secret),
                    allowed_origins == Some(origins),
                    crate::text::byte_len(secret@) >= 32,
                    has_empty_origin(origins@) == has_empty_origin(chars@.skip(start as int)),
                decreases n - start,
            {
                let ghost rest = chars@.skip(start as int);
                assert(rest == chars@.subrange(start as int, n as int));
                let end = find_char(&chars, start, n, ',');
                let (from, to) = trim_bounds(&chars, start, end);
                proof {
                    assert(chars@.subrange(start as int, end as int) == rest.take(end - start));
                }
                if from == to {
                    return Err("ALLOWED_ORIGINS contains empty value");
                }
                if end >= n {
                    return Ok(());
                }
                proof {
                    assert(rest.skip(end - start + 1) == chars@.skip(end + 1));
                }
                start = end + 1;
            }
        },
        None => Ok(()),
    }
}

/// The length that a request announces is a number above the limit.
pub open spec fn announces_too_much(content_length: Option<Seq<char>>) -> bool {
    match content_length {
        Some(text) => match parsed_int(text, false, 0, usize::MAX as int) {
            Some(length) => length > MAX_REQUEST_SIZE,
            None => false,
        },
        None => false,
    }
}

/// Decides whether a request is small enough by the length that it
/// announces. A request that announces none, or no number, passes.
pub fn request_size_limit(content_length: Option<&str>) -> (verdict: Result<(), HttpStatus>)
    ensures
        verdict is Err <==> announces_too_much(
            match content_length {
                Some(text) => Some(text@),
                None => None,
            },
        ),
        verdict matches Err(status) ==> status == HttpStatus::PayloadTooLarge,
{
    match content_length {
        Some(text) => match parse_int(text, false, 0, usize::MAX as i128) {
            Some(length) => if length > MAX_REQUEST_SIZE as i128 {
                Err(HttpStatus::PayloadTooLarge)
            } else {
                Ok(())
            },
            None => Ok(()),
        },
        None => Ok(()),
    }
}

/// The text names one of the tools that scan for weaknesses.
pub open spec fn names_scanner(text: Seq<char>) -> bool {
    ||| has_substring(text, "sqlmap"@)
    ||| has_substring(text, "nikto"@)
    ||| has_substring(text, "masscan"@)
    ||| has_substring(text, "nmap"@)
    ||| has_substring(text, "havij"@)
    ||| has_substring(text, "acunetix"@)
}

/// Whether a user agent is that of a scanner: its name, in any case,
/// holds the name of one. A user agent with characters beyond U+007F is
/// not looked at.
pub fn suspicious_user_agent(user_agent: &str) -> (suspicious: bool)
    ensures
        suspicious == (all_ascii(user_agent@) && names_scanner(ascii_lowered(user_agent@))),
{
    let chars = chars_of(user_agent);
    let mut i: usize = 0;
    while i < chars.len()
        invariant
            i <= chars.len(),
            chars@ == user_agent@,
            forall|k: int| 0 <= k < i ==> (#[trigger] chars@[k] as u32) < 0x80,
        decreases chars.len() - i,
    {
        if chars[i] as u32 >= 0x80 {
            assert(!((user_agent@[i as int] as u32) < 0x80));
            return false;
        }
        i += 1;
    }
    let lowered = to_lowercase(user_agent);
    let low = chars_of(lowered.as_str());
    contains_chars(&low, &chars_of("sqlmap")) || contains_chars(&low, &chars_of("nikto"))
        || contains_chars(&low, &chars_of("masscan")) || contains_chars(&low, &chars_of("nmap"))
        || contains_chars(&low, &chars_of("havij")) || contains_chars(
        &low,
        &chars_of("acunetix"),
    )
}

/// The value of a header tries to end the header: it holds a carriage
/// return or a line feed.
pub open spec fn breaks_header(value: Seq<char>) -> bool {
    value.contains('\r') || value.contains('\n')
}

/// Decides whether the headers of a request show an attack: the user
/// agent of a scanner is `Forbidden`, a header value with a line break a
/// `BadRequest`.
pub fn attack_prevention(user_agent: Option<&str>, header_values: &Vec<String>) -> (verdict:
    Result<(), HttpStatus>)
    ensures
        match verdict {
            Ok(_) => !(user_agent is Some && all_ascii(user_agent.unwrap()@) && names_scanner(
                ascii_lowered(user_agent.unwrap()@),
            )) && forall|i: int|
                0 <= i < header_values@.len() ==> !breaks_header((#[trigger] header_values@[i])@),
            Err(status) => if user_agent is Some && all_ascii(user_agent.unwrap()@)
                && names_scanner(ascii_lowered(user_agent.unwrap()@)) {
                status == HttpStatus::Forbidden
            } else {
                status == HttpStatus::BadRequest && exists|i: int|
                    0 <= i < header_values@.len() && breaks_header((#[trigger] header_values@[i])@)
            },
        },
{
    match user_agent {
        Some(agent) => {
            if suspicious_user_agent(agent) {
                return Err(HttpStatus::Forbidden);
            }
        },
        None => {},
    }
    let mut i: usize = 0;
    while i < header_values.len()
        invariant
            i <= header_values.len(),
            !(user_agent is Some && all_ascii(user_agent.unwrap()@) && names_scanner(
                ascii_lowered(user_agent.unwrap()@),
            )),
            forall|k: int| 0 <= k < i ==> !breaks_header((#[trigger] header_values@[k])@),
        decreases header_values.len() - i,
    {
        let chars = chars_of(header_values[i].as_str());
        if contains_char(&chars, '\r') || contains_char(&chars, '\n') {
            assert(breaks_header(header_values@[i as int]@));
            return Err(HttpStatus::BadRequest);
        }
        i += 1;
    }
    Ok(())
}

} // verus!
