//! The format checks that every path, name, hash and password passes
//! before the engine works with it.

use vstd::prelude::*;
use vstd::string::StringExecFns;
use regex::Regex;
use crate::text::{
    byte_len, chars_of, contains_char, contains_chars, has_substring, push_char, str_eq,
};

verus! {

pub const MAX_PATH_LENGTH: usize = 1024;

pub const MAX_REPO_HASH_LENGTH: usize = 64;

pub const MAX_USERNAME_LENGTH: usize = 32;

pub const MIN_USERNAME_LENGTH: usize = 3;

pub const MAX_REPO_NAME_LENGTH: usize = 64;

pub const MIN_REPO_NAME_LENGTH: usize = 3;

pub const MAX_REF_NAME_LENGTH: usize = 255;

pub const MIN_PASSWORD_LENGTH: usize = 8;

pub const MAX_PASSWORD_LENGTH: usize = 128;

/// The pattern of user names and repository names.
pub const NAME_PATTERN: &'static str = "^[a-zA-Z0-9_-]+$";

/// The pattern of repository hashes.
pub const REPO_HASH_PATTERN: &'static str = "^[a-f0-9]{40}$";

/// The pattern of branch and ref names.
pub const REF_NAME_PATTERN: &'static str = "^[a-zA-Z0-9_/-]+$";

/// A letter of the Latin alphabet without accent.
pub open spec fn is_ascii_letter(c: char) -> bool {
    ('a' <= c <= 'z') || ('A' <= c <= 'Z')
}

/// One of the digits `0` to `9`.
pub open spec fn is_ascii_digit(c: char) -> bool {
    '0' <= c <= '9'
}

/// A character that a user name or a repository name may hold.
pub open spec fn is_name_char(c: char) -> bool {
    is_ascii_letter(c) || is_ascii_digit(c) || c == '_' || c == '-'
}

/// A digit of a hash in lower case.
pub open spec fn is_lower_hex(c: char) -> bool {
    is_ascii_digit(c) || ('a' <= c <= 'f')
}

/// A control character: U+0000 to U+001F and U+007F to U+009F.
pub open spec fn is_control(c: char) -> bool {
    (c as u32) < 0x20 || 0x7f <= (c as u32) <= 0x9f
}

/// `text` is not empty and holds name characters only.
pub open spec fn name_like(text: Seq<char>) -> bool {
    text.len() >= 1 && forall|i: int| 0 <= i < text.len() ==> is_name_char(#[trigger] text[i])
}

/// `text` is made of forty hash digits in lower case.
pub open spec fn repo_hash_like(text: Seq<char>) -> bool {
    text.len() == 40 && forall|i: int| 0 <= i < text.len() ==> is_lower_hex(#[trigger] text[i])
}

/// `text` is not empty and holds name characters and `/` only.
pub open spec fn ref_like(text: Seq<char>) -> bool {
    text.len() >= 1 && forall|i: int|
        0 <= i < text.len() ==> is_name_char(#[trigger] text[i]) || text[i] == '/'
}

/// Whether the regular expression `pattern` matches somewhere in `text`,
/// as the crate `regex` decides it; `None` where `pattern` is no regular
/// expression.
pub uninterp spec fn regex_matches(pattern: Seq<char>, text: Seq<char>) -> Option<bool>;

/// What the syntax of `regex` says of the three patterns of this module.
/// Each is anchored at both ends of the text (`^`, `$`) and asks for a run
/// of characters of one class: one or more (`+`), or exactly forty
/// (`{40}`).
pub open spec fn known_pattern(pattern: Seq<char>, text: Seq<char>) -> Option<bool> {
    if pattern == NAME_PATTERN@ {
        Some(name_like(text))
    } else if pattern == REPO_HASH_PATTERN@ {
        Some(repo_hash_like(text))
    } else if pattern == REF_NAME_PATTERN@ {
        Some(ref_like(text))
    } else {
        None
    }
}

/// Whether `pattern` matches in `text`.
///
/// Compiles the pattern with `regex::Regex::new` and asks
/// `Regex::is_match`; a pattern that does not compile gives `None`. The
/// result depends on the two strings alone. For the three patterns of this
/// module it is what `known_pattern` states.
#[verifier::external_body]
fn regex_is_match(pattern: &str, text: &str) -> (matched: Option<bool>)
    ensures
        matched == regex_matches(pattern@, text@),
        known_pattern(pattern@, text@) is Some ==> matched == known_pattern(pattern@, text@),
{
    match Regex::new(pattern) {
        Ok(expression) => Some(expression.is_match(text)),
        Err(_) => None,
    }
}

/// The three patterns of this module differ from each other.
pub proof fn lemma_patterns_differ()
    ensures
        NAME_PATTERN@ != REPO_HASH_PATTERN@,
        NAME_PATTERN@ != REF_NAME_PATTERN@,
        REPO_HASH_PATTERN@ != REF_NAME_PATTERN@,
{
    reveal_strlit("^[a-zA-Z0-9_-]+$");
    reveal_strlit("^[a-f0-9]{40}$");
    reveal_strlit("^[a-zA-Z0-9_/-]+$");
    assert(NAME_PATTERN@.len() == 16);
    assert(REPO_HASH_PATTERN@.len() == 14);
    assert(REF_NAME_PATTERN@.len() == 17);
}

/// Whether Unicode counts `c` among the numbers (the general categories
/// `Nd`, `Nl` and `No`).
pub uninterp spec fn unicode_numeric(c: char) -> bool;

/// Whether Unicode counts `c` among the letters (the property
/// `Alphabetic`).
pub uninterp spec fn unicode_alphabetic(c: char) -> bool;

/// Whether `c` is a number.
///
/// Calls `char::is_numeric` of the standard library. Below U+0080 the
/// numbers are the digits `0` to `9`.
#[verifier::external_body]
pub(crate) fn char_is_numeric(c: char) -> (numeric: bool)
    ensures
        numeric == unicode_numeric(c),
        (c as u32) < 0x80 ==> numeric == is_ascii_digit(c),
{
    c.is_numeric()
}

/// Whether `c` is a letter.
///
/// Calls `char::is_alphabetic` of the standard library. Below U+0080 the
/// letters are `a` to `z` and `A` to `Z`.
#[verifier::external_body]
pub(crate) fn char_is_alphabetic(c: char) -> (alphabetic: bool)
    ensures
        alphabetic == unicode_alphabetic(c),
        (c as u32) < 0x80 ==> alphabetic == is_ascii_letter(c),
{
    c.is_alphabetic()
}

/// `c` in lower case, if it is one of `A` to `Z`.
pub open spec fn ascii_lower(c: char) -> char {
    if 'A' <= c <= 'Z' {
        ((c as u32) + 32) as char
    } else {
        c
    }
}

/// `text` with every character in lower case.
pub open spec fn ascii_lowered(text: Seq<char>) -> Seq<char> {
    text.map_values(|c: char| ascii_lower(c))
}

/// Every character of `text` is below U+0080.
pub open spec fn all_ascii(text: Seq<char>) -> bool {
    forall|i: int| 0 <= i < text.len() ==> (#[trigger] text[i] as u32) < 0x80
}

/// The text in lower case.
///
/// Calls `str::to_lowercase` of the standard library, on text below U+0080
/// only: there it turns `A` to `Z` into `a` to `z` and keeps the rest.
#[verifier::external_body]
pub(crate) fn to_lowercase(text: &str) -> (lowered: String)
    requires
        all_ascii(text@),
    ensures
        lowered@ == ascii_lowered(text@),
{
    text.to_lowercase()
}

/// Whether `c` is a control character.
pub fn is_control_char(c: char) -> (control: bool)
    ensures
        control == is_control(c),
{
    let n = c as u32;
    n < 0x20 || (0x7f <= n && n <= 0x9f)
}

/// A relative path that stays below its base and holds nothing that a
/// shell or a file system treats specially.
pub open spec fn safe_path(path: Seq<char>) -> bool {
    &&& 0 < byte_len(path) <= MAX_PATH_LENGTH
    &&& !has_substring(path, ".."@)
    &&& !(path.len() > 0 && (path[0] == '/' || path[0] == '\\'))
    &&& !(path.len() >= 2 && path[1] == ':')
    &&& forall|i: int| 0 <= i < path.len() ==> !is_control(#[trigger] path[i])
    &&& !path.contains('~')
    &&& !path.contains('$')
    &&& !path.contains('`')
    &&& !path.contains('|')
    &&& !path.contains(';')
    &&& !path.contains('&')
    &&& !path.contains('!')
}

fn has_control_char(chars: &Vec<char>) -> (found: bool)
    ensures
        found == exists|i: int| 0 <= i < chars@.len() && is_control(#[trigger] chars@[i]),
{
    let mut i: usize = 0;
    while i < chars.len()
        invariant
            i <= chars.len(),
            forall|k: int| 0 <= k < i ==> !is_control(#[trigger] chars@[k]),
        decreases chars.len() - i,
    {
        if is_control_char(chars[i]) {
            return true;
        }
        i += 1;
    }
    false
}

/// Tells whether a path of a file or directory may be followed below a
/// base directory: it is relative, never steps up, and is free of control
/// characters and of the characters `~ $ ` | ; & !`.
pub fn is_safe_path(path: &str) -> (safe: bool)
    ensures
        safe == safe_path(path@),
{
    if path.len() == 0 || path.len() > MAX_PATH_LENGTH {
        return false;
    }
    let chars = chars_of(path);
    let dots = chars_of("..");
    if contains_chars(&chars, &dots) {
        return false;
    }
    if chars.len() > 0 && (chars[0] == '/' || chars[0] == '\\') {
        return false;
    }
    if chars.len() >= 2 && chars[1] == ':' {
        return false;
    }
    if has_control_char(&chars) {
        return false;
    }
    if contains_char(&chars, '~') || contains_char(&chars, '$') || contains_char(&chars, '`')
        || contains_char(&chars, '|') || contains_char(&chars, ';') || contains_char(&chars, '&')
        || contains_char(&chars, '!') {
        return false;
    }
    true
}

/// Forty hash digits in lower case.
pub open spec fn valid_repo_hash(hash: Seq<char>) -> bool {
    byte_len(hash) == 40 && repo_hash_like(hash)
}

/// Tells whether `hash` has the form of a repository hash: forty hash
/// digits in lower case.
pub fn validate_repo_hash(hash: &str) -> (valid: bool)
    ensures
        valid == valid_repo_hash(hash@),
{
    if hash.len() != 40 {
        return false;
    }
    proof {
        lemma_patterns_differ();
    }
    match regex_is_match(REPO_HASH_PATTERN, hash) {
        Some(matched) => matched,
        None => false,
    }
}

/// The names that no user may take.
pub open spec fn reserved_username(name: Seq<char>) -> bool {
    ||| name == "admin"@
    ||| name == "root"@
    ||| name == "system"@
    ||| name == "api"@
    ||| name == "www"@
    ||| name == "ftp"@
    ||| name == "mail"@
}

/// What is wrong with a user name, if anything: the first of the four
/// checks that it fails.
pub open spec fn username_fault(username: Seq<char>) -> Option<Seq<char>> {
    if byte_len(username) < MIN_USERNAME_LENGTH {
        Some("Username too short (minimum 3 characters)"@)
    } else if byte_len(username) > MAX_USERNAME_LENGTH {
        Some("Username too long (maximum 32 characters)"@)
    } else if !name_like(username) {
        Some("Username can only contain letters, numbers, underscores, and hyphens"@)
    } else if reserved_username(ascii_lowered(username)) {
        Some("Username is reserved"@)
    } else {
        None
    }
}

/// Checks a user name: three to thirty-two characters, letters, digits,
/// `_` and `-` only, and none of the reserved names in any case.
pub fn validate_username(username: &str) -> (verdict: Result<(), &'static str>)
    ensures
        match verdict {
            Ok(_) => username_fault(username@) is None,
            Err(reason) => username_fault(username@) == Some(reason@),
        },
{
    if username.len() < MIN_USERNAME_LENGTH {
        return Err("Username too short (minimum 3 characters)");
    }
    if username.len() > MAX_USERNAME_LENGTH {
        return Err("Username too long (maximum 32 characters)");
    }
    match regex_is_match(NAME_PATTERN, username) {
        Some(true) => {},
        _ => {
            return Err("Username can only contain letters, numbers, underscores, and hyphens");
        },
    }
    let lowered = to_lowercase(username);
    let name = lowered.as_str();
    if str_eq(name, "admin") || str_eq(name, "root") || str_eq(name, "system") || str_eq(
        name,
        "api",
    ) || str_eq(name, "www") || str_eq(name, "ftp") || str_eq(name, "mail") {
        return Err("Username is reserved");
    }
    Ok(())
}

/// The names that no repository may take.
pub open spec fn reserved_repo_name(name: Seq<char>) -> bool {
    ||| name == "git"@
    ||| name == "config"@
    ||| name == "objects"@
    ||| name == "refs"@
    ||| name == "HEAD"@
}

/// What is wrong with a repository name, if anything.
pub open spec fn repo_name_fault(name: Seq<char>) -> Option<Seq<char>> {
    if byte_len(name) < MIN_REPO_NAME_LENGTH {
        Some("Repository name too short (minimum 3 characters)"@)
    } else if byte_len(name) > MAX_REPO_NAME_LENGTH {
        Some("Repository name too long (maximum 64 characters)"@)
    } else if !name_like(name) {
        Some("Repository name can only contain letters, numbers, underscores, and hyphens"@)
    } else if reserved_repo_name(name) {
        Some("Repository name is reserved"@)
    } else {
        None
    }
}

/// Checks a repository name: three to sixty-four characters, letters,
/// digits, `_` and `-` only, and none of the reserved names.
pub fn validate_repo_name(name: &str) -> (verdict: Result<(), &'static str>)
    ensures
        match verdict {
            Ok(_) => repo_name_fault(name@) is None,
            Err(reason) => repo_name_fault(name@) == Some(reason@),
        },
{
    if name.len() < MIN_REPO_NAME_LENGTH {
        return Err("Repository name too short (minimum 3 characters)");
    }
    if name.len() > MAX_REPO_NAME_LENGTH {
        return Err("Repository name too long (maximum 64 characters)");
    }
    match regex_is_match(NAME_PATTERN, name) {
        Some(true) => {},
        _ => {
            return Err(
                "Repository name can only contain letters, numbers, underscores, and hyphens",
            );
        },
    }
    if str_eq(name, "git") || str_eq(name, "config") || str_eq(name, "objects") || str_eq(
        name,
        "refs",
    ) || str_eq(name, "HEAD") {
        return Err("Repository name is reserved");
    }
    Ok(())
}

/// A name that a branch or another ref may carry.
pub open spec fn valid_ref_name(name: Seq<char>) -> bool {
    &&& 0 < byte_len(name) <= MAX_REF_NAME_LENGTH
    &&& ref_like(name)
    &&& name[0] != '/'
    &&& name.last() != '/'
    &&& !has_substring(name, "//"@)
    &&& !has_substring(name, "@{"@)
    &&& !has_substring(name, ".."@)
    &&& !has_substring(name, "~"@)
    &&& !has_substring(name, "^"@)
    &&& !has_substring(name, ":"@)
    &&& !has_substring(name, "?"@)
    &&& !has_substring(name, "*"@)
    &&& !has_substring(name, "["@)
}

/// Tells whether `ref_name` may name a branch or another ref: at most 255
/// bytes of letters, digits, `_`, `-` and `/`, no `/` at either end and no
/// two in a row.
pub fn validate_ref_name(ref_name: &str) -> (valid: bool)
    ensures
        valid == valid_ref_name(ref_name@),
{
    if ref_name.len() == 0 || ref_name.len() > MAX_REF_NAME_LENGTH {
        return false;
    }
    proof {
        lemma_patterns_differ();
    }
    match regex_is_match(REF_NAME_PATTERN, ref_name) {
        Some(true) => {},
        _ => {
            return false;
        },
    }
    let chars = chars_of(ref_name);
    if chars[0] == '/' || chars[chars.len() - 1] == '/' {
        return false;
    }
    if contains_chars(&chars, &chars_of("//")) {
        return false;
    }
    if contains_chars(&chars, &chars_of("@{")) || contains_chars(&chars, &chars_of(".."))
        || contains_chars(&chars, &chars_of("~")) || contains_chars(&chars, &chars_of("^"))
        || contains_chars(&chars, &chars_of(":")) || contains_chars(&chars, &chars_of("?"))
        || contains_chars(&chars, &chars_of("*")) || contains_chars(&chars, &chars_of("[")) {
        return false;
    }
    true
}

/// Some character of `text` is a number.
pub open spec fn has_number(text: Seq<char>) -> bool {
    exists|i: int| 0 <= i < text.len() && unicode_numeric(#[trigger] text[i])
}

/// Some character of `text` is a letter.
pub open spec fn has_letter(text: Seq<char>) -> bool {
    exists|i: int| 0 <= i < text.len() && unicode_alphabetic(#[trigger] text[i])
}

/// What is wrong with a password of `length` bytes, if anything, given
/// whether it holds a number and a letter.
pub open spec fn password_fault(length: usize, number: bool, letter: bool) -> Option<Seq<char>> {
    if length < MIN_PASSWORD_LENGTH {
        Some("Password must be at least 8 characters"@)
    } else if length > MAX_PASSWORD_LENGTH {
        Some("Password too long (maximum 128 characters)"@)
    } else if !number {
        Some("Password must contain at least one number"@)
    } else if !letter {
        Some("Password must contain at least one letter"@)
    } else {
        None
    }
}

/// Judges a password by its length and by whether it holds a number and a
/// letter.
pub fn password_verdict(length: usize, number: bool, letter: bool) -> (verdict: Result<
    (),
    &'static str,
>)
    ensures
        match verdict {
            Ok(_) => password_fault(length, number, letter) is None,
            Err(reason) => password_fault(length, number, letter) == Some(reason@),
        },
{
    if length < MIN_PASSWORD_LENGTH {
        return Err("Password must be at least 8 characters");
    }
    if length > MAX_PASSWORD_LENGTH {
        return Err("Password too long (maximum 128 characters)");
    }
    if !number {
        return Err("Password must contain at least one number");
    }
    if !letter {
        return Err("Password must contain at least one letter");
    }
    Ok(())
}

/// Checks the strength of a password: eight to 128 bytes, with at least
/// one number and one letter.
pub fn validate_password(password: &str) -> (verdict: Result<(), &'static str>)
    ensures
        match verdict {
            Ok(_) => password_fault(
                byte_len(password@),
                has_number(password@),
                has_letter(password@),
            ) is None,
            Err(reason) => password_fault(
                byte_len(password@),
                has_number(password@),
                has_letter(password@),
            ) == Some(reason@),
        },
{
    let chars = chars_of(password);
    let mut number = false;
    let mut letter = false;
    let mut i: usize = 0;
    while i < chars.len()
        invariant
            i <= chars.len(),
            chars@ == password@,
            number == has_number(password@.take(i as int)),
            letter == has_letter(password@.take(i as int)),
        decreases chars.len() - i,
    {
        let ghost seen = password@.take(i as int);
        let ghost more = password@.take(i + 1);
        let c = chars[i];
        let numeric = char_is_numeric(c);
        let alphabetic = char_is_alphabetic(c);
        proof {
            assert(more[i as int] == c);
            if has_number(seen) {
                let k = choose|k: int| 0 <= k < seen.len() && unicode_numeric(#[trigger] seen[k]);
                assert(more[k] == seen[k]);
            }
            if has_number(more) {
                let k = choose|k: int| 0 <= k < more.len() && unicode_numeric(#[trigger] more[k]);
                if k < i {
                    assert(seen[k] == more[k]);
                }
            }
            if has_letter(seen) {
                let k = choose|k: int|
                    0 <= k < seen.len() && unicode_alphabetic(#[trigger] seen[k]);
                assert(more[k] == seen[k]);
            }
            if has_letter(more) {
                let k = choose|k: int|
                    0 <= k < more.len() && unicode_alphabetic(#[trigger] more[k]);
                if k < i {
                    assert(seen[k] == more[k]);
                }
            }
        }
        if numeric {
            number = true;
        }
        if alphabetic {
            letter = true;
        }
        i += 1;
    }
    assert(password@.take(i as int) == password@);
    password_verdict(password.len(), number, letter)
}

/// What `sanitize_html` writes for one character.
pub open spec fn sanitized_char(c: char) -> Seq<char> {
    if c == '&' {
        "&amp;"@
    } else if c == '<' {
        "&lt;"@
    } else if c == '>' {
        "&gt;"@
    } else if c == '"' {
        "&quot;"@
    } else if c == '\'' {
        "&#x27;"@
    } else if c == '/' {
        "&#x2F;"@
    } else {
        seq![c]
    }
}

/// `text` with each of `& < > " ' /` replaced by its entity.
pub open spec fn sanitized(text: Seq<char>) -> Seq<char>
    decreases text.len(),
{
    if text.len() == 0 {
        Seq::empty()
    } else {
        sanitized(text.drop_last()) + sanitized_char(text.last())
    }
}

/// Makes text from a user fit for a page: each of `& < > " ' /` is
/// replaced by its entity.
pub fn sanitize_html(input: &str) -> (output: String)
    ensures
        output@ == sanitized(input@),
{
    let mut output = String::new();
    for c in it: input.chars()
        invariant
            it.seq() == input@,
            output@ == sanitized(input@.take(it.index())),
    {
        if c == '&' {
            output.append("&amp;");
        } else if c == '<' {
            output.append("&lt;");
        } else if c == '>' {
            output.append("&gt;");
        } else if c == '"' {
            output.append("&quot;");
        } else if c == '\'' {
            output.append("&#x27;");
        } else if c == '/' {
            output.append("&#x2F;");
        } else {
            push_char(&mut output, c);
        }
        assert(input@.take(it.index() + 1).drop_last() == input@.take(it.index()));
    }
    assert(input@.take(input@.len() as int) == input@);
    output
}

/// Forty hash digits in lower case, as the store names an object.
pub open spec fn valid_object_id(object_id: Seq<char>) -> bool {
    byte_len(object_id) == 40 && repo_hash_like(object_id)
}

/// Tells whether `object_id` has the form of an object id: forty hash
/// digits, each `0` to `9` or `a` to `f`.
pub fn validate_object_id(object_id: &str) -> (valid: bool)
    ensures
        valid == valid_object_id(object_id@),
{
    if object_id.len() != 40 {
        return false;
    }
    let chars = chars_of(object_id);
    if chars.len() != 40 {
        return false;
    }
    let mut i: usize = 0;
    while i < chars.len()
        invariant
            i <= chars.len(),
            chars@ == object_id@,
            forall|k: int| 0 <= k < i ==> is_lower_hex(#[trigger] chars@[k]),
        decreases chars.len() - i,
    {
        let c = chars[i];
        if !(('0' <= c && c <= '9') || ('a' <= c && c <= 'f')) {
            assert(!is_lower_hex(object_id@[i as int]));
            return false;
        }
        i += 1;
    }
    true
}

} // verus!
