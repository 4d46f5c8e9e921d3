//! The text encodings that requests arrive in.

use vstd::prelude::*;
use base64::engine::general_purpose;
use base64::Engine;

verus! {

/// The bytes that the standard base64 decoder of the crate `base64` reads
/// out of `text`; `None` where the decoder reports an error.
pub uninterp spec fn base64_decoded(text: Seq<char>) -> Option<Seq<u8>>;

/// The bytes as base64 text in the alphabet for URLs, without padding.
pub uninterp spec fn base64_url_encoded(bytes: Seq<u8>) -> Seq<char>;

/// The text as `urlencoding::decode` reads it, every `%XX` replaced by the
/// byte it stands for; `None` where the decoder reports an error.
pub uninterp spec fn url_decoded(text: Seq<char>) -> Option<Seq<char>>;

/// Whether a byte stands for itself in a URL: a letter, a digit, or one
/// of `-`, `.`, `_` and `~`.
pub open spec fn url_safe_byte(byte: u8) -> bool {
    ||| 0x30 <= byte <= 0x39
    ||| 0x41 <= byte <= 0x5a
    ||| 0x61 <= byte <= 0x7a
    ||| byte == 0x2d
    ||| byte == 0x2e
    ||| byte == 0x5f
    ||| byte == 0x7e
}

/// The hexadecimal digit of a value below sixteen, in upper case.
pub open spec fn upper_hex_digit(value: u8) -> char {
    if value < 10 {
        (0x30u8 + value) as char
    } else {
        (0x41u8 + (value - 10)) as char
    }
}

/// The bytes as text for a URL: a byte that stands for itself as it is,
/// every other as `%` and its two hexadecimal digits in upper case.
pub open spec fn url_encoded_bytes(bytes: Seq<u8>) -> Seq<char>
    decreases bytes.len(),
{
    if bytes.len() == 0 {
        Seq::empty()
    } else {
        let before = url_encoded_bytes(bytes.drop_last());
        let byte = bytes.last();
        if url_safe_byte(byte) {
            before.push(byte as char)
        } else {
            before.push('%').push(upper_hex_digit(byte / 16)).push(upper_hex_digit(byte % 16))
        }
    }
}

/// The text encoded for a URL: the bytes of its UTF-8 form, each as
/// `url_encoded_bytes` writes it.
pub open spec fn url_encoded(text: Seq<char>) -> Seq<char> {
    url_encoded_bytes(vstd::utf8::encode_utf8(text))
}

/// Encodes text for a URL.
///
/// Calls `urlencoding::encode`, which keeps letters, digits, `-`, `.`,
/// `_` and `~` and writes every other byte of the text as `%` and two
/// hexadecimal digits in upper case.
#[verifier::external_body]
pub(crate) fn url_encode(text: &str) -> (encoded: String)
    ensures
        encoded@ == url_encoded(text@),
{
    urlencoding::encode(text).into_owned()
}

/// Decodes standard base64.
///
/// Calls `decode` of `base64::engine::general_purpose::STANDARD`; an error
/// of the decoder gives `None`. The result depends on the text alone.
#[verifier::external_body]
pub(crate) fn base64_decode(text: &str) -> (bytes: Option<Vec<u8>>)
    ensures
        base64_decoded(text@) == match bytes {
            Some(data) => Some(data@),
            None => None,
        },
{
    general_purpose::STANDARD.decode(text).ok()
}

/// Encodes bytes as base64 for URLs.
///
/// Calls `encode` of `base64::engine::general_purpose::URL_SAFE_NO_PAD`,
/// which writes four characters for every three bytes and two or three for
/// a rest of one or two, with no padding behind them.
#[verifier::external_body]
pub(crate) fn base64_url_encode(bytes: &[u8]) -> (text: String)
    ensures
        text@ == base64_url_encoded(bytes@),
        text@.len() == (4 * bytes@.len() + 2) / 3,
{
    general_purpose::URL_SAFE_NO_PAD.encode(bytes)
}

/// Decodes the percent encoding of URLs.
///
/// Calls `urlencoding::decode`; an error of the decoder gives `None`. The
/// result depends on the text alone.
#[verifier::external_body]
pub(crate) fn url_decode(text: &str) -> (plain: Option<String>)
    ensures
        url_decoded(text@) == match plain {
            Some(decoded) => Some(decoded@),
            None => None,
        },
{
    match urlencoding::decode(text) {
        Ok(decoded) => Some(decoded.into_owned()),
        Err(_) => None,
    }
}

} // verus!
