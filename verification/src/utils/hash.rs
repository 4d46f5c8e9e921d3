//! The hash that names a repository.

use vstd::prelude::*;
use vstd::bytes::{spec_u64_to_le_bytes, u64_to_le_bytes};
use vstd::slice::slice_to_vec;
use crate::utils::validation::{is_lower_hex, repo_hash_like};

verus! {

/// The BLAKE3 hash of `input`: thirty-two bytes.
pub uninterp spec fn blake3_digest(input: Seq<u8>) -> Seq<u8>;

/// The BLAKE3 hash of `input`.
///
/// Calls `blake3::hash` and copies the thirty-two bytes of the result. The
/// hash depends on the input alone.
#[verifier::external_body]
pub(crate) fn blake3_hash(input: &[u8]) -> (digest: Vec<u8>)
    ensures
        digest@ == blake3_digest(input@),
        digest@.len() == 32,
{
    blake3::hash(input).as_bytes().to_vec()
}

/// The hexadecimal digit of a value below sixteen, in lower case.
pub open spec fn hex_digit(value: u8) -> char {
    if value < 10 {
        (('0' as u8) + value) as char
    } else {
        (('a' as u8) + (value - 10)) as char
    }
}

/// The bytes written as hexadecimal digits in lower case, two for each
/// byte, the upper half first.
pub open spec fn hex_of(bytes: Seq<u8>) -> Seq<char>
    decreases bytes.len(),
{
    if bytes.len() == 0 {
        Seq::empty()
    } else {
        hex_of(bytes.drop_last()).push(hex_digit(bytes.last() / 16)).push(
            hex_digit(bytes.last() % 16),
        )
    }
}

/// The bytes as hexadecimal text.
///
/// Calls `hex::encode`, which writes two digits of `0123456789abcdef` for
/// each byte, the upper half first.
#[verifier::external_body]
pub(crate) fn hex_encode(bytes: &[u8]) -> (text: String)
    ensures
        text@ == hex_of(bytes@),
{
    hex::encode(bytes)
}

/// Hexadecimal text has two digits for each byte, all in lower case.
pub proof fn lemma_hex_of(bytes: Seq<u8>)
    ensures
        hex_of(bytes).len() == 2 * bytes.len(),
        forall|i: int| 0 <= i < hex_of(bytes).len() ==> is_lower_hex(#[trigger] hex_of(bytes)[i]),
    decreases bytes.len(),
{
    if bytes.len() > 0 {
        lemma_hex_of(bytes.drop_last());
        let high = bytes.last() / 16;
        let low = bytes.last() % 16;
        assert(is_lower_hex(hex_digit(high)));
        assert(is_lower_hex(hex_digit(low)));
    }
}

/// The eight bytes of `value`, lowest first.
pub open spec fn le_bytes(value: i64) -> Seq<u8> {
    spec_u64_to_le_bytes(value as u64)
}

/// What is hashed for a repository: its name, then the id of its owner
/// and the time of its creation, eight bytes each.
pub open spec fn repo_hash_input(name: Seq<char>, owner_id: i64, created_at: i64) -> Seq<u8> {
    vstd::utf8::encode_utf8(name) + le_bytes(owner_id) + le_bytes(created_at)
}

/// The hash of a repository: the first twenty bytes of the BLAKE3 hash of
/// its name, owner and time of creation, as forty hexadecimal digits.
pub open spec fn repo_hash_of(name: Seq<char>, owner_id: i64, created_at: i64) -> Seq<char> {
    hex_of(blake3_digest(repo_hash_input(name, owner_id, created_at)).subrange(0, 20))
}

/// Derives the hash that names a repository created at `created_at` by
/// `owner_id` under `name`. The result has the form of a repository hash.
pub fn generate_repo_hash(name: &str, owner_id: i64, created_at: i64) -> (hash: String)
    ensures
        hash@ == repo_hash_of(name@, owner_id, created_at),
        repo_hash_like(hash@),
{
    let mut input = slice_to_vec(name.as_bytes());
    let mut owner = u64_to_le_bytes(owner_id as u64);
    let mut created = u64_to_le_bytes(created_at as u64);
    input.append(&mut owner);
    input.append(&mut created);
    assert(input@ == repo_hash_input(name@, owner_id, created_at));
    let digest = blake3_hash(input.as_slice());
    let mut head: Vec<u8> = Vec::new();
    let mut i: usize = 0;
    while i < 20
        invariant
            i <= 20,
            digest@.len() == 32,
            head@ == digest@.subrange(0, i as int),
        decreases 20 - i,
    {
        head.push(digest[i]);
        assert(digest@.subrange(0, i + 1) == digest@.subrange(0, i as int).push(digest@[i as int]));
        i += 1;
    }
    proof {
        lemma_hex_of(head@);
    }
    hex_encode(head.as_slice())
}

} // verus!
