//! Where the store keeps what on disk: one directory per repository, with
//! the objects fanned out by the first two characters of their id.

use vstd::prelude::*;
use vstd::string::StringExecFns;
use vstd::string::StrSliceExecFns;
use crate::text::{push_char, starts_with_char};

verus! {

/// `base` with the path `part` below it: a `part` that starts at the root
/// stands for itself, otherwise the two are joined by one `/`.
pub open spec fn joined(base: Seq<char>, part: Seq<char>) -> Seq<char> {
    if part.len() > 0 && part[0] == '/' {
        part
    } else if base.len() == 0 || base.last() == '/' {
        base + part
    } else {
        base.push('/') + part
    }
}

/// The path of `part` below `base`.
pub fn join_path(base: &str, part: &str) -> (path: String)
    ensures
        path@ == joined(base@, part@),
{
    if starts_with_char(part, '/') {
        return String::from_str(part);
    }
    let mut path = String::from_str(base);
    let n = base.unicode_len();
    if n > 0 && base.get_char(n - 1) != '/' {
        push_char(&mut path, '/');
    }
    path.append(part);
    path
}

/// The directory of repository `repo` below `base`.
pub open spec fn repo_dir(base: Seq<char>, repo: Seq<char>) -> Seq<char> {
    joined(base, repo)
}

/// The directory of the objects of `repo`.
pub open spec fn objects_dir(base: Seq<char>, repo: Seq<char>) -> Seq<char> {
    joined(repo_dir(base, repo), "objects"@)
}

/// The directory of the refs of `repo`.
pub open spec fn refs_dir(base: Seq<char>, repo: Seq<char>) -> Seq<char> {
    joined(repo_dir(base, repo), "refs"@)
}

/// The name of the fan-out directory of an object: the first two
/// characters of its id.
pub open spec fn fan_out_dir(object_id: Seq<char>) -> Seq<char> {
    object_id.subrange(0, 2)
}

/// The name of the file of an object inside its fan-out directory: its id
/// without the first two characters.
pub open spec fn fan_out_file(object_id: Seq<char>) -> Seq<char> {
    object_id.subrange(2, object_id.len() as int)
}

/// The file that holds the object `object_id` of `repo`.
pub open spec fn object_file(base: Seq<char>, repo: Seq<char>, object_id: Seq<char>) -> Seq<char> {
    joined(joined(objects_dir(base, repo), fan_out_dir(object_id)), fan_out_file(object_id))
}

/// The id of the object that the file `file` in the fan-out directory
/// `dir` holds.
pub open spec fn object_id_at(dir: Seq<char>, file: Seq<char>) -> Seq<char> {
    dir + file
}

/// Splits an object id into the names of its fan-out directory and of its
/// file.
pub fn split_object_id(object_id: &str) -> (parts: (String, String))
    requires
        object_id@.len() >= 2,
    ensures
        parts.0@ == fan_out_dir(object_id@),
        parts.1@ == fan_out_file(object_id@),
        object_id_at(parts.0@, parts.1@) == object_id@,
{
    let n = object_id.unicode_len();
    let dir = String::from_str(object_id.substring_char(0, 2));
    let file = String::from_str(object_id.substring_char(2, n));
    assert(dir@ + file@ == object_id@);
    (dir, file)
}

/// The id that a walk of the fan-out directories finds for the file
/// `file` in the directory `dir`.
pub fn object_id_from_parts(dir: &str, file: &str) -> (object_id: String)
    ensures
        object_id@ == object_id_at(dir@, file@),
{
    let mut id = String::from_str(dir);
    id.append(file);
    id
}

/// Every id of two characters or more is found again under the names it
/// was split into.
pub proof fn lemma_fan_out_round_trip(object_id: Seq<char>)
    requires
        object_id.len() >= 2,
    ensures
        object_id_at(fan_out_dir(object_id), fan_out_file(object_id)) == object_id,
{
    assert(fan_out_dir(object_id) + fan_out_file(object_id) == object_id);
}

} // verus!
