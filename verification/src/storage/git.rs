//! The object store itself: what is kept for which repository, and the
//! operations that read and change it.

use vstd::prelude::*;
use vstd::string::StringExecFns;
use crate::error::CoreError;
use crate::storage::codec::{zlib_compress, zlib_compressed, zlib_decompress, zlib_inflated};
use crate::storage::paths::{
    join_path, joined, object_file, objects_dir, refs_dir, repo_dir, split_object_id,
};
use crate::text::{byte_len, str_eq, trim, trimmed};

verus! {

/// One stored object: the zlib stream kept under `object_id` in the
/// repository `repo_hash`.
pub struct StoredObject {
    pub repo_hash: String,
    pub object_id: String,
    pub data: Vec<u8>,
}

/// The mathematical value of a [`StoredObject`].
pub ghost struct ObjectView {
    pub repo_hash: Seq<char>,
    pub object_id: Seq<char>,
    pub data: Seq<u8>,
}

impl View for StoredObject {
    type V = ObjectView;

    open spec fn view(&self) -> ObjectView {
        ObjectView { repo_hash: self.repo_hash@, object_id: self.object_id@, data: self.data@ }
    }
}

/// One ref: the text kept in the pointer file `ref_name` of the
/// repository `repo_hash`.
pub struct StoredRef {
    pub repo_hash: String,
    pub ref_name: String,
    pub content: String,
}

/// The mathematical value of a [`StoredRef`].
pub ghost struct RefView {
    pub repo_hash: Seq<char>,
    pub ref_name: Seq<char>,
    pub content: Seq<char>,
}

impl View for StoredRef {
    type V = RefView;

    open spec fn view(&self) -> RefView {
        RefView { repo_hash: self.repo_hash@, ref_name: self.ref_name@, content: self.content@ }
    }
}

/// The mathematical value of a [`GitStorage`]: the directory it lives in,
/// the repositories whose storage root exists, and the objects and refs
/// in the order in which they were first written.
pub ghost struct StorageView {
    pub base_path: Seq<char>,
    pub roots: Seq<Seq<char>>,
    pub objects: Seq<ObjectView>,
    pub refs: Seq<RefView>,
}

/// An object is stored under `id` in `repo`.
pub open spec fn has_object(objects: Seq<ObjectView>, repo: Seq<char>, id: Seq<char>) -> bool {
    exists|i: int|
        0 <= i < objects.len() && (#[trigger] objects[i]).repo_hash == repo && objects[i].object_id
            == id
}

/// The place of the object `id` of `repo`; meaningful where `has_object`
/// holds.
pub open spec fn object_index(objects: Seq<ObjectView>, repo: Seq<char>, id: Seq<char>) -> int {
    choose|i: int|
        0 <= i < objects.len() && (#[trigger] objects[i]).repo_hash == repo && objects[i].object_id
            == id
}

/// No pair of repository and id occurs twice.
pub open spec fn unique_objects(objects: Seq<ObjectView>) -> bool {
    forall|i: int, j: int|
        0 <= i < j < objects.len() ==> !((#[trigger] objects[i]).repo_hash == (
        #[trigger] objects[j]).repo_hash && objects[i].object_id == objects[j].object_id)
}

/// The objects after `data` was written under `id` in `repo`: a known id
/// has its bytes replaced, a new one is added at the end.
pub open spec fn object_put(
    objects: Seq<ObjectView>,
    repo: Seq<char>,
    id: Seq<char>,
    data: Seq<u8>,
) -> Seq<ObjectView> {
    if has_object(objects, repo, id) {
        let at = object_index(objects, repo, id);
        objects.update(at, ObjectView { data, ..objects[at] })
    } else {
        objects.push(ObjectView { repo_hash: repo, object_id: id, data })
    }
}

/// What a reader gets for the object `id` of `repo`.
pub open spec fn read_result(objects: Seq<ObjectView>, repo: Seq<char>, id: Seq<char>) -> Result<
    Seq<u8>,
    CoreError,
> {
    if !has_object(objects, repo, id) {
        Err(CoreError::ObjectNotFound)
    } else {
        match zlib_inflated(objects[object_index(objects, repo, id)].data) {
            Some(data) => Ok(data),
            None => Err(CoreError::StorageIoError),
        }
    }
}

/// A ref named `name` exists in `repo`.
pub open spec fn has_ref(refs: Seq<RefView>, repo: Seq<char>, name: Seq<char>) -> bool {
    exists|i: int|
        0 <= i < refs.len() && (#[trigger] refs[i]).repo_hash == repo && refs[i].ref_name == name
}

/// The place of the ref `name` of `repo`; meaningful where `has_ref`
/// holds.
pub open spec fn ref_index(refs: Seq<RefView>, repo: Seq<char>, name: Seq<char>) -> int {
    choose|i: int|
        0 <= i < refs.len() && (#[trigger] refs[i]).repo_hash == repo && refs[i].ref_name == name
}

/// No pair of repository and ref name occurs twice.
pub open spec fn unique_refs(refs: Seq<RefView>) -> bool {
    forall|i: int, j: int|
        0 <= i < j < refs.len() ==> !((#[trigger] refs[i]).repo_hash == (
        #[trigger] refs[j]).repo_hash && refs[i].ref_name == refs[j].ref_name)
}

/// The text of the pointer file of a ref that points at `target`.
pub open spec fn ref_file_text(target: Seq<char>) -> Seq<char> {
    target.push('\n')
}

/// The refs after `content` became the text of the pointer file of
/// `name` of `repo`: in place of the text before, or as a new ref behind
/// the others.
pub open spec fn ref_kept(
    refs: Seq<RefView>,
    repo: Seq<char>,
    name: Seq<char>,
    content: Seq<char>,
) -> Seq<RefView> {
    if has_ref(refs, repo, name) {
        let at = ref_index(refs, repo, name);
        refs.update(at, RefView { content, ..refs[at] })
    } else {
        refs.push(RefView { repo_hash: repo, ref_name: name, content })
    }
}

/// The refs after `name` of `repo` was pointed at `target`.
pub open spec fn ref_put(
    refs: Seq<RefView>,
    repo: Seq<char>,
    name: Seq<char>,
    target: Seq<char>,
) -> Seq<RefView> {
    ref_kept(refs, repo, name, ref_file_text(target))
}

/// The ids of the objects of `repo`, in the order of the store.
pub open spec fn object_ids(objects: Seq<ObjectView>, repo: Seq<char>) -> Seq<Seq<char>>
    decreases objects.len(),
{
    if objects.len() == 0 {
        Seq::empty()
    } else if objects.last().repo_hash == repo {
        object_ids(objects.drop_last(), repo).push(objects.last().object_id)
    } else {
        object_ids(objects.drop_last(), repo)
    }
}

/// The stored bytes of all objects of `repo`, one after the other in the
/// order of the store.
pub open spec fn packed(objects: Seq<ObjectView>, repo: Seq<char>) -> Seq<u8>
    decreases objects.len(),
{
    if objects.len() == 0 {
        Seq::empty()
    } else if objects.last().repo_hash == repo {
        packed(objects.drop_last(), repo) + objects.last().data
    } else {
        packed(objects.drop_last(), repo)
    }
}

/// The bytes that the objects of `repo` take.
pub open spec fn objects_size(objects: Seq<ObjectView>, repo: Seq<char>) -> nat
    decreases objects.len(),
{
    if objects.len() == 0 {
        0
    } else {
        objects_size(objects.drop_last(), repo) + if objects.last().repo_hash == repo {
            objects.last().data.len()
        } else {
            0nat
        }
    }
}

/// The bytes that the pointer files of `repo` take.
pub open spec fn refs_size(refs: Seq<RefView>, repo: Seq<char>) -> nat
    decreases refs.len(),
{
    if refs.len() == 0 {
        0
    } else {
        refs_size(refs.drop_last(), repo) + if refs.last().repo_hash == repo {
            byte_len(refs.last().content) as nat
        } else {
            0nat
        }
    }
}

/// The objects in their order, those of `repo` left out.
pub open spec fn objects_without(objects: Seq<ObjectView>, repo: Seq<char>) -> Seq<ObjectView>
    decreases objects.len(),
{
    if objects.len() == 0 {
        Seq::empty()
    } else if objects.last().repo_hash == repo {
        objects_without(objects.drop_last(), repo)
    } else {
        objects_without(objects.drop_last(), repo).push(objects.last())
    }
}

/// The refs in their order, those of `repo` left out.
pub open spec fn refs_without(refs: Seq<RefView>, repo: Seq<char>) -> Seq<RefView>
    decreases refs.len(),
{
    if refs.len() == 0 {
        Seq::empty()
    } else if refs.last().repo_hash == repo {
        refs_without(refs.drop_last(), repo)
    } else {
        refs_without(refs.drop_last(), repo).push(refs.last())
    }
}

/// The strings in their order, `one` left out.
pub open spec fn strings_without(strings: Seq<Seq<char>>, one: Seq<char>) -> Seq<Seq<char>>
    decreases strings.len(),
{
    if strings.len() == 0 {
        Seq::empty()
    } else if strings.last() == one {
        strings_without(strings.drop_last(), one)
    } else {
        strings_without(strings.drop_last(), one).push(strings.last())
    }
}

/// `n` as a `u64`, the largest `u64` standing for all that is larger.
pub open spec fn capped(n: nat) -> u64 {
    if n > u64::MAX {
        u64::MAX
    } else {
        n as u64
    }
}

/// The views of a sequence of stored objects.
pub open spec fn object_views(objects: Seq<StoredObject>) -> Seq<ObjectView> {
    objects.map_values(|o: StoredObject| o@)
}

/// The views of a sequence of stored refs.
pub open spec fn ref_views(refs: Seq<StoredRef>) -> Seq<RefView> {
    refs.map_values(|r: StoredRef| r@)
}

/// The views of a sequence of strings.
pub open spec fn name_views(names: Seq<String>) -> Seq<Seq<char>> {
    names.map_values(|s: String| s@)
}

/// The object store of one node.
pub struct GitStorage {
    base_path: String,
    roots: Vec<String>,
    objects: Vec<StoredObject>,
    refs: Vec<StoredRef>,
}

impl View for GitStorage {
    type V = StorageView;

    closed spec fn view(&self) -> StorageView {
        StorageView {
            base_path: self.base_path@,
            roots: name_views(self.roots@),
            objects: object_views(self.objects@),
            refs: ref_views(self.refs@),
        }
    }
}

impl GitStorage {
    /// Every store that this module hands out keeps one entry for each
    /// object and for each ref.
    pub open spec fn wf(&self) -> bool {
        &&& unique_objects(self@.objects)
        &&& unique_refs(self@.refs)
    }

    /// An empty store that lives in the directory `base_path`.
    pub fn new(base_path: String) -> (storage: Self)
        ensures
            storage.wf(),
            storage@ == (StorageView {
                base_path: base_path@,
                roots: Seq::empty(),
                objects: Seq::empty(),
                refs: Seq::empty(),
            }),
    {
        let storage = GitStorage {
            base_path,
            roots: Vec::new(),
            objects: Vec::new(),
            refs: Vec::new(),
        };
        assert(name_views(storage.roots@) == Seq::<Seq<char>>::empty());
        assert(object_views(storage.objects@) == Seq::<ObjectView>::empty());
        assert(ref_views(storage.refs@) == Seq::<RefView>::empty());
        storage
    }

    /// The directory of a repository.
    pub fn repo_path(&self, repo_hash: &str) -> (path: String)
        ensures
            path@ == repo_dir(self@.base_path, repo_hash@),
    {
        join_path(self.base_path.as_str(), repo_hash)
    }

    /// The directory of the objects of a repository.
    pub fn objects_path(&self, repo_hash: &str) -> (path: String)
        ensures
            path@ == objects_dir(self@.base_path, repo_hash@),
    {
        let repo = self.repo_path(repo_hash);
        join_path(repo.as_str(), "objects")
    }

    /// The directory of the refs of a repository.
    pub fn refs_path(&self, repo_hash: &str) -> (path: String)
        ensures
            path@ == refs_dir(self@.base_path, repo_hash@),
    {
        let repo = self.repo_path(repo_hash);
        join_path(repo.as_str(), "refs")
    }

    /// The file of an object: `objects/`, the first two characters of the
    /// id, and the rest of the id.
    pub fn object_path(&self, repo_hash: &str, object_id: &str) -> (path: String)
        requires
            object_id@.len() >= 2,
        ensures
            path@ == object_file(self@.base_path, repo_hash@, object_id@),
    {
        let objects = self.objects_path(repo_hash);
        let (dir, file) = split_object_id(object_id);
        let fan_out = join_path(objects.as_str(), dir.as_str());
        join_path(fan_out.as_str(), file.as_str())
    }

    /// The pointer file of a ref.
    pub fn ref_path(&self, repo_hash: &str, ref_name: &str) -> (path: String)
        ensures
            path@ == joined(repo_dir(self@.base_path, repo_hash@), ref_name@),
    {
        let repo = self.repo_path(repo_hash);
        join_path(repo.as_str(), ref_name)
    }

    fn root_position(&self, repo_hash: &str) -> (at: Option<usize>)
        ensures
            match at {
                Some(i) => i < self@.roots.len() && self@.roots[i as int] == repo_hash@,
                None => !self@.roots.contains(repo_hash@),
            },
    {
        let mut i: usize = 0;
        while i < self.roots.len()
            invariant
                i <= self.roots.len(),
                self@.roots == name_views(self.roots@),
                forall|k: int| 0 <= k < i ==> self@.roots[k] != repo_hash@,
            decreases self.roots.len() - i,
        {
            if str_eq(self.roots[i].as_str(), repo_hash) {
                return Some(i);
            }
            i += 1;
        }
        None
    }

    /// Whether the storage root of a repository exists.
    pub fn has_repo(&self, repo_hash: &str) -> (exists: bool)
        ensures
            exists == self@.roots.contains(repo_hash@),
    {
        self.root_position(repo_hash).is_some()
    }

    /// Records the outcome of creating the storage root of a repository.
    /// `created` tells whether the root now exists on disk; where it does
    /// not, `StorageInitError` is reported and nothing changes.
    pub fn init_repo(&mut self, repo_hash: &str, created: bool) -> (outcome: Result<(), CoreError>)
        requires
            old(self).wf(),
        ensures
            final(self).wf(),
            match outcome {
                Ok(_) => created && final(self)@ == (StorageView {
                    roots: if old(self)@.roots.contains(repo_hash@) {
                        old(self)@.roots
                    } else {
                        old(self)@.roots.push(repo_hash@)
                    },
                    ..old(self)@
                }),
                Err(e) => !created && e == CoreError::StorageInitError && final(self)@ == old(self)@,
            },
    {
        if !created {
            return Err(CoreError::StorageInitError);
        }
        if self.root_position(repo_hash).is_none() {
            let root = String::from_str(repo_hash);
            assert(name_views(self.roots@.push(root)) == name_views(self.roots@).push(root@));
            self.roots.push(root);
        }
        Ok(())
    }

    fn object_position(&self, repo_hash: &str, object_id: &str) -> (at: Option<usize>)
        requires
            self.wf(),
        ensures
            match at {
                Some(i) => i < self@.objects.len() && self@.objects[i as int].repo_hash
                    == repo_hash@ && self@.objects[i as int].object_id == object_id@ && has_object(
                    self@.objects,
                    repo_hash@,
                    object_id@,
                ) && object_index(self@.objects, repo_hash@, object_id@) == i,
                None => !has_object(self@.objects, repo_hash@, object_id@),
            },
    {
        let mut i: usize = 0;
        while i < self.objects.len()
            invariant
                i <= self.objects.len(),
                self.wf(),
                self@.objects == object_views(self.objects@),
                forall|k: int|
                    0 <= k < i ==> !((#[trigger] self@.objects[k]).repo_hash == repo_hash@
                        && self@.objects[k].object_id == object_id@),
            decreases self.objects.len() - i,
        {
            if str_eq(self.objects[i].repo_hash.as_str(), repo_hash) && str_eq(
                self.objects[i].object_id.as_str(),
                object_id,
            ) {
                assert(self@.objects[i as int].repo_hash == repo_hash@
                    && self@.objects[i as int].object_id == object_id@);
                return Some(i);
            }
            i += 1;
        }
        None
    }

    /// Keeps the zlib stream `stream` under `object_id`, in place of what
    /// was kept there before.
    pub fn put_object(&mut self, repo_hash: &str, object_id: &str, stream: Vec<u8>)
        requires
            old(self).wf(),
        ensures
            final(self).wf(),
            final(self)@ == (StorageView {
                objects: object_put(old(self)@.objects, repo_hash@, object_id@, stream@),
                ..old(self)@
            }),
            has_object(final(self)@.objects, repo_hash@, object_id@),
            final(self)@.objects[object_index(final(self)@.objects, repo_hash@, object_id@)].data
                == stream@,
    {
        let found = self.object_position(repo_hash, object_id);
        let ghost before = self@.objects;
        let entry = StoredObject {
            repo_hash: String::from_str(repo_hash),
            object_id: String::from_str(object_id),
            data: stream,
        };
        match found {
            Some(i) => {
                assert(object_views(self.objects@.update(i as int, entry)) == before.update(
                    i as int,
                    entry@,
                ));
                assert(entry@ == ObjectView { data: stream@, ..before[i as int] });
                self.objects.set(i, entry);
                assert(self@.objects[i as int].repo_hash == repo_hash@
                    && self@.objects[i as int].object_id == object_id@);
            },
            None => {
                assert(object_views(self.objects@.push(entry)) == before.push(entry@));
                self.objects.push(entry);
                assert(self@.objects[before.len() as int].repo_hash == repo_hash@
                    && self@.objects[before.len() as int].object_id == object_id@);
            },
        }
    }

    /// Stores `data` under `object_id`: the payload is compressed and kept
    /// in place of what the id held before. Afterwards a reader of the id
    /// gets exactly `data`. The store succeeds wherever the encoder gives
    /// a stream for `data`; where it gives none, `StorageIoError` is
    /// reported and nothing changes.
    pub fn store_object(&mut self, repo_hash: &str, object_id: &str, data: &[u8]) -> (outcome:
        Result<(), CoreError>)
        requires
            old(self).wf(),
        ensures
            final(self).wf(),
            outcome is Ok <==> zlib_compressed(data@) is Some,
            match outcome {
                Ok(_) => {
                    &&& final(self)@ == (StorageView {
                        objects: object_put(
                            old(self)@.objects,
                            repo_hash@,
                            object_id@,
                            zlib_compressed(data@).unwrap(),
                        ),
                        ..old(self)@
                    })
                    &&& read_result(final(self)@.objects, repo_hash@, object_id@) == Ok::<
                        Seq<u8>,
                        CoreError,
                    >(data@)
                },
                Err(e) => e == CoreError::StorageIoError && final(self)@ == old(self)@,
            },
    {
        match zlib_compress(data) {
            Some(stream) => {
                self.put_object(repo_hash, object_id, stream);
                Ok(())
            },
            None => Err(CoreError::StorageIoError),
        }
    }

    /// The zlib stream kept under `object_id`, as it stands on disk.
    pub fn stored_bytes(&self, repo_hash: &str, object_id: &str) -> (stream: Option<Vec<u8>>)
        requires
            self.wf(),
        ensures
            match stream {
                Some(bytes) => has_object(self@.objects, repo_hash@, object_id@) && bytes@
                    == self@.objects[object_index(self@.objects, repo_hash@, object_id@)].data,
                None => !has_object(self@.objects, repo_hash@, object_id@),
            },
    {
        match self.object_position(repo_hash, object_id) {
            Some(i) => Some(self.objects[i].data.clone()),
            None => None,
        }
    }

    /// Reads the payload stored under `object_id`.
    pub fn read_object(&self, repo_hash: &str, object_id: &str) -> (payload: Result<
        Vec<u8>,
        CoreError,
    >)
        requires
            self.wf(),
        ensures
            read_result(self@.objects, repo_hash@, object_id@) == match payload {
                Ok(data) => Ok::<Seq<u8>, CoreError>(data@),
                Err(e) => Err(e),
            },
    {
        match self.object_position(repo_hash, object_id) {
            Some(i) => match zlib_decompress(self.objects[i].data.as_slice()) {
                Some(data) => Ok(data),
                None => Err(CoreError::StorageIoError),
            },
            None => Err(CoreError::ObjectNotFound),
        }
    }

    fn ref_position(&self, repo_hash: &str, ref_name: &str) -> (at: Option<usize>)
        requires
            self.wf(),
        ensures
            match at {
                Some(i) => i < self@.refs.len() && self@.refs[i as int].repo_hash == repo_hash@
                    && self@.refs[i as int].ref_name == ref_name@ && has_ref(
                    self@.refs,
                    repo_hash@,
                    ref_name@,
                ) && ref_index(self@.refs, repo_hash@, ref_name@) == i,
                None => !has_ref(self@.refs, repo_hash@, ref_name@),
            },
    {
        let mut i: usize = 0;
        while i < self.refs.len()
            invariant
                i <= self.refs.len(),
                self.wf(),
                self@.refs == ref_views(self.refs@),
                forall|k: int|
                    0 <= k < i ==> !((#[trigger] self@.refs[k]).repo_hash == repo_hash@
                        && self@.refs[k].ref_name == ref_name@),
            decreases self.refs.len() - i,
        {
            if str_eq(self.refs[i].repo_hash.as_str(), repo_hash) && str_eq(
                self.refs[i].ref_name.as_str(),
                ref_name,
            ) {
                assert(self@.refs[i as int].repo_hash == repo_hash@ && self@.refs[i as int].ref_name
                    == ref_name@);
                return Some(i);
            }
            i += 1;
        }
        None
    }

    /// Points the ref `ref_name` at `commit_id`: its pointer file then
    /// holds the id and a line end.
    pub fn update_ref(&mut self, repo_hash: &str, ref_name: &str, commit_id: &str)
        requires
            old(self).wf(),
        ensures
            final(self).wf(),
            final(self)@ == (StorageView {
                refs: ref_put(old(self)@.refs, repo_hash@, ref_name@, commit_id@),
                ..old(self)@
            }),
    {
        let found = self.ref_position(repo_hash, ref_name);
        let ghost before = self@.refs;
        let mut content = String::from_str(commit_id);
        content.append("\n");
        proof {
            reveal_strlit("\n");
            assert(content@ == ref_file_text(commit_id@));
        }
        let entry = StoredRef {
            repo_hash: String::from_str(repo_hash),
            ref_name: String::from_str(ref_name),
            content,
        };
        match found {
            Some(i) => {
                assert(ref_views(self.refs@.update(i as int, entry)) == before.update(
                    i as int,
                    entry@,
                ));
                assert(entry@ == RefView {
                    content: ref_file_text(commit_id@),
                    ..before[i as int]
                });
                self.refs.set(i, entry);
            },
            None => {
                assert(ref_views(self.refs@.push(entry)) == before.push(entry@));
                self.refs.push(entry);
            },
        }
    }

    /// Keeps `content` as the text of the pointer file of a ref, as it was
    /// found on disk, in place of what was kept before.
    pub fn restore_ref(&mut self, repo_hash: &str, ref_name: &str, content: String)
        requires
            old(self).wf(),
        ensures
            final(self).wf(),
            final(self)@ == (StorageView {
                refs: ref_kept(old(self)@.refs, repo_hash@, ref_name@, content@),
                ..old(self)@
            }),
            has_ref(final(self)@.refs, repo_hash@, ref_name@),
            final(self)@.refs[ref_index(final(self)@.refs, repo_hash@, ref_name@)].content
                == content@,
    {
        let found = self.ref_position(repo_hash, ref_name);
        let ghost before = self@.refs;
        let entry = StoredRef {
            repo_hash: String::from_str(repo_hash),
            ref_name: String::from_str(ref_name),
            content,
        };
        let ghost at = match found {
            Some(i) => i as int,
            None => before.len() as int,
        };
        match found {
            Some(i) => {
                assert(ref_views(self.refs@.update(i as int, entry)) == before.update(
                    i as int,
                    entry@,
                ));
                assert(entry@ == RefView { content: content@, ..before[i as int] });
                self.refs.set(i, entry);
            },
            None => {
                assert(ref_views(self.refs@.push(entry)) == before.push(entry@));
                self.refs.push(entry);
            },
        }
        proof {
            let after = self@.refs;
            assert(after[at].repo_hash == repo_hash@ && after[at].ref_name == ref_name@);
            assert forall|i: int, j: int| 0 <= i < j < after.len() implies !((
            #[trigger] after[i]).repo_hash == (#[trigger] after[j]).repo_hash
                && after[i].ref_name == after[j].ref_name) by {
                if j < before.len() {
                    assert(!(before[i].repo_hash == before[j].repo_hash && before[i].ref_name
                        == before[j].ref_name));
                    assert(after[i].repo_hash == before[i].repo_hash && after[i].ref_name
                        == before[i].ref_name);
                    assert(after[j].repo_hash == before[j].repo_hash && after[j].ref_name
                        == before[j].ref_name);
                } else {
                    assert(before[i].repo_hash == after[i].repo_hash && before[i].ref_name
                        == after[i].ref_name);
                }
            }
            let again = ref_index(after, repo_hash@, ref_name@);
            if again < at {
                assert(!(after[again].repo_hash == after[at].repo_hash && after[again].ref_name
                    == after[at].ref_name));
            } else if at < again {
                assert(!(after[at].repo_hash == after[again].repo_hash && after[at].ref_name
                    == after[again].ref_name));
            }
        }
    }

    /// The text of the pointer file of a ref, as it stands on disk.
    pub fn ref_content(&self, repo_hash: &str, ref_name: &str) -> (content: Option<String>)
        requires
            self.wf(),
        ensures
            match content {
                Some(text) => has_ref(self@.refs, repo_hash@, ref_name@) && text@
                    == self@.refs[ref_index(self@.refs, repo_hash@, ref_name@)].content,
                None => !has_ref(self@.refs, repo_hash@, ref_name@),
            },
    {
        match self.ref_position(repo_hash, ref_name) {
            Some(i) => Some(self.refs[i].content.clone()),
            None => None,
        }
    }

    /// Reads a ref: the text of its pointer file without the white space
    /// around it.
    pub fn read_ref(&self, repo_hash: &str, ref_name: &str) -> (target: Result<String, CoreError>)
        requires
            self.wf(),
        ensures
            match target {
                Ok(id) => has_ref(self@.refs, repo_hash@, ref_name@) && id@ == trimmed(
                    self@.refs[ref_index(self@.refs, repo_hash@, ref_name@)].content,
                ),
                Err(e) => !has_ref(self@.refs, repo_hash@, ref_name@) && e
                    == CoreError::RefNotFound,
            },
    {
        match self.ref_position(repo_hash, ref_name) {
            Some(i) => Ok(trim(self.refs[i].content.as_str())),
            None => Err(CoreError::RefNotFound),
        }
    }

    /// The ids of all objects of a repository. The list is made anew on
    /// each call.
    pub fn list_objects(&self, repo_hash: &str) -> (ids: Vec<String>)
        ensures
            name_views(ids@) == object_ids(self@.objects, repo_hash@),
    {
        let mut out: Vec<String> = Vec::new();
        let mut k: usize = 0;
        while k < self.objects.len()
            invariant
                k <= self.objects.len(),
                self@.objects == object_views(self.objects@),
                name_views(out@) == object_ids(self@.objects.take(k as int), repo_hash@),
            decreases self.objects.len() - k,
        {
            proof {
                assert(self@.objects.take(k + 1).drop_last() == self@.objects.take(k as int));
            }
            if str_eq(self.objects[k].repo_hash.as_str(), repo_hash) {
                let id = self.objects[k].object_id.clone();
                assert(name_views(out@.push(id)) == name_views(out@).push(id@));
                out.push(id);
            }
            k += 1;
        }
        assert(self@.objects.take(k as int) == self@.objects);
        out
    }

    /// The bytes that a repository takes: its stored objects and its
    /// pointer files.
    pub fn get_repo_size(&self, repo_hash: &str) -> (size: u64)
        ensures
            size == capped(
                objects_size(self@.objects, repo_hash@) + refs_size(self@.refs, repo_hash@),
            ),
    {
        let mut total: u128 = 0;
        let mut k: usize = 0;
        while k < self.objects.len()
            invariant
                k <= self.objects.len(),
                self@.objects == object_views(self.objects@),
                total == objects_size(self@.objects.take(k as int), repo_hash@),
                total <= k * 0xffff_ffff_ffff_ffff,
            decreases self.objects.len() - k,
        {
            proof {
                assert(self@.objects.take(k + 1).drop_last() == self@.objects.take(k as int));
            }
            if str_eq(self.objects[k].repo_hash.as_str(), repo_hash) {
                total = total + self.objects[k].data.len() as u128;
            }
            k += 1;
        }
        assert(self@.objects.take(k as int) == self@.objects);
        let of_objects: u128 = if total > u64::MAX as u128 {
            u64::MAX as u128
        } else {
            total
        };
        let mut of_refs: u128 = 0;
        let mut j: usize = 0;
        while j < self.refs.len()
            invariant
                j <= self.refs.len(),
                self@.refs == ref_views(self.refs@),
                of_refs == refs_size(self@.refs.take(j as int), repo_hash@),
                of_refs <= j * 0xffff_ffff_ffff_ffff,
            decreases self.refs.len() - j,
        {
            proof {
                assert(self@.refs.take(j + 1).drop_last() == self@.refs.take(j as int));
            }
            if str_eq(self.refs[j].repo_hash.as_str(), repo_hash) {
                of_refs = of_refs + self.refs[j].content.as_str().len() as u128;
            }
            j += 1;
        }
        assert(self@.refs.take(j as int) == self@.refs);
        if of_refs > u64::MAX as u128 {
            of_refs = u64::MAX as u128;
        }
        let sum = of_objects + of_refs;
        if sum > u64::MAX as u128 {
            u64::MAX
        } else {
            sum as u64
        }
    }

    /// All stored objects of a repository in one buffer, for transfer in
    /// bulk: the zlib streams as they are kept, one after the other in the
    /// order of `list_objects`. The buffer does not say where one stream
    /// ends and the next begins.
    pub fn create_pack(&self, repo_hash: &str) -> (pack: Vec<u8>)
        ensures
            pack@ == packed(self@.objects, repo_hash@),
    {
        let mut out: Vec<u8> = Vec::new();
        let mut k: usize = 0;
        while k < self.objects.len()
            invariant
                k <= self.objects.len(),
                self@.objects == object_views(self.objects@),
                out@ == packed(self@.objects.take(k as int), repo_hash@),
            decreases self.objects.len() - k,
        {
            proof {
                assert(self@.objects.take(k + 1).drop_last() == self@.objects.take(k as int));
            }
            if str_eq(self.objects[k].repo_hash.as_str(), repo_hash) {
                out.extend_from_slice(self.objects[k].data.as_slice());
            }
            k += 1;
        }
        assert(self@.objects.take(k as int) == self@.objects);
        out
    }

    /// Removes all that is kept for a repository: its objects, its refs
    /// and its storage root. A repository that the store does not know is
    /// no error.
    pub fn delete_repo(&mut self, repo_hash: &str)
        requires
            old(self).wf(),
        ensures
            final(self).wf(),
            final(self)@ == (StorageView {
                base_path: old(self)@.base_path,
                roots: strings_without(old(self)@.roots, repo_hash@),
                objects: objects_without(old(self)@.objects, repo_hash@),
                refs: refs_without(old(self)@.refs, repo_hash@),
            }),
    {
        let ghost before = self@;
        let mut roots: Vec<String> = Vec::new();
        let mut r: usize = 0;
        while r < self.roots.len()
            invariant
                r <= self.roots.len(),
                before == self@,
                before.roots == name_views(self.roots@),
                name_views(roots@) == strings_without(before.roots.take(r as int), repo_hash@),
            decreases self.roots.len() - r,
        {
            proof {
                assert(before.roots.take(r + 1).drop_last() == before.roots.take(r as int));
            }
            if !str_eq(self.roots[r].as_str(), repo_hash) {
                let root = self.roots[r].clone();
                assert(name_views(roots@.push(root)) == name_views(roots@).push(root@));
                roots.push(root);
            }
            r += 1;
        }
        assert(before.roots.take(r as int) == before.roots);
        let mut objects: Vec<StoredObject> = Vec::new();
        let mut k: usize = 0;
        while k < self.objects.len()
            invariant
                k <= self.objects.len(),
                before == self@,
                before.objects == object_views(self.objects@),
                object_views(objects@) == objects_without(
                    before.objects.take(k as int),
                    repo_hash@,
                ),
            decreases self.objects.len() - k,
        {
            proof {
                assert(before.objects.take(k + 1).drop_last() == before.objects.take(k as int));
            }
            if !str_eq(self.objects[k].repo_hash.as_str(), repo_hash) {
                let entry = StoredObject {
                    repo_hash: self.objects[k].repo_hash.clone(),
                    object_id: self.objects[k].object_id.clone(),
                    data: self.objects[k].data.clone(),
                };
                assert(object_views(objects@.push(entry)) == object_views(objects@).push(entry@));
                objects.push(entry);
            }
            k += 1;
        }
        assert(before.objects.take(k as int) == before.objects);
        let mut refs: Vec<StoredRef> = Vec::new();
        let mut j: usize = 0;
        while j < self.refs.len()
            invariant
                j <= self.refs.len(),
                before == self@,
                before.refs == ref_views(self.refs@),
                ref_views(refs@) == refs_without(before.refs.take(j as int), repo_hash@),
            decreases self.refs.len() - j,
        {
            proof {
                assert(before.refs.take(j + 1).drop_last() == before.refs.take(j as int));
            }
            if !str_eq(self.refs[j].repo_hash.as_str(), repo_hash) {
                let entry = StoredRef {
                    repo_hash: self.refs[j].repo_hash.clone(),
                    ref_name: self.refs[j].ref_name.clone(),
                    content: self.refs[j].content.clone(),
                };
                assert(ref_views(refs@.push(entry)) == ref_views(refs@).push(entry@));
                refs.push(entry);
            }
            j += 1;
        }
        assert(before.refs.take(j as int) == before.refs);
        self.roots = roots;
        self.objects = objects;
        self.refs = refs;
        proof {
            lemma_objects_without(before.objects, repo_hash@);
            lemma_refs_without(before.refs, repo_hash@);
        }
    }
}

/// Leaving the objects of one repository out keeps every pair single and
/// leaves nothing of that repository to read.
pub proof fn lemma_objects_without(objects: Seq<ObjectView>, repo: Seq<char>)
    ensures
        forall|i: int|
            0 <= i < objects_without(objects, repo).len() ==> objects.contains(
                #[trigger] objects_without(objects, repo)[i],
            ) && objects_without(objects, repo)[i].repo_hash != repo,
        unique_objects(objects) ==> unique_objects(objects_without(objects, repo)),
        forall|id: Seq<char>| !has_object(objects_without(objects, repo), repo, id),
        object_ids(objects_without(objects, repo), repo) == Seq::<Seq<char>>::empty(),
    decreases objects.len(),
{
    let kept = objects_without(objects, repo);
    if objects.len() > 0 {
        let init = objects.drop_last();
        let rest = objects_without(init, repo);
        lemma_objects_without(init, repo);
        assert forall|i: int| 0 <= i < kept.len() implies objects.contains(#[trigger] kept[i])
            && kept[i].repo_hash != repo by {
            if i < rest.len() {
                assert(init.contains(rest[i]));
                let j = choose|j: int| 0 <= j < init.len() && init[j] == rest[i];
                assert(objects[j] == kept[i]);
            } else {
                assert(objects[objects.len() - 1] == kept[i]);
            }
        }
        if objects.last().repo_hash != repo {
            assert(kept.drop_last() == rest);
            assert(kept.last() == objects.last());
        }
        if unique_objects(objects) {
            assert(unique_objects(init)) by {
                assert forall|i: int, j: int| 0 <= i < j < init.len() implies !((
                #[trigger] init[i]).repo_hash == (#[trigger] init[j]).repo_hash
                    && init[i].object_id == init[j].object_id) by {
                    assert(init[i] == objects[i] && init[j] == objects[j]);
                }
            }
            assert forall|a: int, b: int| 0 <= a < b < kept.len() implies !((
            #[trigger] kept[a]).repo_hash == (#[trigger] kept[b]).repo_hash && kept[a].object_id
                == kept[b].object_id) by {
                if b < rest.len() {
                    assert(kept[a] == rest[a] && kept[b] == rest[b]);
                } else {
                    assert(init.contains(rest[a]));
                    let j = choose|j: int| 0 <= j < init.len() && init[j] == rest[a];
                    assert(objects[j] == kept[a]);
                    assert(objects[objects.len() - 1] == kept[b]);
                }
            }
        }
    }
    assert forall|id: Seq<char>| !has_object(kept, repo, id) by {
        if has_object(kept, repo, id) {
            let i = object_index(kept, repo, id);
            assert(kept[i].repo_hash != repo);
        }
    }
}

/// Leaving the refs of one repository out keeps every pair single.
pub proof fn lemma_refs_without(refs: Seq<RefView>, repo: Seq<char>)
    ensures
        forall|i: int|
            0 <= i < refs_without(refs, repo).len() ==> refs.contains(
                #[trigger] refs_without(refs, repo)[i],
            ) && refs_without(refs, repo)[i].repo_hash != repo,
        unique_refs(refs) ==> unique_refs(refs_without(refs, repo)),
        forall|name: Seq<char>| !has_ref(refs_without(refs, repo), repo, name),
    decreases refs.len(),
{
    let kept = refs_without(refs, repo);
    if refs.len() > 0 {
        let init = refs.drop_last();
        let rest = refs_without(init, repo);
        lemma_refs_without(init, repo);
        assert forall|i: int| 0 <= i < kept.len() implies refs.contains(#[trigger] kept[i])
            && kept[i].repo_hash != repo by {
            if i < rest.len() {
                assert(init.contains(rest[i]));
                let j = choose|j: int| 0 <= j < init.len() && init[j] == rest[i];
                assert(refs[j] == kept[i]);
            } else {
                assert(refs[refs.len() - 1] == kept[i]);
            }
        }
        if unique_refs(refs) {
            assert(unique_refs(init)) by {
                assert forall|i: int, j: int| 0 <= i < j < init.len() implies !((
                #[trigger] init[i]).repo_hash == (#[trigger] init[j]).repo_hash
                    && init[i].ref_name == init[j].ref_name) by {
                    assert(init[i] == refs[i] && init[j] == refs[j]);
                }
            }
            assert forall|a: int, b: int| 0 <= a < b < kept.len() implies !((
            #[trigger] kept[a]).repo_hash == (#[trigger] kept[b]).repo_hash && kept[a].ref_name
                == kept[b].ref_name) by {
                if b < rest.len() {
                    assert(kept[a] == rest[a] && kept[b] == rest[b]);
                } else {
                    assert(init.contains(rest[a]));
                    let j = choose|j: int| 0 <= j < init.len() && init[j] == rest[a];
                    assert(refs[j] == kept[a]);
                    assert(refs[refs.len() - 1] == kept[b]);
                }
            }
        }
    }
    assert forall|name: Seq<char>| !has_ref(kept, repo, name) by {
        if has_ref(kept, repo, name) {
            let i = ref_index(kept, repo, name);
            assert(kept[i].repo_hash != repo);
        }
    }
}

/// Storing under one id twice leaves the store as if only the second
/// write had happened.
pub proof fn lemma_last_write_wins(
    objects: Seq<ObjectView>,
    repo: Seq<char>,
    id: Seq<char>,
    first: Seq<u8>,
    second: Seq<u8>,
)
    requires
        unique_objects(objects),
    ensures
        object_put(object_put(objects, repo, id, first), repo, id, second) == object_put(
            objects,
            repo,
            id,
            second,
        ),
{
    let once = object_put(objects, repo, id, first);
    if has_object(objects, repo, id) {
        let at = object_index(objects, repo, id);
        assert(once[at].repo_hash == repo && once[at].object_id == id);
        let again = object_index(once, repo, id);
        assert(objects[again].repo_hash == repo && objects[again].object_id == id);
        assert(again == at) by {
            if again < at {
                assert(!(objects[again].repo_hash == objects[at].repo_hash
                    && objects[again].object_id == objects[at].object_id));
            } else if at < again {
                assert(!(objects[at].repo_hash == objects[again].repo_hash
                    && objects[at].object_id == objects[again].object_id));
            }
        }
        assert(once.update(at, ObjectView { data: second, ..once[at] }) == objects.update(
            at,
            ObjectView { data: second, ..objects[at] },
        ));
    } else {
        let at = objects.len() as int;
        assert(once[at].repo_hash == repo && once[at].object_id == id);
        let again = object_index(once, repo, id);
        assert(again == at) by {
            if again < at {
                assert(objects[again].repo_hash == repo && objects[again].object_id == id);
            }
        }
        assert(once.update(at, ObjectView { data: second, ..once[at] }) == objects.push(
            ObjectView { repo_hash: repo, object_id: id, data: second },
        ));
    }
}

/// Storing under one id keeps every other object in the store.
pub proof fn lemma_put_keeps_objects(
    objects: Seq<ObjectView>,
    repo: Seq<char>,
    id: Seq<char>,
    stream: Seq<u8>,
    other_repo: Seq<char>,
    other_id: Seq<char>,
)
    ensures
        has_object(objects, other_repo, other_id) ==> has_object(
            object_put(objects, repo, id, stream),
            other_repo,
            other_id,
        ),
{
    let after = object_put(objects, repo, id, stream);
    if has_object(objects, other_repo, other_id) {
        let k = object_index(objects, other_repo, other_id);
        assert(after[k].repo_hash == other_repo && after[k].object_id == other_id);
    }
}

/// What was stored under an id is what a reader of the id gets, as long
/// as the stored stream decodes to it; other ids read as before.
pub proof fn lemma_read_after_put(
    objects: Seq<ObjectView>,
    repo: Seq<char>,
    id: Seq<char>,
    stream: Seq<u8>,
    other_repo: Seq<char>,
    other_id: Seq<char>,
)
    requires
        unique_objects(objects),
    ensures
        unique_objects(object_put(objects, repo, id, stream)),
        read_result(object_put(objects, repo, id, stream), repo, id) == match zlib_inflated(
            stream,
        ) {
            Some(data) => Ok::<Seq<u8>, CoreError>(data),
            None => Err(CoreError::StorageIoError),
        },
        !(other_repo == repo && other_id == id) ==> read_result(
            object_put(objects, repo, id, stream),
            other_repo,
            other_id,
        ) == read_result(objects, other_repo, other_id),
{
    let after = object_put(objects, repo, id, stream);
    let at = if has_object(objects, repo, id) {
        object_index(objects, repo, id)
    } else {
        objects.len() as int
    };
    assert(after[at].repo_hash == repo && after[at].object_id == id && after[at].data == stream);
    assert forall|i: int| 0 <= i < after.len() implies (#[trigger] after[i]).repo_hash == (if i
        < objects.len() {
        objects[i].repo_hash
    } else {
        repo
    }) && after[i].object_id == (if i < objects.len() {
        objects[i].object_id
    } else {
        id
    }) by {}
    assert(unique_objects(after)) by {
        assert forall|i: int, j: int| 0 <= i < j < after.len() implies !((
        #[trigger] after[i]).repo_hash == (#[trigger] after[j]).repo_hash && after[i].object_id
            == after[j].object_id) by {
            if j < objects.len() {
                assert(!(objects[i].repo_hash == objects[j].repo_hash && objects[i].object_id
                    == objects[j].object_id));
            } else {
                assert(objects[i].repo_hash == after[i].repo_hash);
            }
        }
    }
    let found = object_index(after, repo, id);
    assert(found == at) by {
        if found < at {
            assert(!(after[found].repo_hash == after[at].repo_hash && after[found].object_id
                == after[at].object_id));
        } else if at < found {
            assert(!(after[at].repo_hash == after[found].repo_hash && after[at].object_id
                == after[found].object_id));
        }
    }
    if !(other_repo == repo && other_id == id) {
        if has_object(objects, other_repo, other_id) {
            let k = object_index(objects, other_repo, other_id);
            assert(after[k].repo_hash == other_repo && after[k].object_id == other_id);
            let k2 = object_index(after, other_repo, other_id);
            assert(k2 == k) by {
                if k2 < k {
                    assert(!(after[k2].repo_hash == after[k].repo_hash && after[k2].object_id
                        == after[k].object_id));
                } else if k < k2 {
                    assert(!(after[k].repo_hash == after[k2].repo_hash && after[k].object_id
                        == after[k2].object_id));
                }
            }
            assert(after[k] == objects[k]);
        } else {
            if has_object(after, other_repo, other_id) {
                let k2 = object_index(after, other_repo, other_id);
                if k2 < objects.len() {
                    assert(objects[k2].repo_hash == other_repo && objects[k2].object_id
                        == other_id);
                }
            }
        }
    }
}

} // verus!
