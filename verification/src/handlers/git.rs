//! The endpoints that store and hand out objects and refs.

use vstd::prelude::*;
use vstd::slice::slice_to_vec;
use vstd::string::StringExecFns;
use crate::auth::AuthUser;
use crate::db::{has_repo, repo_index, Database, DatabaseView};
use crate::encoding::{base64_decode, base64_decoded, url_decode, url_decoded};
use crate::error::CoreError;
use crate::handlers::{check_read_access, read_fault, write_fault, HttpStatus};
use crate::storage::codec::zlib_compressed;
use crate::storage::git::{
    name_views, object_ids, object_put, packed, read_result, ref_index, ref_put, has_ref,
    GitStorage, ObjectView, StorageView,
};
use crate::text::{byte_len, decimal, decimal_text, str_eq, trimmed};
use crate::utils::validation::{
    valid_object_id, valid_ref_name, valid_repo_hash, validate_object_id, validate_ref_name,
    validate_repo_hash,
};

verus! {

/// No object of more bytes is taken.
pub const MAX_OBJECT_SIZE: usize = 100 * 1024 * 1024;

/// No batch of more objects is taken.
pub const MAX_BATCH_SIZE: usize = 1000;

/// One object to store: its id, its type and its payload in base64.
#[derive(Debug)]
pub struct UploadObjectRequest {
    pub object_id: String,
    pub object_type: String,
    pub data: String,
}

/// What the upload of one object answers with.
#[derive(Debug)]
pub struct UploadObjectResponse {
    pub success: bool,
    pub object_id: String,
}

/// Several objects to store at once.
#[derive(Debug)]
pub struct BatchUploadRequest {
    pub objects: Vec<UploadObjectRequest>,
}

/// How many objects of a batch were stored, and the ids of those that were not.
#[derive(Debug)]
pub struct BatchUploadResponse {
    pub uploaded: usize,
    pub failed: Vec<String>,
}

/// A ref and the commit that it shall point at.
#[derive(Debug)]
pub struct UpdateRefRequest {
    pub ref_name: String,
    pub commit_id: String,
}

/// The ids of the objects of a repository.
#[derive(Debug)]
pub struct ListObjectsResponse {
    pub objects: Vec<String>,
    pub count: usize,
}

/// One of the four types of objects.
pub open spec fn valid_object_type(kind: Seq<char>) -> bool {
    kind == "blob"@ || kind == "tree"@ || kind == "commit"@ || kind == "tag"@
}

/// Whether `kind` names one of the four types of objects.
pub fn is_object_type(kind: &str) -> (valid: bool)
    ensures
        valid == valid_object_type(kind@),
{
    str_eq(kind, "blob") || str_eq(kind, "tree") || str_eq(kind, "commit") || str_eq(kind, "tag")
}

/// Why a repository cannot be read by `user`, if there is a reason: the
/// hash is malformed, the repository unknown, or private and not the
/// user's.
pub open spec fn fetch_fault(db: DatabaseView, repo_hash: Seq<char>, user: Option<i64>) -> Option<
    HttpStatus,
> {
    if !valid_repo_hash(repo_hash) {
        Some(HttpStatus::BadRequest)
    } else if !has_repo(db.repositories, repo_hash) {
        Some(HttpStatus::NotFound)
    } else {
        read_fault(db.repositories[repo_index(db.repositories, repo_hash)], user)
    }
}

/// The id of the user of a request, where it has one.
pub open spec fn user_id(user: Option<AuthUser>) -> Option<i64> {
    match user {
        Some(u) => Some(u.id),
        None => None,
    }
}

/// Decides whether the user of a request may read a repository.
pub fn authorize_fetch(db: &Database, repo_hash: &str, user: &Option<AuthUser>) -> (verdict:
    Result<(), HttpStatus>)
    requires
        db.wf(),
    ensures
        match verdict {
            Ok(_) => fetch_fault(db@, repo_hash@, user_id(*user)) is None,
            Err(status) => fetch_fault(db@, repo_hash@, user_id(*user)) == Some(status),
        },
{
    if !validate_repo_hash(repo_hash) {
        return Err(HttpStatus::BadRequest);
    }
    let repo = match db.get_repository(repo_hash) {
        Ok(repo) => repo,
        Err(_) => {
            return Err(HttpStatus::NotFound);
        },
    };
    let id = match user {
        Some(u) => Some(u.id),
        None => None,
    };
    check_read_access(repo.owner_id, repo.is_private, id)
}

/// Why the upload of one object is refused, if it is; `payload` is what
/// the base64 text of the request decodes to.
pub open spec fn upload_fault(
    db: DatabaseView,
    user: i64,
    repo_hash: Seq<char>,
    object_id: Seq<char>,
    object_type: Seq<char>,
    payload: Option<Seq<u8>>,
) -> Option<HttpStatus> {
    if !valid_repo_hash(repo_hash) || !valid_object_id(object_id) || !valid_object_type(
        object_type,
    ) {
        Some(HttpStatus::BadRequest)
    } else if !has_repo(db.repositories, repo_hash) {
        Some(HttpStatus::NotFound)
    } else if db.repositories[repo_index(db.repositories, repo_hash)].owner_id != user {
        Some(HttpStatus::Forbidden)
    } else {
        match payload {
            None => Some(HttpStatus::BadRequest),
            Some(data) => if data.len() > MAX_OBJECT_SIZE {
                Some(HttpStatus::PayloadTooLarge)
            } else {
                None
            },
        }
    }
}

/// Stores one object for the owner of a repository. The request is
/// refused with the status that `upload_fault` names; otherwise the
/// decoded payload is stored under the id of the request. Where the
/// encoder gives no stream for the payload, the answer is
/// `InternalServerError` and nothing changes.
pub fn upload_object(
    db: &Database,
    storage: &mut GitStorage,
    user: &AuthUser,
    repo_hash: &str,
    payload: UploadObjectRequest,
) -> (response: Result<UploadObjectResponse, HttpStatus>)
    requires
        db.wf(),
        old(storage).wf(),
    ensures
        final(storage).wf(),
        match upload_fault(
            db@,
            user.id,
            repo_hash@,
            payload.object_id@,
            payload.object_type@,
            base64_decoded(payload.data@),
        ) {
            Some(status) => response == Err::<UploadObjectResponse, HttpStatus>(status)
                && final(storage)@ == old(storage)@,
            None => match zlib_compressed(base64_decoded(payload.data@).unwrap()) {
                Some(stream) => {
                    &&& response is Ok
                    &&& response.unwrap().success
                    &&& response.unwrap().object_id@ == payload.object_id@
                    &&& final(storage)@ == (StorageView {
                        objects: object_put(
                            old(storage)@.objects,
                            repo_hash@,
                            payload.object_id@,
                            stream,
                        ),
                        ..old(storage)@
                    })
                    &&& read_result(final(storage)@.objects, repo_hash@, payload.object_id@)
                        == Ok::<Seq<u8>, CoreError>(base64_decoded(payload.data@).unwrap())
                },
                None => response == Err::<UploadObjectResponse, HttpStatus>(
                    HttpStatus::InternalServerError,
                ) && final(storage)@ == old(storage)@,
            },
        },
{
    if !validate_repo_hash(repo_hash) {
        return Err(HttpStatus::BadRequest);
    }
    if !validate_object_id(payload.object_id.as_str()) {
        return Err(HttpStatus::BadRequest);
    }
    if !is_object_type(payload.object_type.as_str()) {
        return Err(HttpStatus::BadRequest);
    }
    let repo = match db.get_repository(repo_hash) {
        Ok(repo) => repo,
        Err(_) => {
            return Err(HttpStatus::NotFound);
        },
    };
    if repo.owner_id != user.id {
        return Err(HttpStatus::Forbidden);
    }
    let data = match base64_decode(payload.data.as_str()) {
        Some(data) => data,
        None => {
            return Err(HttpStatus::BadRequest);
        },
    };
    if data.len() > MAX_OBJECT_SIZE {
        return Err(HttpStatus::PayloadTooLarge);
    }
    match storage.store_object(repo_hash, payload.object_id.as_str(), data.as_slice()) {
        Ok(_) => Ok(UploadObjectResponse { success: true, object_id: payload.object_id }),
        Err(_) => Err(HttpStatus::InternalServerError),
    }
}

/// An object as a batch stores it: its type, a blank, the length of the
/// payload in decimal, a zero byte, and the payload.
pub open spec fn framed_object(object_type: Seq<char>, payload: Seq<u8>) -> Seq<u8> {
    vstd::utf8::encode_utf8(object_type + seq![' '] + decimal(payload.len()) + seq!['\0'])
        + payload
}

/// Puts the header of an object before its payload.
pub fn frame_object(object_type: &str, payload: &Vec<u8>) -> (framed: Vec<u8>)
    ensures
        framed@ == framed_object(object_type@, payload@),
{
    let mut header = String::from_str(object_type);
    header.append(" ");
    let length = decimal_text(payload.len() as u64);
    header.append(length.as_str());
    header.append("\0");
    proof {
        reveal_strlit(" ");
        reveal_strlit("\0");
        assert(header@ == object_type@ + seq![' '] + decimal(payload@.len()) + seq!['\0']);
    }
    let mut framed = slice_to_vec(header.as_str().as_bytes());
    framed.extend_from_slice(payload.as_slice());
    framed
}

/// Why a batch as a whole is refused, if it is.
pub open spec fn batch_fault(db: DatabaseView, user: i64, repo_hash: Seq<char>, count: nat)
    -> Option<HttpStatus> {
    if !valid_repo_hash(repo_hash) {
        Some(HttpStatus::BadRequest)
    } else if count > MAX_BATCH_SIZE {
        Some(HttpStatus::PayloadTooLarge)
    } else if !has_repo(db.repositories, repo_hash) {
        Some(HttpStatus::NotFound)
    } else if db.repositories[repo_index(db.repositories, repo_hash)].owner_id != user {
        Some(HttpStatus::Forbidden)
    } else {
        None
    }
}

/// Whether one object of a batch can be taken: its id is well formed, its
/// payload decodes and is not too large.
pub open spec fn batch_item_ok(object_id: Seq<char>, payload: Option<Seq<u8>>) -> bool {
    valid_object_id(object_id) && payload is Some && payload.unwrap().len() <= MAX_OBJECT_SIZE
}

/// The size of a repository as the catalog records it: the bytes that
/// the store keeps for it, the largest number that the catalog can hold
/// standing for all that is larger.
pub open spec fn recorded_size(storage: StorageView, repo_hash: Seq<char>) -> i64 {
    let size = crate::storage::git::capped(
        crate::storage::git::objects_size(storage.objects, repo_hash)
            + crate::storage::git::refs_size(storage.refs, repo_hash),
    );
    if size > i64::MAX {
        i64::MAX
    } else {
        size as i64
    }
}

/// The mathematical value of an [`UploadObjectRequest`].
pub ghost struct UploadView {
    pub object_id: Seq<char>,
    pub object_type: Seq<char>,
    pub data: Seq<char>,
}

impl View for UploadObjectRequest {
    type V = UploadView;

    open spec fn view(&self) -> UploadView {
        UploadView { object_id: self.object_id@, object_type: self.object_type@, data: self.data@ }
    }
}

/// The views of the objects of a batch.
pub open spec fn upload_views(items: Seq<UploadObjectRequest>) -> Seq<UploadView> {
    items.map_values(|item: UploadObjectRequest| item@)
}

/// The payload of an object of a batch under its header, as the store
/// compresses it.
pub open spec fn batch_payload(item: UploadView) -> Seq<u8> {
    framed_object(item.object_type, base64_decoded(item.data).unwrap())
}

/// Whether an object of a batch is stored: it can be taken, and the
/// encoder gives a stream for its payload under its header.
pub open spec fn batch_item_kept(item: UploadView) -> bool {
    batch_item_ok(item.object_id, base64_decoded(item.data)) && zlib_compressed(
        batch_payload(item),
    ) is Some
}

/// The objects of the store after a batch: those of the batch that are
/// stored are put one after the other, in the order of the batch.
pub open spec fn batch_objects(
    objects: Seq<ObjectView>,
    repo_hash: Seq<char>,
    items: Seq<UploadView>,
) -> Seq<ObjectView>
    decreases items.len(),
{
    if items.len() == 0 {
        objects
    } else {
        let before = batch_objects(objects, repo_hash, items.drop_last());
        if batch_item_kept(items.last()) {
            object_put(
                before,
                repo_hash,
                items.last().object_id,
                zlib_compressed(batch_payload(items.last())).unwrap(),
            )
        } else {
            before
        }
    }
}

/// The ids of the objects of a batch that are not stored, in the order of
/// the batch.
pub open spec fn batch_failures(items: Seq<UploadView>) -> Seq<Seq<char>>
    decreases items.len(),
{
    if items.len() == 0 {
        Seq::<Seq<char>>::empty()
    } else {
        let before = batch_failures(items.drop_last());
        if batch_item_kept(items.last()) {
            before
        } else {
            before.push(items.last().object_id)
        }
    }
}

/// How many objects of a batch are stored.
pub open spec fn batch_kept(items: Seq<UploadView>) -> nat
    decreases items.len(),
{
    if items.len() == 0 {
        0
    } else {
        batch_kept(items.drop_last()) + if batch_item_kept(items.last()) {
            1nat
        } else {
            0nat
        }
    }
}

/// Every object of a batch is either stored or listed as failed.
pub proof fn lemma_batch_accounts(items: Seq<UploadView>)
    ensures
        batch_kept(items) + batch_failures(items).len() == items.len(),
    decreases items.len(),
{
    if items.len() > 0 {
        lemma_batch_accounts(items.drop_last());
    }
}

/// Works through the objects of a batch one after the other: stores
/// each that can be taken and lists the ids of the others.
fn store_batch(storage: &mut GitStorage, repo_hash: &str, objects: &Vec<UploadObjectRequest>) -> (done:
    BatchUploadResponse)
    requires
        old(storage).wf(),
    ensures
        final(storage).wf(),
        final(storage)@ == (StorageView {
            objects: batch_objects(old(storage)@.objects, repo_hash@, upload_views(objects@)),
            ..old(storage)@
        }),
        done.uploaded == batch_kept(upload_views(objects@)),
        name_views(done.failed@) == batch_failures(upload_views(objects@)),
{
    let ghost items = upload_views(objects@);
    let mut uploaded: usize = 0;
    let mut failed: Vec<String> = Vec::new();
    let mut i: usize = 0;
    proof {
        assert(items.take(0).len() == 0);
        assert(name_views(failed@) == Seq::<Seq<char>>::empty());
    }
    while i < objects.len()
        invariant
            i <= objects.len(),
            items == upload_views(objects@),
            storage.wf(),
            storage@ == (StorageView {
                objects: batch_objects(old(storage)@.objects, repo_hash@, items.take(i as int)),
                ..old(storage)@
            }),
            uploaded == batch_kept(items.take(i as int)),
            uploaded <= i,
            name_views(failed@) == batch_failures(items.take(i as int)),
        decreases objects.len() - i,
    {
        let object = &objects[i];
        let ghost failed_before = name_views(failed@);
        let mut stored = false;
        if validate_object_id(object.object_id.as_str()) {
            match base64_decode(object.data.as_str()) {
                Some(raw) => {
                    if raw.len() <= MAX_OBJECT_SIZE {
                        let framed = frame_object(object.object_type.as_str(), &raw);
                        match storage.store_object(
                            repo_hash,
                            object.object_id.as_str(),
                            framed.as_slice(),
                        ) {
                            Ok(_) => {
                                stored = true;
                            },
                            Err(_) => {},
                        }
                    }
                },
                None => {},
            }
        }
        proof {
            let upto = items.take(i + 1);
            assert(upto.drop_last() == items.take(i as int));
            assert(upto.last() == objects@[i as int]@);
            assert(stored == batch_item_kept(upto.last()));
        }
        if stored {
            uploaded += 1;
        } else {
            let id = object.object_id.clone();
            proof {
                assert(name_views(failed@.push(id)) == failed_before.push(id@));
            }
            failed.push(id);
        }
        i += 1;
    }
    proof {
        assert(items.take(i as int) == items);
    }
    BatchUploadResponse { uploaded, failed }
}

/// Stores the objects of a batch for the owner of a repository, each
/// under its header, and records the new size of the repository. An
/// object that cannot be taken, or for which the encoder gives no stream,
/// is listed as failed and does not stop the others. The objects that are
/// stored are put in the order of the batch, and the ids of the others are
/// listed in that order. The batch as a whole is refused with the status
/// that `batch_fault` names, and then nothing changes.
pub fn batch_upload_objects(
    db: &mut Database,
    storage: &mut GitStorage,
    user: &AuthUser,
    repo_hash: &str,
    payload: BatchUploadRequest,
    now: i64,
) -> (response: Result<BatchUploadResponse, HttpStatus>)
    requires
        old(db).wf(),
        old(storage).wf(),
    ensures
        final(db).wf(),
        final(storage).wf(),
        match batch_fault(old(db)@, user.id, repo_hash@, payload.objects@.len()) {
            Some(status) => {
                &&& response == Err::<BatchUploadResponse, HttpStatus>(status)
                &&& final(storage)@ == old(storage)@
                &&& final(db)@ == old(db)@
            },
            None => {
                &&& response is Ok
                &&& response.unwrap().uploaded == batch_kept(upload_views(payload.objects@))
                &&& name_views(response.unwrap().failed@) == batch_failures(
                    upload_views(payload.objects@),
                )
                &&& final(storage)@ == (StorageView {
                    objects: batch_objects(
                        old(storage)@.objects,
                        repo_hash@,
                        upload_views(payload.objects@),
                    ),
                    ..old(storage)@
                })
                &&& final(db)@ == (DatabaseView {
                    repositories: crate::db::repo_resized(
                        old(db)@.repositories,
                        repo_hash@,
                        recorded_size(final(storage)@, repo_hash@),
                        now,
                    ),
                    ..old(db)@
                })
            },
        },
{
    if !validate_repo_hash(repo_hash) {
        return Err(HttpStatus::BadRequest);
    }
    if payload.objects.len() > MAX_BATCH_SIZE {
        return Err(HttpStatus::PayloadTooLarge);
    }
    let repo = match db.get_repository(repo_hash) {
        Ok(repo) => repo,
        Err(_) => {
            return Err(HttpStatus::NotFound);
        },
    };
    if repo.owner_id != user.id {
        return Err(HttpStatus::Forbidden);
    }
    let done = store_batch(storage, repo_hash, &payload.objects);
    let size = storage.get_repo_size(repo_hash);
    let recorded = if size > i64::MAX as u64 {
        i64::MAX
    } else {
        size as i64
    };
    db.update_repository_size(repo_hash, recorded, now);
    Ok(done)
}

/// Hands out the payload of an object to a user who may read the
/// repository. An unknown or unreadable object is `NotFound`.
pub fn download_object(
    db: &Database,
    storage: &GitStorage,
    user: &Option<AuthUser>,
    repo_hash: &str,
    object_id: &str,
) -> (response: Result<Vec<u8>, HttpStatus>)
    requires
        db.wf(),
        storage.wf(),
    ensures
        match response {
            Ok(data) => {
                &&& valid_repo_hash(repo_hash@) && valid_object_id(object_id@)
                &&& fetch_fault(db@, repo_hash@, user_id(*user)) is None
                &&& read_result(storage@.objects, repo_hash@, object_id@) == Ok::<
                    Seq<u8>,
                    CoreError,
                >(data@)
            },
            Err(status) => status == if !valid_repo_hash(repo_hash@) || !valid_object_id(
                object_id@,
            ) {
                HttpStatus::BadRequest
            } else if fetch_fault(db@, repo_hash@, user_id(*user)) is Some {
                fetch_fault(db@, repo_hash@, user_id(*user)).unwrap()
            } else {
                HttpStatus::NotFound
            } && (valid_repo_hash(repo_hash@) && valid_object_id(object_id@) && fetch_fault(
                db@,
                repo_hash@,
                user_id(*user),
            ) is None ==> read_result(storage@.objects, repo_hash@, object_id@) is Err),
        },
{
    if !validate_repo_hash(repo_hash) {
        return Err(HttpStatus::BadRequest);
    }
    if !validate_object_id(object_id) {
        return Err(HttpStatus::BadRequest);
    }
    match authorize_fetch(db, repo_hash, user) {
        Ok(_) => {},
        Err(status) => {
            return Err(status);
        },
    }
    match storage.read_object(repo_hash, object_id) {
        Ok(data) => Ok(data),
        Err(_) => Err(HttpStatus::NotFound),
    }
}

/// Why the update of a ref is refused, if it is.
pub open spec fn update_ref_fault(
    db: DatabaseView,
    user: i64,
    repo_hash: Seq<char>,
    ref_name: Seq<char>,
    commit_id: Seq<char>,
) -> Option<HttpStatus> {
    if !valid_repo_hash(repo_hash) || !valid_ref_name(ref_name) || !valid_object_id(commit_id) {
        Some(HttpStatus::BadRequest)
    } else if !has_repo(db.repositories, repo_hash) {
        Some(HttpStatus::NotFound)
    } else if db.repositories[repo_index(db.repositories, repo_hash)].owner_id != user {
        Some(HttpStatus::Forbidden)
    } else {
        None
    }
}

/// Points a ref of a repository at a commit, for the owner of the
/// repository.
pub fn update_ref(
    db: &Database,
    storage: &mut GitStorage,
    user: &AuthUser,
    repo_hash: &str,
    payload: &UpdateRefRequest,
) -> (response: Result<HttpStatus, HttpStatus>)
    requires
        db.wf(),
        old(storage).wf(),
    ensures
        final(storage).wf(),
        match response {
            Ok(status) => {
                &&& status == HttpStatus::Success
                &&& update_ref_fault(
                    db@,
                    user.id,
                    repo_hash@,
                    payload.ref_name@,
                    payload.commit_id@,
                ) is None
                &&& final(storage)@ == (StorageView {
                    refs: ref_put(
                        old(storage)@.refs,
                        repo_hash@,
                        payload.ref_name@,
                        payload.commit_id@,
                    ),
                    ..old(storage)@
                })
            },
            Err(status) => {
                &&& update_ref_fault(
                    db@,
                    user.id,
                    repo_hash@,
                    payload.ref_name@,
                    payload.commit_id@,
                ) == Some(status)
                &&& final(storage)@ == old(storage)@
            },
        },
{
    if !validate_repo_hash(repo_hash) {
        return Err(HttpStatus::BadRequest);
    }
    if !validate_ref_name(payload.ref_name.as_str()) {
        return Err(HttpStatus::BadRequest);
    }
    if !validate_object_id(payload.commit_id.as_str()) {
        return Err(HttpStatus::BadRequest);
    }
    let repo = match db.get_repository(repo_hash) {
        Ok(repo) => repo,
        Err(_) => {
            return Err(HttpStatus::NotFound);
        },
    };
    if repo.owner_id != user.id {
        return Err(HttpStatus::Forbidden);
    }
    storage.update_ref(repo_hash, payload.ref_name.as_str(), payload.commit_id.as_str());
    Ok(HttpStatus::Success)
}

/// What reading a ref comes to for a user who may read the repository;
/// `ref_name` is the name as it stands in the URL, still encoded.
pub open spec fn ref_reading(storage: StorageView, repo_hash: Seq<char>, ref_name: Seq<char>)
    -> Result<Seq<char>, HttpStatus> {
    match url_decoded(ref_name) {
        None => Err(HttpStatus::BadRequest),
        Some(name) => if !valid_ref_name(name) {
            Err(HttpStatus::BadRequest)
        } else if !has_ref(storage.refs, repo_hash, name) {
            Err(HttpStatus::NotFound)
        } else {
            Ok(trimmed(storage.refs[ref_index(storage.refs, repo_hash, name)].content))
        },
    }
}

/// Hands out the commit that a ref points at to a user who may read the
/// repository.
pub fn get_ref(
    db: &Database,
    storage: &GitStorage,
    user: &Option<AuthUser>,
    repo_hash: &str,
    ref_name: &str,
) -> (response: Result<String, HttpStatus>)
    requires
        db.wf(),
        storage.wf(),
    ensures
        (match response {
            Ok(commit) => Ok::<Seq<char>, HttpStatus>(commit@),
            Err(status) => Err(status),
        }) == (match fetch_fault(db@, repo_hash@, user_id(*user)) {
            Some(status) => Err(status),
            None => ref_reading(storage@, repo_hash@, ref_name@),
        }),
{
    match authorize_fetch(db, repo_hash, user) {
        Ok(_) => {},
        Err(status) => {
            return Err(status);
        },
    }
    let name = match url_decode(ref_name) {
        Some(name) => name,
        None => {
            return Err(HttpStatus::BadRequest);
        },
    };
    if !validate_ref_name(name.as_str()) {
        return Err(HttpStatus::BadRequest);
    }
    match storage.read_ref(repo_hash, name.as_str()) {
        Ok(commit) => Ok(commit),
        Err(_) => Err(HttpStatus::NotFound),
    }
}

/// Lists the ids of the objects of a repository for a user who may read
/// it.
pub fn list_objects(
    db: &Database,
    storage: &GitStorage,
    user: &Option<AuthUser>,
    repo_hash: &str,
) -> (response: Result<ListObjectsResponse, HttpStatus>)
    requires
        db.wf(),
    ensures
        match response {
            Ok(listing) => {
                &&& fetch_fault(db@, repo_hash@, user_id(*user)) is None
                &&& name_views(listing.objects@) == object_ids(storage@.objects, repo_hash@)
                &&& listing.count == listing.objects@.len()
            },
            Err(status) => fetch_fault(db@, repo_hash@, user_id(*user)) == Some(status),
        },
{
    match authorize_fetch(db, repo_hash, user) {
        Ok(_) => {},
        Err(status) => {
            return Err(status);
        },
    }
    let objects = storage.list_objects(repo_hash);
    let count = objects.len();
    Ok(ListObjectsResponse { objects, count })
}

/// Hands out all objects of a repository in one buffer to a user who may
/// read it.
pub fn get_packfile(
    db: &Database,
    storage: &GitStorage,
    user: &Option<AuthUser>,
    repo_hash: &str,
) -> (response: Result<Vec<u8>, HttpStatus>)
    requires
        db.wf(),
    ensures
        match response {
            Ok(pack) => fetch_fault(db@, repo_hash@, user_id(*user)) is None && pack@ == packed(
                storage@.objects,
                repo_hash@,
            ),
            Err(status) => fetch_fault(db@, repo_hash@, user_id(*user)) == Some(status),
        },
{
    match authorize_fetch(db, repo_hash, user) {
        Ok(_) => {},
        Err(status) => {
            return Err(status);
        },
    }
    Ok(storage.create_pack(repo_hash))
}

/// The commit that stands for a ref that does not exist: forty zeros.
pub const NULL_COMMIT: &'static str = "0000000000000000000000000000000000000000";

/// What a ref reads as, if it exists.
pub open spec fn ref_target(storage: StorageView, repo_hash: Seq<char>, name: Seq<char>) -> Option<
    Seq<char>,
> {
    if has_ref(storage.refs, repo_hash, name) {
        Some(trimmed(storage.refs[ref_index(storage.refs, repo_hash, name)].content))
    } else {
        None
    }
}

/// The advertisement of the refs of a repository: a line for `HEAD`, with
/// forty zeros where it does not exist, and a line for the main branch
/// where that exists.
pub open spec fn refs_advertisement(storage: StorageView, repo_hash: Seq<char>) -> Seq<char> {
    (match ref_target(storage, repo_hash, "HEAD"@) {
        Some(head) => head,
        None => NULL_COMMIT@,
    }) + "\tHEAD\n"@ + (match ref_target(storage, repo_hash, "refs/heads/main"@) {
        Some(main) => main + "\trefs/heads/main\n"@,
        None => Seq::empty(),
    })
}

/// Advertises the refs of a repository to a user who may read it. A
/// repository without a storage root is `NotFound`.
pub fn git_info_refs(
    db: &Database,
    storage: &GitStorage,
    user: &Option<AuthUser>,
    repo_hash: &str,
) -> (response: Result<String, HttpStatus>)
    requires
        db.wf(),
        storage.wf(),
    ensures
        (match response {
            Ok(text) => Ok::<Seq<char>, HttpStatus>(text@),
            Err(status) => Err(status),
        }) == (match fetch_fault(db@, repo_hash@, user_id(*user)) {
            Some(status) => Err(status),
            None => if !storage@.roots.contains(repo_hash@) {
                Err(HttpStatus::NotFound)
            } else {
                Ok(refs_advertisement(storage@, repo_hash@))
            },
        }),
{
    match authorize_fetch(db, repo_hash, user) {
        Ok(_) => {},
        Err(status) => {
            return Err(status);
        },
    }
    if !storage.has_repo(repo_hash) {
        return Err(HttpStatus::NotFound);
    }
    let mut response = match storage.read_ref(repo_hash, "HEAD") {
        Ok(head) => head,
        Err(_) => String::from_str(NULL_COMMIT),
    };
    response.append("\tHEAD\n");
    let ghost head_line = response@;
    match storage.read_ref(repo_hash, "refs/heads/main") {
        Ok(main) => {
            response.append(main.as_str());
            response.append("\trefs/heads/main\n");
            assert(response@ == head_line + (main@ + "\trefs/heads/main\n"@));
        },
        Err(_) => {
            assert(response@ == head_line + Seq::<char>::empty());
        },
    }
    Ok(response)
}

} // verus!
