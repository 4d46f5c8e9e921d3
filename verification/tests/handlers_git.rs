use hyrule::auth::AuthUser;
use hyrule::db::Database;
use hyrule::handlers::git::{
    batch_upload_objects, download_object, frame_object, get_packfile, get_ref, git_info_refs,
    list_objects, update_ref, upload_object, BatchUploadRequest, UpdateRefRequest,
    UploadObjectRequest,
};
use hyrule::handlers::HttpStatus;
use hyrule::models::CreateRepoRequest;
use hyrule::storage::git::GitStorage;

const REPO: &str = "abcdef1234567890abcdef1234567890abcdef12";
const PRIVATE: &str = "1111111111111111111111111111111111111111";
const OBJECT: &str = "0123456789abcdef0123456789abcdef01234567";
const OTHER: &str = "89abcdef0123456789abcdef0123456789abcdef";

fn owner() -> AuthUser {
    AuthUser { id: 1, username: "owner".to_string() }
}

fn stranger() -> AuthUser {
    AuthUser { id: 2, username: "stranger".to_string() }
}

fn setup() -> (Database, GitStorage) {
    let mut db = Database::new(10);
    let public = CreateRepoRequest {
        name: "demo".to_string(),
        description: None,
        storage_tier: "free".to_string(),
        is_private: false,
    };
    let private = CreateRepoRequest {
        name: "secret".to_string(),
        description: Some("hidden".to_string()),
        storage_tier: "free".to_string(),
        is_private: true,
    };
    db.create_repository(&public, 1, REPO, 1000).unwrap();
    db.create_repository(&private, 1, PRIVATE, 1000).unwrap();
    let mut storage = GitStorage::new("/data".to_string());
    storage.init_repo(REPO, true).unwrap();
    (db, storage)
}

fn upload(object_id: &str, kind: &str, data: &str) -> UploadObjectRequest {
    UploadObjectRequest {
        object_id: object_id.to_string(),
        object_type: kind.to_string(),
        data: data.to_string(),
    }
}

#[test]
fn upload_stores_the_decoded_payload() {
    let (db, mut storage) = setup();
    let done = upload_object(&db, &mut storage, &owner(), REPO, upload(OBJECT, "blob", "aGVsbG8="))
        .unwrap();
    assert!(done.success);
    assert_eq!(done.object_id, OBJECT);
    assert_eq!(storage.read_object(REPO, OBJECT).unwrap(), b"hello".to_vec());
    assert_eq!(download_object(&db, &storage, &None, REPO, OBJECT), Ok(b"hello".to_vec()));
}

#[test]
fn upload_is_refused_with_the_matching_status() {
    let (db, mut storage) = setup();
    let bad = |r: Result<_, HttpStatus>| r.err();
    assert_eq!(
        bad(upload_object(&db, &mut storage, &owner(), "nohash", upload(OBJECT, "blob", "aGVsbG8="))),
        Some(HttpStatus::BadRequest)
    );
    assert_eq!(
        bad(upload_object(&db, &mut storage, &owner(), REPO, upload("xyz", "blob", "aGVsbG8="))),
        Some(HttpStatus::BadRequest)
    );
    assert_eq!(
        bad(upload_object(&db, &mut storage, &owner(), REPO, upload(OBJECT, "file", "aGVsbG8="))),
        Some(HttpStatus::BadRequest)
    );
    assert_eq!(
        bad(upload_object(&db, &mut storage, &owner(), OTHER, upload(OBJECT, "blob", "aGVsbG8="))),
        Some(HttpStatus::NotFound)
    );
    assert_eq!(
        bad(upload_object(&db, &mut storage, &stranger(), REPO, upload(OBJECT, "blob", "aGVsbG8="))),
        Some(HttpStatus::Forbidden)
    );
    assert_eq!(
        bad(upload_object(&db, &mut storage, &owner(), REPO, upload(OBJECT, "blob", "not base64!"))),
        Some(HttpStatus::BadRequest)
    );
    assert!(storage.list_objects(REPO).is_empty());
}

#[test]
fn batch_stores_framed_objects_and_lists_failures() {
    let (mut db, mut storage) = setup();
    let batch = BatchUploadRequest {
        objects: vec![
            upload(OBJECT, "blob", "aGVsbG8="),
            upload("short", "blob", "aGVsbG8="),
            upload(OTHER, "commit", "***"),
        ],
    };
    let done = batch_upload_objects(&mut db, &mut storage, &owner(), REPO, batch, 2000).unwrap();
    assert_eq!(done.uploaded, 1);
    assert_eq!(done.failed, vec!["short".to_string(), OTHER.to_string()]);
    assert_eq!(storage.read_object(REPO, OBJECT).unwrap(), b"blob 5\0hello".to_vec());
    let repo = db.get_repository(REPO).unwrap();
    assert_eq!(repo.size as u64, storage.get_repo_size(REPO));
    assert!(repo.size > 0);
    assert_eq!(repo.last_updated, 2000);
}

#[test]
fn batch_of_a_stranger_changes_nothing() {
    let (mut db, mut storage) = setup();
    let batch = BatchUploadRequest { objects: vec![upload(OBJECT, "blob", "aGVsbG8=")] };
    let refused = batch_upload_objects(&mut db, &mut storage, &stranger(), REPO, batch, 2000);
    assert_eq!(refused.err(), Some(HttpStatus::Forbidden));
    assert!(storage.list_objects(REPO).is_empty());
}

#[test]
fn object_header_names_type_and_length() {
    assert_eq!(frame_object("blob", &b"hello".to_vec()), b"blob 5\0hello".to_vec());
    assert_eq!(frame_object("tree", &Vec::new()), b"tree 0\0".to_vec());
    assert_eq!(frame_object("tag", &vec![7u8; 1234])[..9].to_vec(), b"tag 1234\0".to_vec());
}

#[test]
fn private_repository_is_read_by_its_owner_alone() {
    let (db, storage) = setup();
    assert_eq!(
        download_object(&db, &storage, &None, PRIVATE, OBJECT),
        Err(HttpStatus::Unauthorized)
    );
    assert_eq!(
        download_object(&db, &storage, &Some(stranger()), PRIVATE, OBJECT),
        Err(HttpStatus::Forbidden)
    );
    assert_eq!(
        download_object(&db, &storage, &Some(owner()), PRIVATE, OBJECT),
        Err(HttpStatus::NotFound)
    );
    assert_eq!(download_object(&db, &storage, &None, REPO, "zz"), Err(HttpStatus::BadRequest));
}

#[test]
fn refs_are_updated_and_read_back() {
    let (db, mut storage) = setup();
    let request =
        UpdateRefRequest { ref_name: "refs/heads/main".to_string(), commit_id: OBJECT.to_string() };
    assert_eq!(update_ref(&db, &mut storage, &owner(), REPO, &request), Ok(HttpStatus::Success));
    assert_eq!(
        update_ref(&db, &mut storage, &stranger(), REPO, &request),
        Err(HttpStatus::Forbidden)
    );
    assert_eq!(get_ref(&db, &storage, &None, REPO, "refs%2Fheads%2Fmain"), Ok(OBJECT.to_string()));
    assert_eq!(get_ref(&db, &storage, &None, REPO, "refs/heads/main"), Ok(OBJECT.to_string()));
    assert_eq!(get_ref(&db, &storage, &None, REPO, "refs/heads/dev"), Err(HttpStatus::NotFound));
    assert_eq!(get_ref(&db, &storage, &None, REPO, "refs%2F..%2Fx"), Err(HttpStatus::BadRequest));
    assert_eq!(get_ref(&db, &storage, &None, REPO, "%ff"), Err(HttpStatus::BadRequest));
    let bad =
        UpdateRefRequest { ref_name: "refs/heads/main".to_string(), commit_id: "1234".to_string() };
    assert_eq!(update_ref(&db, &mut storage, &owner(), REPO, &bad), Err(HttpStatus::BadRequest));
}

#[test]
fn refs_are_advertised_with_head_first() {
    let (db, mut storage) = setup();
    assert_eq!(
        git_info_refs(&db, &storage, &None, REPO),
        Ok("0000000000000000000000000000000000000000\tHEAD\n".to_string())
    );
    storage.update_ref(REPO, "HEAD", OTHER);
    storage.update_ref(REPO, "refs/heads/main", OBJECT);
    assert_eq!(
        git_info_refs(&db, &storage, &None, REPO),
        Ok(format!("{}\tHEAD\n{}\trefs/heads/main\n", OTHER, OBJECT))
    );
    assert_eq!(git_info_refs(&db, &storage, &Some(owner()), PRIVATE), Err(HttpStatus::NotFound));
}

#[test]
fn listing_and_pack_follow_the_order_of_storage() {
    let (db, mut storage) = setup();
    storage.store_object(REPO, OBJECT, b"one").unwrap();
    storage.store_object(REPO, OTHER, b"two").unwrap();
    storage.store_object(PRIVATE, OBJECT, b"three").unwrap();
    let listing = list_objects(&db, &storage, &None, REPO).unwrap();
    assert_eq!(listing.objects, vec![OBJECT.to_string(), OTHER.to_string()]);
    assert_eq!(listing.count, 2);
    let mut expected = storage.stored_bytes(REPO, OBJECT).unwrap();
    expected.extend(storage.stored_bytes(REPO, OTHER).unwrap());
    assert_eq!(get_packfile(&db, &storage, &None, REPO), Ok(expected));
    assert_eq!(list_objects(&db, &storage, &None, PRIVATE).err(), Some(HttpStatus::Unauthorized));
}

#[test]
fn an_object_id_in_upper_case_is_turned_away() {
    let (mut db, mut storage) = setup();
    let shouted = "0123456789ABCDEF0123456789abcdef01234567";
    let refused =
        upload_object(&db, &mut storage, &owner(), REPO, upload(shouted, "blob", "aGVsbG8="));
    assert_eq!(refused.err(), Some(HttpStatus::BadRequest));
    assert_eq!(
        download_object(&db, &storage, &None, REPO, shouted),
        Err(HttpStatus::BadRequest)
    );
    let batch = BatchUploadRequest {
        objects: vec![
            upload(shouted, "blob", "aGVsbG8="),
            upload(OBJECT, "blob", "aGVsbG8="),
            upload(OBJECT, "blob", "d29ybGQ="),
            upload(OTHER, "tree", ""),
        ],
    };
    let done = batch_upload_objects(&mut db, &mut storage, &owner(), REPO, batch, 2000).unwrap();
    assert_eq!(done.uploaded, 3);
    assert_eq!(done.failed, vec![shouted.to_string()]);
    assert_eq!(storage.list_objects(REPO), vec![OBJECT.to_string(), OTHER.to_string()]);
    assert_eq!(storage.read_object(REPO, OBJECT).unwrap(), b"blob 5\0world".to_vec());
    assert_eq!(storage.read_object(REPO, OTHER).unwrap(), b"tree 0\0".to_vec());
}
