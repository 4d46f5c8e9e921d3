use hyrule::error::CoreError;
use hyrule::storage::git::GitStorage;

const REPO: &str = "abcdef1234567890abcdef1234567890abcdef12";
const OBJECT: &str = "0123456789abcdef0123456789abcdef01234567";

#[test]
fn read_returns_what_was_stored() {
    let mut storage = GitStorage::new("/var/lib/hyrule".to_string());
    let payload = b"blob 11\0hello world".to_vec();
    storage.store_object(REPO, OBJECT, &payload).unwrap();
    assert_eq!(storage.read_object(REPO, OBJECT).unwrap(), payload);
    let kept = storage.stored_bytes(REPO, OBJECT).unwrap();
    assert_ne!(kept, payload);
    assert_eq!(kept[0], 0x78);
}

#[test]
fn second_store_replaces_the_first() {
    let mut storage = GitStorage::new("/var/lib/hyrule".to_string());
    storage.store_object(REPO, OBJECT, b"first").unwrap();
    storage.store_object(REPO, OBJECT, b"second payload").unwrap();
    assert_eq!(storage.read_object(REPO, OBJECT).unwrap(), b"second payload".to_vec());
    assert_eq!(storage.list_objects(REPO), vec![OBJECT.to_string()]);
}

#[test]
fn missing_object_and_ref_are_reported() {
    let storage = GitStorage::new("/var/lib/hyrule".to_string());
    assert_eq!(storage.read_object(REPO, OBJECT), Err(CoreError::ObjectNotFound));
    assert_eq!(storage.read_ref(REPO, "refs/heads/main"), Err(CoreError::RefNotFound));
}

#[test]
fn object_path_fans_out_by_the_first_two_characters() {
    let storage = GitStorage::new("/var/lib/hyrule".to_string());
    assert_eq!(storage.repo_path(REPO), format!("/var/lib/hyrule/{}", REPO));
    assert_eq!(storage.objects_path(REPO), format!("/var/lib/hyrule/{}/objects", REPO));
    assert_eq!(storage.refs_path(REPO), format!("/var/lib/hyrule/{}/refs", REPO));
    assert_eq!(
        storage.object_path(REPO, OBJECT),
        format!("/var/lib/hyrule/{}/objects/01/23456789abcdef0123456789abcdef01234567", REPO)
    );
}

#[test]
fn a_repository_root_that_could_not_be_made_is_an_init_error() {
    let mut storage = GitStorage::new("/var/lib/hyrule".to_string());
    assert_eq!(storage.init_repo(REPO, false), Err(CoreError::StorageInitError));
    assert!(!storage.has_repo(REPO));
    assert_eq!(storage.init_repo(REPO, true), Ok(()));
    assert!(storage.has_repo(REPO));
    assert_eq!(storage.init_repo(REPO, true), Ok(()));
    assert!(storage.has_repo(REPO));
}

#[test]
fn bytes_that_are_no_zlib_stream_cannot_be_read() {
    let mut storage = GitStorage::new("/var/lib/hyrule".to_string());
    storage.put_object(REPO, OBJECT, b"certainly not compressed".to_vec());
    assert_eq!(storage.read_object(REPO, OBJECT), Err(CoreError::StorageIoError));
    assert_eq!(storage.list_objects(REPO), vec![OBJECT.to_string()]);
}

#[test]
fn an_empty_payload_round_trips() {
    let mut storage = GitStorage::new("/var/lib/hyrule".to_string());
    storage.store_object(REPO, OBJECT, b"").unwrap();
    assert_eq!(storage.read_object(REPO, OBJECT).unwrap(), Vec::<u8>::new());
    assert!(!storage.stored_bytes(REPO, OBJECT).unwrap().is_empty());
}

#[test]
fn size_is_the_sum_of_what_is_kept() {
    let mut storage = GitStorage::new("/var/lib/hyrule".to_string());
    assert_eq!(storage.get_repo_size(REPO), 0);
    storage.put_object(REPO, OBJECT, vec![1, 2, 3, 4, 5]);
    storage.put_object(REPO, "ff00000000000000000000000000000000000000", vec![9; 7]);
    storage.put_object("other", OBJECT, vec![0; 100]);
    assert_eq!(storage.get_repo_size(REPO), 12);
    storage.update_ref(REPO, "refs/heads/main", OBJECT);
    assert_eq!(storage.get_repo_size(REPO), 12 + 41);
    assert_eq!(storage.get_repo_size("other"), 100);
}

#[test]
fn pack_is_the_kept_bytes_in_listing_order() {
    let mut storage = GitStorage::new("/var/lib/hyrule".to_string());
    assert_eq!(storage.create_pack(REPO), Vec::<u8>::new());
    storage.put_object(REPO, OBJECT, vec![1, 2, 3]);
    storage.put_object("other", OBJECT, vec![7, 7]);
    storage.put_object(REPO, "ff00000000000000000000000000000000000000", vec![4, 5]);
    assert_eq!(storage.create_pack(REPO), vec![1, 2, 3, 4, 5]);
    assert_eq!(
        storage.list_objects(REPO),
        vec![OBJECT.to_string(), "ff00000000000000000000000000000000000000".to_string()]
    );
}

#[test]
fn deleting_a_repository_that_is_not_there_changes_nothing() {
    let mut storage = GitStorage::new("/var/lib/hyrule".to_string());
    storage.init_repo(REPO, true).unwrap();
    storage.store_object(REPO, OBJECT, b"kept").unwrap();
    storage.update_ref(REPO, "refs/heads/main", OBJECT);
    storage.delete_repo("0000000000000000000000000000000000000000");
    assert!(storage.has_repo(REPO));
    assert_eq!(storage.read_object(REPO, OBJECT).unwrap(), b"kept".to_vec());
    assert_eq!(storage.read_ref(REPO, "refs/heads/main").unwrap(), OBJECT.to_string());
    storage.delete_repo(REPO);
    assert!(!storage.has_repo(REPO));
    assert_eq!(storage.read_object(REPO, OBJECT), Err(CoreError::ObjectNotFound));
    assert_eq!(storage.read_ref(REPO, "refs/heads/main"), Err(CoreError::RefNotFound));
    assert_eq!(storage.get_repo_size(REPO), 0);
}

#[test]
fn a_pointer_is_read_without_the_white_space_around_it() {
    let mut storage = GitStorage::new("/var/lib/hyrule".to_string());
    storage.restore_ref(REPO, "refs/heads/main", format!("  {}\n\n", OBJECT));
    assert_eq!(storage.read_ref(REPO, "refs/heads/main").unwrap(), OBJECT.to_string());
    storage.update_ref(REPO, "refs/heads/main", "ff00000000000000000000000000000000000000");
    assert_eq!(
        storage.ref_content(REPO, "refs/heads/main").unwrap(),
        "ff00000000000000000000000000000000000000\n".to_string()
    );
}

#[test]
fn storing_twice_succeeds_and_lists_the_id_once() {
    let mut storage = GitStorage::new("/var/lib/hyrule".to_string());
    assert_eq!(storage.store_object(REPO, OBJECT, b"first payload"), Ok(()));
    assert_eq!(storage.store_object(REPO, OBJECT, b"second"), Ok(()));
    assert_eq!(storage.read_object(REPO, OBJECT), Ok(b"second".to_vec()));
    assert_eq!(storage.list_objects(REPO), vec![OBJECT.to_string()]);
    assert_eq!(storage.store_object(REPO, OBJECT, &vec![7u8; 100_000]), Ok(()));
    assert_eq!(storage.read_object(REPO, OBJECT), Ok(vec![7u8; 100_000]));
}

#[test]
fn a_restored_pointer_leaves_the_other_refs_alone() {
    let mut storage = GitStorage::new("/var/lib/hyrule".to_string());
    storage.update_ref(REPO, "refs/heads/main", OBJECT);
    storage.update_ref(REPO, "refs/heads/dev", "ff00000000000000000000000000000000000000");
    storage.update_ref("other", "refs/heads/main", "1100000000000000000000000000000000000000");
    storage.restore_ref(REPO, "refs/heads/dev", "abc\n".to_string());
    storage.restore_ref(REPO, "refs/tags/v1", "def".to_string());
    assert_eq!(storage.ref_content(REPO, "refs/heads/main"), Some(format!("{}\n", OBJECT)));
    assert_eq!(storage.ref_content(REPO, "refs/heads/dev"), Some("abc\n".to_string()));
    assert_eq!(storage.ref_content(REPO, "refs/tags/v1"), Some("def".to_string()));
    assert_eq!(
        storage.ref_content("other", "refs/heads/main"),
        Some("1100000000000000000000000000000000000000\n".to_string())
    );
}
