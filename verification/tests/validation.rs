use hyrule::utils::hash::generate_repo_hash;
use hyrule::utils::validation::{
    is_safe_path, sanitize_html, validate_object_id, validate_password, validate_ref_name,
    validate_repo_hash, validate_repo_name, validate_username,
};

#[test]
fn test_path_traversal_detection() {
    assert!(!is_safe_path("../etc/passwd"));
    assert!(!is_safe_path("foo/../../../etc/passwd"));
    assert!(!is_safe_path("/etc/passwd"));
    assert!(is_safe_path("valid/path/to/file.txt"));
}

#[test]
fn test_username_validation() {
    assert!(validate_username("validuser123").is_ok());
    assert!(validate_username("ab").is_err());
    assert!(validate_username("user<script>").is_err());
    assert!(validate_username("admin").is_err());
}

#[test]
fn test_repo_hash_validation() {
    assert!(validate_repo_hash("abcdef1234567890abcdef1234567890abcdef12"));
    assert!(!validate_repo_hash("invalid"));
    assert!(!validate_repo_hash("ABCDEF1234567890ABCDEF1234567890ABCDEF12"));
}

#[test]
fn test_password_validation() {
    assert!(validate_password("Secure123").is_ok());
    assert!(validate_password("short").is_err());
    assert!(validate_password("nodigitshere").is_err());
    assert!(validate_password("12345678").is_err());
}

#[test]
fn username_errors_name_the_failed_check() {
    assert_eq!(validate_username("ab"), Err("Username too short (minimum 3 characters)"));
    assert_eq!(
        validate_username("a123456789012345678901234567890123"),
        Err("Username too long (maximum 32 characters)")
    );
    assert_eq!(
        validate_username("user name"),
        Err("Username can only contain letters, numbers, underscores, and hyphens")
    );
    assert_eq!(validate_username("Admin"), Err("Username is reserved"));
    assert_eq!(validate_username("ROOT"), Err("Username is reserved"));
    assert_eq!(validate_username("admin2"), Ok(()));
}

#[test]
fn repo_name_errors_name_the_failed_check() {
    assert_eq!(
        validate_repo_name("ab"),
        Err("Repository name too short (minimum 3 characters)")
    );
    assert_eq!(
        validate_repo_name(&"x".repeat(65)),
        Err("Repository name too long (maximum 64 characters)")
    );
    assert_eq!(
        validate_repo_name("my repo"),
        Err("Repository name can only contain letters, numbers, underscores, and hyphens")
    );
    assert_eq!(validate_repo_name("objects"), Err("Repository name is reserved"));
    assert_eq!(validate_repo_name("HEAD"), Err("Repository name is reserved"));
    assert_eq!(validate_repo_name("head"), Ok(()));
    assert_eq!(validate_repo_name("my-repo_1"), Ok(()));
}

#[test]
fn password_errors_name_the_failed_check() {
    assert_eq!(validate_password("a1"), Err("Password must be at least 8 characters"));
    assert_eq!(
        validate_password(&"a1".repeat(65)),
        Err("Password too long (maximum 128 characters)")
    );
    assert_eq!(
        validate_password("nodigitshere"),
        Err("Password must contain at least one number")
    );
    assert_eq!(validate_password("12345678"), Err("Password must contain at least one letter"));
    assert_eq!(validate_password("\u{0663}\u{0663}\u{0663}abcde"), Ok(()));
}

#[test]
fn ref_names_follow_the_rules_of_git() {
    assert!(validate_ref_name("refs/heads/main"));
    assert!(validate_ref_name("feature/x-1_y"));
    assert!(!validate_ref_name(""));
    assert!(!validate_ref_name("/refs/heads/main"));
    assert!(!validate_ref_name("refs/heads/main/"));
    assert!(!validate_ref_name("refs//heads"));
    assert!(!validate_ref_name("refs/heads/ma in"));
    assert!(!validate_ref_name("refs/heads/a..b"));
    assert!(!validate_ref_name("refs/heads/a~1"));
    assert!(!validate_ref_name(&"a".repeat(256)));
    assert!(validate_ref_name(&"a".repeat(255)));
}

#[test]
fn safe_paths_are_relative_and_plain() {
    assert!(!is_safe_path(""));
    assert!(!is_safe_path(&"a".repeat(1025)));
    assert!(is_safe_path(&"a".repeat(1024)));
    assert!(!is_safe_path("\\windows"));
    assert!(!is_safe_path("C:file"));
    assert!(!is_safe_path("a\u{0}b"));
    assert!(!is_safe_path("a\nb"));
    assert!(!is_safe_path("a\u{85}b"));
    assert!(!is_safe_path("~/x"));
    assert!(!is_safe_path("a$b"));
    assert!(!is_safe_path("a`b"));
    assert!(!is_safe_path("a|b"));
    assert!(!is_safe_path("a;b"));
    assert!(!is_safe_path("a&b"));
    assert!(!is_safe_path("a!b"));
    assert!(is_safe_path("src/main.rs"));
    assert!(is_safe_path("a.b/c.d"));
}

#[test]
fn object_ids_are_forty_lower_case_hex_digits() {
    assert!(validate_object_id("0123456789abcdefabcdef0123456789abcdef01"));
    assert!(!validate_object_id("0123456789abcdefABCDEF0123456789abcdef01"));
    assert!(!validate_object_id("0123456789abcdefabcdef0123456789abcdeF01"));
    assert!(!validate_object_id("0123456789abcdefabcdef0123456789abcdef0"));
    assert!(!validate_object_id("0123456789abcdefabcdef0123456789abcdef0g"));
    assert!(!validate_object_id("0123456789abcdefabcdef0123456789abcdef012"));
    assert!(!validate_object_id(""));
}

#[test]
fn sanitize_html_replaces_six_characters() {
    assert_eq!(
        sanitize_html("<a href=\"/x?y=1&z='2'\">"),
        "&lt;a href=&quot;&#x2F;x?y=1&amp;z=&#x27;2&#x27;&quot;&gt;"
    );
    assert_eq!(sanitize_html("plain text"), "plain text");
    assert_eq!(sanitize_html(""), "");
}

#[test]
fn repo_hash_is_forty_hex_digits_of_blake3() {
    let hash = generate_repo_hash("demo", 7, 1_700_000_000);
    assert_eq!(hash.len(), 40);
    assert!(validate_repo_hash(&hash));
    assert_eq!(hash, generate_repo_hash("demo", 7, 1_700_000_000));
    assert_ne!(hash, generate_repo_hash("demo", 8, 1_700_000_000));
    assert_ne!(hash, generate_repo_hash("demo", 7, 1_700_000_001));
    let mut input = b"demo".to_vec();
    input.extend_from_slice(&7i64.to_le_bytes());
    input.extend_from_slice(&1_700_000_000i64.to_le_bytes());
    let expected = hex::encode(&blake3::hash(&input).as_bytes()[..20]);
    assert_eq!(hash, expected);
}
